//! The window controller: one window's translator, render surface and root
//! widget, driven one platform event at a time.
use vstd::prelude::*;

use crate::canvas::Rect;
use crate::dispatch::Dispatcher;
use crate::event::Event;
use crate::surface::{frame_commands, resize_action, resized, Frame, GpuSkiaRenderer, SurfaceAction};
use crate::translate::{next_state, translate_event, translated, NativeEvent, Translator};
use crate::widget::Widget;

verus! {

/// What the caller must do after the controller has handled a platform event.
#[derive(Debug, Clone, Copy, PartialEq, Eq, Structural)]
pub enum Reaction {
    /// The window was resized: carry out the surface action, then request a redraw.
    Resize(SurfaceAction),
    /// The event was translated and dispatched to the root widget; `consumed`
    /// is the root's answer.
    Dispatched { event: Event, consumed: bool },
    /// The event has no normalized counterpart.
    Ignored,
}

/// Controls one native window: its cached inner size, its render surface, the
/// event translator and the root widget.
pub struct Window<W> {
    pub translator: Translator,
    pub renderer: GpuSkiaRenderer,
    pub dispatcher: Dispatcher<W>,
    pub width: u32,
    pub height: u32,
}

impl<W: Widget> Window<W> {
    /// The surface matches the window's size whenever the window has an area.
    pub open spec fn in_sync(&self) -> bool {
        (self.width != 0 && self.height != 0) ==> (self.renderer.width == self.width
            && self.renderer.height == self.height)
    }

    /// A controller for a window just created with the given inner size,
    /// whose surface was allocated at that size.
    pub fn new(width: u32, height: u32, root: W) -> (w: Window<W>)
        ensures
            w.width == width,
            w.height == height,
            w.renderer == (GpuSkiaRenderer { width, height }),
            w.translator == Translator::new_spec(),
            w.dispatcher.root == root,
            w.in_sync(),
    {
        Window {
            translator: Translator::new(),
            renderer: GpuSkiaRenderer::new(width, height),
            dispatcher: Dispatcher::new(root),
            width,
            height,
        }
    }

    /// The window's cached inner size.
    pub fn size(&self) -> (r: (u32, u32))
        ensures
            r == (self.width, self.height),
    {
        (self.width, self.height)
    }

    /// Handles one platform event. A resize updates the cached size and the
    /// surface, synchronously, before any later draw; any other event goes
    /// through the translator and, if it maps to one, the root widget.
    pub fn handle_event(&mut self, native: &NativeEvent) -> (r: Reaction)
        ensures
            old(self).in_sync() ==> final(self).in_sync(),
            match *native {
                NativeEvent::Resized { width, height } => {
                    &&& final(self).width == width
                    &&& final(self).height == height
                    &&& final(self).renderer == resized(old(self).renderer, width, height)
                    &&& r == Reaction::Resize(resize_action(old(self).renderer, width, height))
                    &&& final(self).translator == old(self).translator
                    &&& final(self).dispatcher.root == old(self).dispatcher.root
                    &&& (width != 0 && height != 0) ==> final(self).in_sync()
                },
                _ => {
                    &&& final(self).width == old(self).width
                    &&& final(self).height == old(self).height
                    &&& final(self).renderer == old(self).renderer
                    &&& final(self).translator == next_state(old(self).translator, *native)
                    &&& match translated(old(self).translator, *native) {
                        Some(e) => {
                            &&& r == (Reaction::Dispatched {
                                event: e,
                                consumed: W::consumes(old(self).dispatcher.root.model(), e),
                            })
                            &&& final(self).dispatcher.root.model() == W::after_event(
                                old(self).dispatcher.root.model(),
                                e,
                            )
                        },
                        None => {
                            &&& r == Reaction::Ignored
                            &&& final(self).dispatcher.root == old(self).dispatcher.root
                        },
                    }
                },
            },
    {
        match *native {
            NativeEvent::Resized { width, height } => {
                self.width = width;
                self.height = height;
                let action = self.renderer.resize(width, height);
                Reaction::Resize(action)
            },
            _ => {
                match translate_event(native, &mut self.translator) {
                    Some(event) => {
                        let consumed = self.dispatcher.dispatch(&event);
                        Reaction::Dispatched { event, consumed }
                    },
                    None => Reaction::Ignored,
                }
            },
        }
    }

    /// Lays the root widget out over the whole window, at its cached size.
    pub fn layout_root(&mut self)
        ensures
            final(self).dispatcher.root.model() == W::laid_out(
                old(self).dispatcher.root.model(),
                Rect { x: 0, y: 0, width: old(self).width, height: old(self).height },
            ),
            final(self).translator == old(self).translator,
            final(self).renderer == old(self).renderer,
            final(self).width == old(self).width,
            final(self).height == old(self).height,
    {
        let rect = Rect { x: 0, y: 0, width: self.width, height: self.height };
        self.dispatcher.root.layout(rect);
    }

    /// The next frame: the root widget drawn onto a cleared surface of the
    /// surface's current size.
    pub fn render(&self) -> (frame: Frame)
        ensures
            frame.width == self.renderer.width,
            frame.height == self.renderer.height,
            self.in_sync() && self.width != 0 && self.height != 0 ==> frame.width == self.width
                && frame.height == self.height,
            frame.canvas@ == frame_commands::<W>(self.dispatcher.root.model()),
    {
        self.renderer.draw(&self.dispatcher.root)
    }
}

/// From a window created at any size, a resize to a size with an area leaves
/// the cached size and the surface both at the new size, so the next frame
/// targets it.
pub proof fn lemma_resize_reaches_frame(s: GpuSkiaRenderer, width: u32, height: u32)
    requires
        width != 0,
        height != 0,
    ensures
        resized(s, width, height) == (GpuSkiaRenderer { width, height }),
        (s.width != width || s.height != height) ==> resize_action(s, width, height)
            == (SurfaceAction::Reallocate { width, height }),
{
}

} // verus!
