//! The render surface: its size, how it follows resizes, and what each frame
//! draws. The GPU context and surface themselves are held by the backend,
//! which carries out the actions decided here.
use vstd::prelude::*;

use crate::canvas::{Canvas, Color, DrawCmd};
use crate::widget::Widget;

verus! {

/// The color every frame is cleared to.
pub open spec fn background() -> Color {
    Color::opaque(255, 255, 255)
}

/// What the backend must do to its GPU surface after a resize request.
#[derive(Debug, Clone, Copy, PartialEq, Eq, Structural)]
pub enum SurfaceAction {
    /// Keep the current surface.
    Keep,
    /// Release the current surface, then allocate one of this size and bind it.
    Reallocate { width: u32, height: u32 },
}

/// Why a frame did not reach the screen.
#[derive(Debug, Clone, Copy, PartialEq, Eq, Structural)]
pub enum DrawError {
    /// The flushed frame could not be presented (for instance, the context was lost).
    PresentFailed,
}

/// A bound render surface, described by its size in device pixels.
#[derive(Debug, Clone, Copy, PartialEq, Eq, Structural)]
pub struct GpuSkiaRenderer {
    pub width: u32,
    pub height: u32,
}

/// A resize request that leaves the surface alone: a zero side (a minimized or
/// hidden window) or the size the surface already has.
pub open spec fn ignorable(s: GpuSkiaRenderer, width: u32, height: u32) -> bool {
    width == 0 || height == 0 || (width == s.width && height == s.height)
}

/// The surface after a resize request.
pub open spec fn resized(s: GpuSkiaRenderer, width: u32, height: u32) -> GpuSkiaRenderer {
    if ignorable(s, width, height) {
        s
    } else {
        GpuSkiaRenderer { width, height }
    }
}

/// What a resize request asks of the backend.
pub open spec fn resize_action(s: GpuSkiaRenderer, width: u32, height: u32) -> SurfaceAction {
    if ignorable(s, width, height) {
        SurfaceAction::Keep
    } else {
        SurfaceAction::Reallocate { width, height }
    }
}

/// The commands of a frame of a root widget in state `m`.
pub open spec fn frame_commands<W: Widget>(m: W::Model) -> Seq<DrawCmd> {
    seq![DrawCmd::Clear(background())] + W::paint(m)
}

/// One frame, ready for the backend: the commands to replay onto a surface of
/// the given size, after which the backend flushes and presents.
pub struct Frame {
    pub width: u32,
    pub height: u32,
    pub canvas: Canvas,
}

/// What the backend reports of a present: the frame reached the screen, or
/// the failure is reported to the caller.
pub fn present_outcome(presented: bool) -> (r: Result<(), DrawError>)
    ensures
        presented <==> r is Ok,
        !presented ==> r == Err::<(), DrawError>(DrawError::PresentFailed),
{
    if presented {
        Ok(())
    } else {
        Err(DrawError::PresentFailed)
    }
}

impl GpuSkiaRenderer {
    /// The surface as first allocated for a window of the given size.
    pub fn new(width: u32, height: u32) -> (s: GpuSkiaRenderer)
        ensures
            s == (GpuSkiaRenderer { width, height }),
    {
        GpuSkiaRenderer { width, height }
    }

    /// Follows a resize of the window. A zero side or an unchanged size is
    /// ignored; any other size replaces the surface.
    pub fn resize(&mut self, width: u32, height: u32) -> (action: SurfaceAction)
        ensures
            *final(self) == resized(*old(self), width, height),
            action == resize_action(*old(self), width, height),
    {
        if width == 0 || height == 0 || (width == self.width && height == self.height) {
            SurfaceAction::Keep
        } else {
            self.width = width;
            self.height = height;
            SurfaceAction::Reallocate { width, height }
        }
    }

    /// Builds the next frame: the surface is cleared to the background and the
    /// root widget draws itself once onto it. The frame targets the surface's
    /// current size.
    pub fn draw<W: Widget>(&self, root: &W) -> (frame: Frame)
        ensures
            frame.width == self.width,
            frame.height == self.height,
            frame.canvas@ == frame_commands::<W>(root.model()),
    {
        let mut canvas = Canvas::new();
        canvas.clear(Color::rgb(255, 255, 255));
        root.draw(&mut canvas);
        Frame { width: self.width, height: self.height, canvas }
    }
}

/// A second resize request to the same size changes nothing and asks nothing
/// of the backend; a zero-sized request never does.
pub proof fn lemma_resize_idempotent(s: GpuSkiaRenderer, width: u32, height: u32)
    ensures
        resized(resized(s, width, height), width, height) == resized(s, width, height),
        resize_action(resized(s, width, height), width, height) == SurfaceAction::Keep,
        resized(s, 0, 0) == s,
        resize_action(s, 0, 0) == SurfaceAction::Keep,
{
}

/// What a widget paints depends on its state alone, not on what the canvas
/// already held; so two frames drawn from the same state are identical.
pub proof fn lemma_draw_determinism<W: Widget>(m: W::Model, a: Seq<DrawCmd>, b: Seq<DrawCmd>)
    ensures
        (a + W::paint(m)).skip(a.len() as int) == (b + W::paint(m)).skip(b.len() as int),
        (a + W::paint(m)).skip(a.len() as int) == W::paint(m),
{
    assert((a + W::paint(m)).skip(a.len() as int) =~= W::paint(m));
    assert((b + W::paint(m)).skip(b.len() as int) =~= W::paint(m));
}

} // verus!
