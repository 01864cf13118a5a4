//! The contract every node of the widget tree meets, and a push button.
use vstd::prelude::*;

use crate::canvas::{Canvas, Color, DrawCmd, Rect};
use crate::event::Event;

verus! {

/// A node of the UI tree.
///
/// A widget is described by an abstract model. Painting depends on the model
/// alone, reacting to an event is a function of the model and the event, and
/// laying out twice in the same rectangle is the same as laying out once.
pub trait Widget: Sized {
    type Model;

    spec fn model(&self) -> Self::Model;

    /// The commands the widget paints in state `m`.
    spec fn paint(m: Self::Model) -> Seq<DrawCmd>;

    /// Whether a widget in state `m` consumes `e`.
    spec fn consumes(m: Self::Model, e: Event) -> bool;

    /// The state of a widget in state `m` once it has received `e`.
    spec fn after_event(m: Self::Model, e: Event) -> Self::Model;

    /// The state of a widget in state `m` once it has been assigned `r`.
    spec fn laid_out(m: Self::Model, r: Rect) -> Self::Model;

    /// Paints the widget's current state onto the canvas, after what it holds.
    fn draw(&self, canvas: &mut Canvas)
        ensures
            final(canvas)@ == old(canvas)@ + Self::paint(self.model()),
    ;

    /// Receives an event and says whether it was consumed.
    fn on_event(&mut self, event: &Event) -> (consumed: bool)
        ensures
            consumed == Self::consumes(old(self).model(), *event),
            final(self).model() == Self::after_event(old(self).model(), *event),
    ;

    /// Assigns the rectangle the widget occupies, in absolute device pixels.
    fn layout(&mut self, rect: Rect)
        ensures
            final(self).model() == Self::laid_out(old(self).model(), rect),
    ;

    /// Laying out twice in the same rectangle is laying out once.
    proof fn lemma_layout_idempotent(m: Self::Model, r: Rect)
        ensures
            Self::laid_out(Self::laid_out(m, r), r) == Self::laid_out(m, r),
    ;
}

pub open spec fn button_face(pressed: bool) -> Color {
    if pressed {
        Color::opaque(180, 180, 180)
    } else {
        Color::opaque(230, 230, 230)
    }
}

pub open spec fn button_border() -> Color {
    Color::opaque(160, 160, 160)
}

/// A push button: pressed while a press that began on it is held, and
/// counting the clicks released over it.
#[derive(Debug, Clone, Copy, PartialEq, Eq, Structural)]
pub struct Button {
    pub rect: Rect,
    pub pressed: bool,
    pub clicks: u64,
}

impl Button {
    /// A button at rest in `rect`.
    pub fn new(rect: Rect) -> (b: Button)
        ensures
            b == (Button { rect, pressed: false, clicks: 0 }),
    {
        Button { rect, pressed: false, clicks: 0 }
    }
}

impl Widget for Button {
    type Model = Button;

    open spec fn model(&self) -> Button {
        *self
    }

    open spec fn paint(m: Button) -> Seq<DrawCmd> {
        seq![
            DrawCmd::FillRect { rect: m.rect, color: button_face(m.pressed) },
            DrawCmd::StrokeRect { rect: m.rect, color: button_border() },
        ]
    }

    open spec fn consumes(m: Button, e: Event) -> bool {
        match e {
            Event::MouseDown { x, y, .. } => m.rect.holds(x as int, y as int),
            Event::MouseUp { .. } => m.pressed,
            _ => false,
        }
    }

    open spec fn after_event(m: Button, e: Event) -> Button {
        match e {
            Event::MouseDown { x, y, .. } => if m.rect.holds(x as int, y as int) {
                Button { pressed: true, ..m }
            } else {
                m
            },
            Event::MouseUp { x, y, .. } => if !m.pressed {
                m
            } else if m.rect.holds(x as int, y as int) && m.clicks < u64::MAX {
                Button { pressed: false, clicks: (m.clicks + 1) as u64, ..m }
            } else {
                Button { pressed: false, ..m }
            },
            _ => m,
        }
    }

    open spec fn laid_out(m: Button, r: Rect) -> Button {
        Button { rect: r, ..m }
    }

    fn draw(&self, canvas: &mut Canvas) {
        let face = if self.pressed {
            Color::rgb(180, 180, 180)
        } else {
            Color::rgb(230, 230, 230)
        };
        canvas.fill_rect(self.rect, face);
        canvas.stroke_rect(self.rect, Color::rgb(160, 160, 160));
        assert(canvas@ =~= old(canvas)@ + Self::paint(self.model()));
    }

    fn on_event(&mut self, event: &Event) -> (consumed: bool) {
        match *event {
            Event::MouseDown { x, y, .. } => {
                if self.rect.contains(x, y) {
                    self.pressed = true;
                    true
                } else {
                    false
                }
            },
            Event::MouseUp { x, y, .. } => {
                if !self.pressed {
                    false
                } else {
                    self.pressed = false;
                    if self.rect.contains(x, y) && self.clicks < u64::MAX {
                        self.clicks = self.clicks + 1;
                    }
                    true
                }
            },
            _ => false,
        }
    }

    fn layout(&mut self, rect: Rect) {
        self.rect = rect;
    }

    proof fn lemma_layout_idempotent(m: Button, r: Rect) {
    }
}

} // verus!
