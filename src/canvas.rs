//! A recording canvas: widgets paint into a list of drawing commands, which a
//! backend then replays onto its GPU surface.
use vstd::prelude::*;

verus! {

/// An RGBA color.
#[derive(Debug, Clone, Copy, PartialEq, Eq, Structural)]
pub struct Color {
    pub r: u8,
    pub g: u8,
    pub b: u8,
    pub a: u8,
}

impl Color {
    pub open spec fn opaque(r: u8, g: u8, b: u8) -> Color {
        Color { r, g, b, a: 255 }
    }

    /// An opaque color from its red, green and blue parts.
    pub fn rgb(r: u8, g: u8, b: u8) -> (c: Color)
        ensures
            c == Color::opaque(r, g, b),
    {
        Color { r, g, b, a: 255 }
    }
}

/// An axis-aligned rectangle in device pixels: `x` and `y` are its top-left corner.
#[derive(Debug, Clone, Copy, PartialEq, Eq, Structural)]
pub struct Rect {
    pub x: i32,
    pub y: i32,
    pub width: u32,
    pub height: u32,
}

impl Rect {
    /// Whether the point lies inside the rectangle (left and top edges included).
    pub open spec fn holds(self, px: int, py: int) -> bool {
        self.x <= px < self.x + self.width && self.y <= py < self.y + self.height
    }

    /// Whether the point `(px, py)` lies inside the rectangle.
    pub fn contains(&self, px: i32, py: i32) -> (r: bool)
        ensures
            r == self.holds(px as int, py as int),
    {
        let px = px as i64;
        let py = py as i64;
        let x = self.x as i64;
        let y = self.y as i64;
        x <= px && px < x + self.width as i64 && y <= py && py < y + self.height as i64
    }
}

/// One drawing command.
#[derive(Debug, Clone, Copy, PartialEq, Eq, Structural)]
pub enum DrawCmd {
    /// Fill the whole surface with one color.
    Clear(Color),
    FillRect { rect: Rect, color: Color },
    /// Outline a rectangle with a one-pixel stroke.
    StrokeRect { rect: Rect, color: Color },
}

/// A drawing surface that records the commands painted onto it, in order.
pub struct Canvas {
    cmds: Vec<DrawCmd>,
}

impl View for Canvas {
    type V = Seq<DrawCmd>;

    closed spec fn view(&self) -> Seq<DrawCmd> {
        self.cmds@
    }
}

impl Canvas {
    /// An empty canvas.
    pub fn new() -> (c: Canvas)
        ensures
            c@ == Seq::<DrawCmd>::empty(),
    {
        Canvas { cmds: Vec::new() }
    }

    /// Drops everything painted so far and fills the surface with `color`.
    pub fn clear(&mut self, color: Color)
        ensures
            final(self)@ == seq![DrawCmd::Clear(color)],
    {
        self.cmds = Vec::new();
        self.cmds.push(DrawCmd::Clear(color));
    }

    pub fn fill_rect(&mut self, rect: Rect, color: Color)
        ensures
            final(self)@ == old(self)@.push(DrawCmd::FillRect { rect, color }),
    {
        self.cmds.push(DrawCmd::FillRect { rect, color });
    }

    pub fn stroke_rect(&mut self, rect: Rect, color: Color)
        ensures
            final(self)@ == old(self)@.push(DrawCmd::StrokeRect { rect, color }),
    {
        self.cmds.push(DrawCmd::StrokeRect { rect, color });
    }

    /// The commands painted so far, in order.
    pub fn commands(&self) -> (r: &Vec<DrawCmd>)
        ensures
            r@ == self@,
    {
        &self.cmds
    }
}

} // verus!
