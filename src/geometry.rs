use vstd::prelude::*;

verus! {

/// A rectangle on screen: a signed origin and an unsigned extent.
#[derive(Debug, Clone, Copy, PartialEq, Eq, Structural)]
pub struct Rectangle {
    pub x: i16,
    pub y: i16,
    pub width: u16,
    pub height: u16,
}

impl Rectangle {
    /// Whether growing by `dw` on the left and right and by `dh` on the top
    /// and bottom keeps every field within its type.
    pub open spec fn inflate_fits(self, dw: int, dh: int) -> bool {
        &&& i16::MIN <= self.x - dw <= i16::MAX
        &&& i16::MIN <= self.y - dh <= i16::MAX
        &&& 0 <= self.width + 2 * dw <= u16::MAX
        &&& 0 <= self.height + 2 * dh <= u16::MAX
    }

    /// The rectangle grown by `dw` on the left and right and by `dh` on the
    /// top and bottom (shrunk where they are negative).
    pub open spec fn inflated(self, dw: int, dh: int) -> Rectangle {
        Rectangle {
            x: (self.x - dw) as i16,
            y: (self.y - dh) as i16,
            width: (self.width + 2 * dw) as u16,
            height: (self.height + 2 * dh) as u16,
        }
    }

    /// Creates a new [`Rectangle`].
    pub fn new(x: i16, y: i16, width: u16, height: u16) -> (r: Self)
        ensures
            r == (Rectangle { x, y, width, height }),
    {
        Self { x, y, width, height }
    }

    pub fn left(&self) -> (r: i16)
        ensures
            r == self.x,
    {
        self.x
    }

    pub fn top(&self) -> (r: i16)
        ensures
            r == self.y,
    {
        self.y
    }

    pub fn right(&self) -> (r: i16)
        requires
            self.x + self.width <= i16::MAX,
        ensures
            r == self.x + self.width,
    {
        (self.x as i32 + self.width as i32) as i16
    }

    pub fn bottom(&self) -> (r: i16)
        requires
            self.y + self.height <= i16::MAX,
        ensures
            r == self.y + self.height,
    {
        (self.y as i32 + self.height as i32) as i16
    }

    /// Inflates this [`Rectangle`] by the specified amount: the origin moves
    /// by `(-width, -height)` and the extent grows by twice that amount.
    pub fn inflate(&mut self, width: i16, height: i16)
        requires
            old(self).inflate_fits(width as int, height as int),
        ensures
            *final(self) == old(self).inflated(width as int, height as int),
    {
        self.x = (self.x as i32 - width as i32) as i16;
        self.y = (self.y as i32 - height as i32) as i16;
        self.width = (self.width as i32 + 2 * width as i32) as u16;
        self.height = (self.height as i32 + 2 * height as i32) as u16;
    }

    /// Deflates this [`Rectangle`] by the specified amount: inflating by the
    /// negated amount.
    pub fn deflate(&mut self, width: i16, height: i16)
        requires
            old(self).inflate_fits(-width, -height),
        ensures
            *final(self) == old(self).inflated(-width, -height),
    {
        self.inflate(-width, -height);
    }
}

/// Deflating a rectangle and then inflating the result by the same amount
/// gives back the rectangle.
pub proof fn deflate_then_inflate(r: Rectangle, dw: i16, dh: i16)
    requires
        r.inflate_fits(-dw, -dh),
    ensures
        r.inflated(-dw, -dh).inflate_fits(dw as int, dh as int),
        r.inflated(-dw, -dh).inflated(dw as int, dh as int) == r,
{
}

} // verus!
