use vstd::prelude::*;

verus! {

/// An axis-aligned rectangle; `x` and `y` are relative to the top left of
/// the screen. Layout arithmetic on rectangles is 32-bit two's complement
/// and wraps on overflow.
#[derive(Clone, Copy, Debug, PartialEq, Eq, Structural)]
pub struct Rect {
    pub x: i32,
    pub y: i32,
    pub width: i32,
    pub height: i32,
}

/// Wrapping 32-bit addition.
pub open spec fn wadd(a: i32, b: i32) -> i32 {
    a.wrapping_add(b)
}

/// Wrapping 32-bit subtraction.
pub open spec fn wsub(a: i32, b: i32) -> i32 {
    a.wrapping_sub(b)
}

/// Wrapping doubling.
pub open spec fn wdouble(a: i32) -> i32 {
    wadd(a, a)
}

/// Half of a value, rounded toward zero.
pub open spec fn half(v: i32) -> i32 {
    if v >= 0 {
        (v / 2) as i32
    } else {
        (-((-v) / 2)) as i32
    }
}

pub open spec fn rect(x: i32, y: i32, width: i32, height: i32) -> Rect {
    Rect { x, y, width, height }
}

/// `r` shrunk by `gaps` on every side.
pub open spec fn shrunk(r: Rect, gaps: i32) -> Rect {
    Rect {
        x: wadd(r.x, gaps),
        y: wadd(r.y, gaps),
        width: wsub(r.width, wdouble(gaps)),
        height: wsub(r.height, wdouble(gaps)),
    }
}

/// `r` with every field moved by the matching field of `d`.
pub open spec fn offset_by(r: Rect, d: Rect) -> Rect {
    Rect {
        x: wadd(r.x, d.x),
        y: wadd(r.y, d.y),
        width: wadd(r.width, d.width),
        height: wadd(r.height, d.height),
    }
}

/// Rounds toward zero, as `/ 2` does on `i32`.
pub fn halve(v: i32) -> (r: i32)
    ensures
        r == half(v),
{
    if v >= 0 {
        v / 2
    } else {
        let w: i64 = -(v as i64);
        let h: i64 = w / 2;
        (-h) as i32
    }
}

impl Rect {
    /// Whether the point lies in the rectangle, edges included.
    pub open spec fn spec_contains_point(self, px: int, py: int) -> bool {
        &&& self.x <= px <= self.x + self.width
        &&& self.y <= py <= self.y + self.height
    }

    pub fn contains_point(self, point: (i32, i32)) -> (r: bool)
        ensures
            r == self.spec_contains_point(point.0 as int, point.1 as int),
    {
        let px = point.0 as i64;
        let py = point.1 as i64;
        px >= self.x as i64 && px <= self.x as i64 + self.width as i64 && py >= self.y as i64
            && py <= self.y as i64 + self.height as i64
    }

    pub fn zero() -> (r: Self)
        ensures
            r == rect(0, 0, 0, 0),
    {
        Rect { x: 0, y: 0, width: 0, height: 0 }
    }

    /// Grows the rectangle to cover an invisible window border of the given
    /// horizontal and vertical thickness.
    pub fn adjust_for_border(&mut self, border: (i32, i32))
        requires
            i32::MIN <= old(self).x - border.0 <= i32::MAX,
            i32::MIN <= old(self).width + border.0 * 2 <= i32::MAX,
            i32::MIN <= old(self).height + border.1 <= i32::MAX,
        ensures
            final(self).x == old(self).x - border.0,
            final(self).y == old(self).y,
            final(self).width == old(self).width + border.0 * 2,
            final(self).height == old(self).height + border.1,
    {
        self.x = self.x - border.0;
        self.width = (self.width as i64 + border.0 as i64 * 2) as i32;
        self.height = self.height + border.1;
    }

    /// The rectangle shrunk by `gaps` on every side.
    pub fn shrink(self, gaps: i32) -> (r: Rect)
        ensures
            r == shrunk(self, gaps),
    {
        Rect {
            x: self.x.wrapping_add(gaps),
            y: self.y.wrapping_add(gaps),
            width: self.width.wrapping_sub(gaps.wrapping_add(gaps)),
            height: self.height.wrapping_sub(gaps.wrapping_add(gaps)),
        }
    }

    /// The rectangle moved and resized by the delta `d`.
    pub fn offset(self, d: Rect) -> (r: Rect)
        ensures
            r == offset_by(self, d),
    {
        Rect {
            x: self.x.wrapping_add(d.x),
            y: self.y.wrapping_add(d.y),
            width: self.width.wrapping_add(d.width),
            height: self.height.wrapping_add(d.height),
        }
    }
}

} // verus!
