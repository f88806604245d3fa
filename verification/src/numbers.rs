use vstd::prelude::*;

verus! {

/// A pair of integers: a screen position, a screen size, or a per-platform
/// offset applied to the cursor.
#[derive(Clone, Copy, Debug, PartialEq, Eq, Structural)]
pub struct TwoInts {
    pub x: i32,
    pub y: i32,
}

impl TwoInts {
    pub fn new(x: i32, y: i32) -> (r: Self)
        ensures
            r == (TwoInts { x, y }),
    {
        Self { x, y }
    }

    pub fn x(&self) -> (r: i32)
        ensures
            r == self.x,
    {
        self.x
    }

    pub fn y(&self) -> (r: i32)
        ensures
            r == self.y,
    {
        self.y
    }

    /// Componentwise sum; this is how a platform offset is applied to a raw
    /// cursor position.
    pub fn plus(self, rhs: Self) -> (r: Self)
        requires
            i32::MIN <= self.x + rhs.x <= i32::MAX,
            i32::MIN <= self.y + rhs.y <= i32::MAX,
        ensures
            r == (TwoInts { x: (self.x + rhs.x) as i32, y: (self.y + rhs.y) as i32 }),
    {
        Self { x: self.x + rhs.x, y: self.y + rhs.y }
    }
}

impl Default for TwoInts {
    /// The zero offset.
    fn default() -> (r: Self)
        ensures
            r == (TwoInts { x: 0, y: 0 }),
    {
        Self { x: 0, y: 0 }
    }
}

impl From<(i32, i32)> for TwoInts {
    fn from(value: (i32, i32)) -> (r: Self)
        ensures
            r == (TwoInts { x: value.0, y: value.1 }),
    {
        Self { x: value.0, y: value.1 }
    }
}

impl vstd::std_specs::convert::FromSpecImpl<(i32, i32)> for TwoInts {
    open spec fn obeys_from_spec() -> bool {
        true
    }

    open spec fn from_spec(value: (i32, i32)) -> Self {
        TwoInts { x: value.0, y: value.1 }
    }
}

} // verus!
