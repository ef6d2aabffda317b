use vstd::prelude::*;

verus! {

/// An axis-aligned box in map space, in sub-units.
#[derive(Clone, Copy, Debug, PartialEq, Eq, Structural)]
pub struct Rectangle {
    pub x: i64,
    pub y: i64,
    pub width: i64,
    pub height: i64,
}

impl Rectangle {
    pub open spec fn left_spec(self) -> int {
        self.x as int
    }

    pub open spec fn right_spec(self) -> int {
        self.x + self.width
    }

    pub open spec fn top_spec(self) -> int {
        self.y as int
    }

    pub open spec fn bottom_spec(self) -> int {
        self.y + self.height
    }

    /// Two boxes overlap when their extents meet on both axes (touching
    /// edges count as overlap).
    pub open spec fn overlaps(self, other: Rectangle) -> bool {
        &&& self.right_spec() >= other.left_spec()
        &&& self.left_spec() <= other.right_spec()
        &&& self.top_spec() <= other.bottom_spec()
        &&& self.bottom_spec() >= other.top_spec()
    }

    pub fn left(&self) -> (r: i64)
        ensures
            r == self.left_spec(),
    {
        self.x
    }

    pub fn right(&self) -> (r: i64)
        requires
            i64::MIN <= self.right_spec() <= i64::MAX,
        ensures
            r == self.right_spec(),
    {
        self.x + self.width
    }

    pub fn top(&self) -> (r: i64)
        ensures
            r == self.top_spec(),
    {
        self.y
    }

    pub fn bottom(&self) -> (r: i64)
        requires
            i64::MIN <= self.bottom_spec() <= i64::MAX,
        ensures
            r == self.bottom_spec(),
    {
        self.y + self.height
    }

    pub fn width(&self) -> (r: i64)
        ensures
            r == self.width,
    {
        self.width
    }

    pub fn height(&self) -> (r: i64)
        ensures
            r == self.height,
    {
        self.height
    }

    /// Whether the two boxes overlap.
    pub fn collides_with(&self, other: &Rectangle) -> (r: bool)
        ensures
            r == self.overlaps(*other),
    {
        let self_right = self.x as i128 + self.width as i128;
        let self_bottom = self.y as i128 + self.height as i128;
        let other_right = other.x as i128 + other.width as i128;
        let other_bottom = other.y as i128 + other.height as i128;
        self_right >= other.x as i128 && (self.x as i128) <= other_right && (self.y as i128)
            <= other_bottom && self_bottom >= other.y as i128
    }

    /// The overlap test used against the player's box; kept as its own entry
    /// point so that call sites that concern the player stay distinct.
    pub fn collides_with_player(&self, player: &Rectangle) -> (r: bool)
        ensures
            r == self.overlaps(*player),
    {
        self.collides_with(player)
    }
}

} // verus!
