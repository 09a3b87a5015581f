use vstd::prelude::*;

verus! {

/// A position in the game world, in hundredths of a pixel.
#[derive(PartialEq, Eq, Structural, Clone, Copy, Debug)]
pub struct Point {
    pub x: i32,
    pub y: i32,
}

/// A place or an extent on the screen, in hundredths of a pixel. It is wider
/// than [`Point`] so that offsets from any world position fit.
#[derive(PartialEq, Eq, Structural, Clone, Copy, Debug)]
pub struct ScreenPoint {
    pub x: i64,
    pub y: i64,
}

/// Square of the Euclidean distance between two positions.
pub open spec fn distance_squared(a: Point, b: Point) -> int {
    (a.x - b.x) * (a.x - b.x) + (a.y - b.y) * (a.y - b.y)
}

/// Whether two positions are less than `radius` apart. Distances are not
/// negative, so this compares the squares.
pub open spec fn closer_than(a: Point, b: Point, radius: int) -> bool {
    distance_squared(a, b) < radius * radius
}

impl Point {
    /// The same position as a place on the screen.
    pub open spec fn on_screen(self) -> ScreenPoint {
        ScreenPoint { x: self.x as i64, y: self.y as i64 }
    }

    /// The same position as a place on the screen.
    pub fn to_screen(&self) -> (spot: ScreenPoint)
        ensures
            spot == self.on_screen(),
    {
        ScreenPoint { x: self.x as i64, y: self.y as i64 }
    }

    /// Tells whether `other` lies less than `radius` away.
    pub fn is_within(&self, other: &Point, radius: u32) -> (near: bool)
        ensures
            near == closer_than(*self, *other, radius as int),
    {
        let reach: u128 = radius as u128;
        let dx: u128 = gap(self.x, other.x);
        let dy: u128 = gap(self.y, other.y);
        proof {
            lemma_square_grows(dx as int, 0x1_0000_0000);
            lemma_square_grows(dy as int, 0x1_0000_0000);
            lemma_square_grows(reach as int, 0x1_0000_0000);
        }
        dx * dx + dy * dy < reach * reach
    }
}

/// Distance between two coordinates on one axis.
fn gap(a: i32, b: i32) -> (d: u128)
    ensures
        d < 0x1_0000_0000,
        d * d == (a - b) * (a - b),
{
    let wide_a: i64 = a as i64;
    let wide_b: i64 = b as i64;
    let d: i64 = if wide_a >= wide_b { wide_a - wide_b } else { wide_b - wide_a };
    proof {
        assert((b - a) * (b - a) == (a - b) * (a - b)) by (nonlinear_arith);
    }
    d as u128
}

/// Squaring keeps the order of numbers that are not negative.
proof fn lemma_square_grows(small: int, large: int)
    requires
        0 <= small <= large,
    ensures
        small * small <= large * large,
{
    assert(small * small <= large * large) by (nonlinear_arith)
        requires
            0 <= small <= large,
    ;
}

} // verus!
