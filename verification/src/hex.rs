//! Axial coordinates on the hexagonal board, the six directions, and the
//! distance between two cells.
use vstd::prelude::*;

verus! {

/// The six directions in which one cell borders another.
#[derive(Clone, Copy, Debug, PartialEq, Eq, Structural)]
pub enum Direction {
    NorthEast,
    East,
    SouthEast,
    SouthWest,
    West,
    NorthWest,
}

impl Direction {
    /// The change of the `x` coordinate when stepping once in this direction.
    pub open spec fn dx(self) -> int {
        match self {
            Direction::NorthEast => 1,
            Direction::East => 0,
            Direction::SouthEast => -1,
            Direction::SouthWest => -1,
            Direction::West => 0,
            Direction::NorthWest => 1,
        }
    }

    /// The change of the `y` coordinate when stepping once in this direction.
    pub open spec fn dy(self) -> int {
        match self {
            Direction::NorthEast => -1,
            Direction::East => -1,
            Direction::SouthEast => 0,
            Direction::SouthWest => 1,
            Direction::West => 1,
            Direction::NorthWest => 0,
        }
    }

    /// The next direction when turning clockwise.
    pub open spec fn clockwise(self) -> Direction {
        match self {
            Direction::NorthEast => Direction::East,
            Direction::East => Direction::SouthEast,
            Direction::SouthEast => Direction::SouthWest,
            Direction::SouthWest => Direction::West,
            Direction::West => Direction::NorthWest,
            Direction::NorthWest => Direction::NorthEast,
        }
    }

    /// The next direction when turning counter-clockwise.
    pub open spec fn counter_clockwise(self) -> Direction {
        match self {
            Direction::NorthEast => Direction::NorthWest,
            Direction::East => Direction::NorthEast,
            Direction::SouthEast => Direction::East,
            Direction::SouthWest => Direction::SouthEast,
            Direction::West => Direction::SouthWest,
            Direction::NorthWest => Direction::West,
        }
    }

    /// The direction that leads back.
    pub open spec fn opposite(self) -> Direction {
        match self {
            Direction::NorthEast => Direction::SouthWest,
            Direction::East => Direction::West,
            Direction::SouthEast => Direction::NorthWest,
            Direction::SouthWest => Direction::NorthEast,
            Direction::West => Direction::East,
            Direction::NorthWest => Direction::SouthEast,
        }
    }

    /// The direction that a rotation index names, where it names one.
    pub open spec fn spec_from_rotation(hex_rotation: int) -> Option<Direction> {
        if hex_rotation == 0 {
            Some(Direction::East)
        } else if hex_rotation == 1 {
            Some(Direction::SouthEast)
        } else if hex_rotation == 2 {
            Some(Direction::SouthWest)
        } else if hex_rotation == 3 {
            Some(Direction::West)
        } else if hex_rotation == 4 {
            Some(Direction::NorthWest)
        } else if hex_rotation == 5 {
            Some(Direction::NorthEast)
        } else {
            None
        }
    }

    /// The changes of the `x` and of the `y` coordinate when stepping once
    /// in this direction.
    pub fn offsets(&self) -> (offsets: (i64, i64))
        ensures
            offsets.0 == self.dx(),
            offsets.1 == self.dy(),
    {
        match self {
            Direction::NorthEast => (1, -1),
            Direction::East => (0, -1),
            Direction::SouthEast => (-1, 0),
            Direction::SouthWest => (-1, 1),
            Direction::West => (0, 1),
            Direction::NorthWest => (1, 0),
        }
    }

    /// Maps a rotation index in `0..=5` to its direction.
    pub fn hex_rotation_to_direction(hex_rotation: i32) -> (direction: Direction)
        requires
            0 <= hex_rotation <= 5,
        ensures
            Direction::spec_from_rotation(hex_rotation as int) == Some(direction),
    {
        match hex_rotation {
            0 => Direction::East,
            1 => Direction::SouthEast,
            2 => Direction::SouthWest,
            3 => Direction::West,
            4 => Direction::NorthWest,
            _ => Direction::NorthEast,
        }
    }

    /// Maps a rotation index to its direction, or to `None` outside `0..=5`.
    pub fn try_from_rotation(hex_rotation: i32) -> (direction: Option<Direction>)
        ensures
            direction == Direction::spec_from_rotation(hex_rotation as int),
    {
        if 0 <= hex_rotation && hex_rotation <= 5 {
            Some(Direction::hex_rotation_to_direction(hex_rotation))
        } else {
            None
        }
    }
}

/// A cell of the board in axial coordinates. Whether the coordinates are
/// relative to a retainer (local) or absolute (world) is said by the name of
/// the field or parameter that holds the vector.
#[derive(Clone, Copy, Debug, PartialEq, Eq, Structural)]
pub struct HexVector {
    pub y: i32,
    pub x: i32,
}

/// The absolute value of an integer.
pub open spec fn abs(v: int) -> int {
    if v < 0 {
        -v
    } else {
        v
    }
}

/// The larger of two integers.
pub open spec fn max(a: int, b: int) -> int {
    if a < b {
        b
    } else {
        a
    }
}

/// Whether an integer is a value of `i32`.
pub open spec fn fits_i32(v: int) -> bool {
    i32::MIN <= v <= i32::MAX
}

/// The distance between two cells given by their integer coordinates:
/// `|dx| + max(0, |dy| - |dx|)`.
pub open spec fn spec_distance(ax: int, ay: int, bx: int, by: int) -> int {
    abs(ax - bx) + max(0, abs(ay - by) - abs(ax - bx))
}

impl HexVector {
    pub fn new(x: i32, y: i32) -> (v: HexVector)
        ensures
            v.x == x,
            v.y == y,
    {
        HexVector { x, y }
    }

    /// The `x` coordinate after `amount` steps in `direction`.
    pub open spec fn stepped_x(self, direction: Direction, amount: int) -> int {
        self.x + direction.dx() * amount
    }

    /// The `y` coordinate after `amount` steps in `direction`.
    pub open spec fn stepped_y(self, direction: Direction, amount: int) -> int {
        self.y + direction.dy() * amount
    }

    /// The distance from this cell to `to`.
    pub open spec fn distance_to(self, to: HexVector) -> int {
        spec_distance(self.x as int, self.y as int, to.x as int, to.y as int)
    }

    /// Adds two vectors coordinate by coordinate.
    pub fn add(&self, other: &HexVector) -> (sum: HexVector)
        requires
            fits_i32(self.x + other.x),
            fits_i32(self.y + other.y),
        ensures
            sum.x == self.x + other.x,
            sum.y == self.y + other.y,
    {
        HexVector { y: self.y + other.y, x: self.x + other.x }
    }

    /// Adds two vectors, or returns `None` where a coordinate of the sum is
    /// not a value of `i32`.
    pub fn checked_add(&self, other: &HexVector) -> (sum: Option<HexVector>)
        ensures
            sum is Some <==> fits_i32(self.x + other.x) && fits_i32(self.y + other.y),
            sum matches Some(v) ==> v.x == self.x + other.x && v.y == self.y + other.y,
    {
        let x: i64 = self.x as i64 + other.x as i64;
        let y: i64 = self.y as i64 + other.y as i64;
        if x < i32::MIN as i64 || x > i32::MAX as i64 || y < i32::MIN as i64 || y
            > i32::MAX as i64 {
            None
        } else {
            Some(HexVector { y: y as i32, x: x as i32 })
        }
    }

    /// The cell reached from this one by `amount` steps in `direction`.
    pub fn hex_vector_in_distance(&self, direction: &Direction, amount: i32) -> (v: HexVector)
        requires
            fits_i32(self.stepped_x(*direction, amount as int)),
            fits_i32(self.stepped_y(*direction, amount as int)),
        ensures
            v.x == self.stepped_x(*direction, amount as int),
            v.y == self.stepped_y(*direction, amount as int),
    {
        match direction {
            Direction::NorthEast => HexVector::new(self.x + amount, self.y - amount),
            Direction::East => HexVector::new(self.x, self.y - amount),
            Direction::SouthEast => HexVector::new(self.x - amount, self.y),
            Direction::SouthWest => HexVector::new(self.x - amount, self.y + amount),
            Direction::West => HexVector::new(self.x, self.y + amount),
            Direction::NorthWest => HexVector::new(self.x + amount, self.y),
        }
    }

    /// The cell that borders this one in `direction`.
    pub fn neighbor(&self, direction: &Direction) -> (v: HexVector)
        requires
            fits_i32(self.stepped_x(*direction, 1)),
            fits_i32(self.stepped_y(*direction, 1)),
        ensures
            v.x == self.stepped_x(*direction, 1),
            v.y == self.stepped_y(*direction, 1),
    {
        self.hex_vector_in_distance(direction, 1)
    }

    /// The distance between two cells given in world coordinates.
    pub fn distance(&self, to: &HexVector) -> (d: i32)
        requires
            fits_i32(self.distance_to(*to)),
        ensures
            d == self.distance_to(*to),
    {
        let d = self.wide_distance(to);
        d as i32
    }

    /// The distance between two cells, for any two cells: it can exceed the
    /// range of `i32` and is returned in 64 bits.
    pub fn wide_distance(&self, to: &HexVector) -> (d: i64)
        ensures
            d == self.distance_to(*to),
            0 <= d <= 0xffff_ffff,
    {
        let raw_dx: i64 = self.x as i64 - to.x as i64;
        let raw_dy: i64 = self.y as i64 - to.y as i64;
        let dx: i64 = if raw_dx < 0 { -raw_dx } else { raw_dx };
        let dy: i64 = if raw_dy < 0 { -raw_dy } else { raw_dy };
        let rest: i64 = if dy - dx > 0 { dy - dx } else { 0 };
        dx + rest
    }
}

/// The distance between two cells does not depend on which of them comes
/// first.
pub proof fn lemma_distance_symmetric(a: HexVector, b: HexVector)
    ensures
        a.distance_to(b) == b.distance_to(a),
{
}

/// A cell is at distance zero from itself.
pub proof fn lemma_distance_to_self(a: HexVector)
    ensures
        a.distance_to(a) == 0,
{
}

/// The distance is the larger of the two coordinate differences, and zero
/// only between a cell and itself.
pub proof fn lemma_distance_is_larger_difference(a: HexVector, b: HexVector)
    ensures
        a.distance_to(b) == max(abs(a.x - b.x), abs(a.y - b.y)),
        a.distance_to(b) >= 0,
        a.distance_to(b) == 0 <==> a == b,
{
}

/// Stepping in a direction and then in the opposite one leads back.
pub proof fn lemma_opposite_steps_back(direction: Direction)
    ensures
        direction.opposite().dx() == -direction.dx(),
        direction.opposite().dy() == -direction.dy(),
        direction.opposite().opposite() == direction,
{
}

/// A cell and its neighbour in any direction are at distance one.
pub proof fn lemma_neighbor_at_distance_one(a: HexVector, b: HexVector, direction: Direction)
    requires
        b.x == a.stepped_x(direction, 1),
        b.y == a.stepped_y(direction, 1),
    ensures
        a.distance_to(b) == 1,
{
}

} // verus!
