//! A library for hexmap operations.
//!
//! Positions on a hexagonal grid are represented with the cubic coordinate
//! scheme: three signed axes `x`, `y`, `z` that always sum to zero.
use vstd::prelude::*;

verus! {

/// A hex coordinate using a cubic coordinate scheme.
///
/// All three coordinates must sum to zero; `valid` states this invariant,
/// and every constructor establishes it.
#[derive(Clone, Copy, Debug, PartialEq, Eq, PartialOrd, Ord, Structural)]
pub struct Coordinate {
    x: i64,
    y: i64,
    z: i64,
}

impl View for Coordinate {
    type V = (int, int, int);

    /// The mathematical model of a coordinate: its three components as
    /// unbounded integers.
    closed spec fn view(&self) -> (int, int, int) {
        (self.x as int, self.y as int, self.z as int)
    }
}

/// The cubic-coordinate invariant on a component triple.
pub open spec fn sum_zero(v: (int, int, int)) -> bool {
    v.0 + v.1 + v.2 == 0
}

/// The absolute value of an integer.
pub open spec fn abs_val(n: int) -> int {
    if n < 0 {
        -n
    } else {
        n
    }
}

/// The hex-grid (cube) distance between two component triples: half the sum
/// of the absolute component differences.
pub open spec fn spec_distance(a: (int, int, int), b: (int, int, int)) -> int {
    (abs_val(a.0 - b.0) + abs_val(a.1 - b.1) + abs_val(a.2 - b.2)) / 2
}

/// Component-wise sum of two component triples.
pub open spec fn spec_add(a: (int, int, int), b: (int, int, int)) -> (int, int, int) {
    (a.0 + b.0, a.1 + b.1, a.2 + b.2)
}

/// Component-wise difference of two component triples.
pub open spec fn spec_sub(a: (int, int, int), b: (int, int, int)) -> (int, int, int) {
    (a.0 - b.0, a.1 - b.1, a.2 - b.2)
}

/// The additive inverse of a component triple.
pub open spec fn spec_neg(a: (int, int, int)) -> (int, int, int) {
    (-a.0, -a.1, -a.2)
}

impl Coordinate {
    /// The defining constraint of the cubic scheme: the components sum to zero.
    pub open spec fn valid(&self) -> bool {
        sum_zero(self@)
    }

    /// Create a new Coordinate at 0, 0, 0.
    ///
    /// This returns a `Result` to match `at`, but always succeeds.
    pub fn new() -> (r: Result<Self, &'static str>)
        ensures
            r matches Ok(c) && c@ == (0int, 0int, 0int),
    {
        Ok(Coordinate { x: 0, y: 0, z: 0 })
    }

    /// Create a new Coordinate at the specified location, if that location is
    /// valid: it succeeds exactly when the components sum to zero, and the
    /// result carries those exact components.
    pub fn at(x: i64, y: i64, z: i64) -> (r: Result<Self, &'static str>)
        ensures
            x + y + z == 0 ==> (r matches Ok(c) && c@ == (x as int, y as int, z as int)),
            x + y + z != 0 ==> (r matches Err(e) && e@ == "Invalid cubic coordinates"@),
    {
        if x as i128 + y as i128 + z as i128 == 0 {
            Ok(Coordinate { x, y, z })
        } else {
            Err("Invalid cubic coordinates")
        }
    }

    /// Get the six neighbors of a given Coordinate.
    ///
    /// The order is fixed: starting from the offset `(+1, 0, -1)` the list
    /// holds `(+1, 0, -1)`, `(+1, -1, 0)`, `(0, -1, +1)`, `(0, +1, -1)`,
    /// `(-1, 0, +1)`, `(-1, +1, 0)`, each added to `self`. Every neighbor is
    /// a valid coordinate and lies at distance exactly 1 from `self`.
    pub fn neighbors(&self) -> (r: Vec<Coordinate>)
        requires
            self.valid(),
            i64::MIN < self@.0 < i64::MAX,
            i64::MIN < self@.1 < i64::MAX,
            i64::MIN < self@.2 < i64::MAX,
        ensures
            r@.len() == 6,
            r@[0]@ == (self@.0 + 1, self@.1, self@.2 - 1),
            r@[1]@ == (self@.0 + 1, self@.1 - 1, self@.2),
            r@[2]@ == (self@.0, self@.1 - 1, self@.2 + 1),
            r@[3]@ == (self@.0, self@.1 + 1, self@.2 - 1),
            r@[4]@ == (self@.0 - 1, self@.1, self@.2 + 1),
            r@[5]@ == (self@.0 - 1, self@.1 + 1, self@.2),
            forall|i: int| 0 <= i < 6 ==> (#[trigger] r@[i]).valid(),
            forall|i: int| 0 <= i < 6 ==> spec_distance(self@, (#[trigger] r@[i])@) == 1,
    {
        let r = vec![
            Coordinate::at(self.x + 1, self.y, self.z - 1).unwrap(),
            Coordinate::at(self.x + 1, self.y - 1, self.z).unwrap(),
            Coordinate::at(self.x, self.y - 1, self.z + 1).unwrap(),
            Coordinate::at(self.x, self.y + 1, self.z - 1).unwrap(),
            Coordinate::at(self.x - 1, self.y, self.z + 1).unwrap(),
            Coordinate::at(self.x - 1, self.y + 1, self.z).unwrap(),
        ];
        r
    }

    /// Get the distance between two coordinates, in grid tiles: half the sum
    /// of the absolute component differences.
    pub fn distance_to(&self, other: Coordinate) -> (r: i64)
        requires
            spec_distance(self@, other@) <= i64::MAX,
        ensures
            r as int == spec_distance(self@, other@),
            r >= 0,
    {
        let dx: i128 = self.x as i128 - other.x as i128;
        let dy: i128 = self.y as i128 - other.y as i128;
        let dz: i128 = self.z as i128 - other.z as i128;
        let ax: u128 = if dx < 0 { (-dx) as u128 } else { dx as u128 };
        let ay: u128 = if dy < 0 { (-dy) as u128 } else { dy as u128 };
        let az: u128 = if dz < 0 { (-dz) as u128 } else { dz as u128 };
        ((ax + ay + az) / 2) as i64
    }

    /// Component-wise sum. The sum of two valid coordinates is itself valid,
    /// so no validation is needed or performed.
    pub fn add(self, other: Coordinate) -> (r: Coordinate)
        requires
            i64::MIN <= self@.0 + other@.0 <= i64::MAX,
            i64::MIN <= self@.1 + other@.1 <= i64::MAX,
            i64::MIN <= self@.2 + other@.2 <= i64::MAX,
        ensures
            r@ == spec_add(self@, other@),
            self.valid() && other.valid() ==> r.valid(),
    {
        Coordinate { x: self.x + other.x, y: self.y + other.y, z: self.z + other.z }
    }

    /// Component-wise difference. The difference of two valid coordinates is
    /// itself valid, so no validation is needed or performed.
    pub fn sub(self, other: Coordinate) -> (r: Coordinate)
        requires
            i64::MIN <= self@.0 - other@.0 <= i64::MAX,
            i64::MIN <= self@.1 - other@.1 <= i64::MAX,
            i64::MIN <= self@.2 - other@.2 <= i64::MAX,
        ensures
            r@ == spec_sub(self@, other@),
            self.valid() && other.valid() ==> r.valid(),
    {
        Coordinate { x: self.x - other.x, y: self.y - other.y, z: self.z - other.z }
    }

    /// The `x` component.
    pub fn x(&self) -> (r: i64)
        ensures
            r as int == self@.0,
    {
        self.x
    }

    /// The `y` component.
    pub fn y(&self) -> (r: i64)
        ensures
            r as int == self@.1,
    {
        self.y
    }

    /// The `z` component.
    pub fn z(&self) -> (r: i64)
        ensures
            r as int == self@.2,
    {
        self.z
    }
}

/// Equality of coordinates is structural: two coordinates are equal exactly
/// when their component triples are equal.
pub proof fn lemma_eq_is_component_eq(a: Coordinate, b: Coordinate)
    ensures
        a == b <==> a@ == b@,
{
    if a@ == b@ {
        assert(a.x == b.x && a.y == b.y && a.z == b.z);
        assert(a == b);
    }
}

/// When three differences sum to zero, the sum of their absolute values is
/// even: it equals twice the sum of the positive parts.
proof fn lemma_abs_sum_even(dx: int, dy: int, dz: int)
    requires
        dx + dy + dz == 0,
    ensures
        abs_val(dx) + abs_val(dy) + abs_val(dz) == 2 * ((abs_val(dx) + abs_val(dy) + abs_val(dz)) / 2),
{
    let px: int = if dx >= 0 { dx } else { 0 };
    let py: int = if dy >= 0 { dy } else { 0 };
    let pz: int = if dz >= 0 { dz } else { 0 };
    assert(abs_val(dx) + abs_val(dy) + abs_val(dz) == 2 * (px + py + pz));
}

/// Distance is symmetric.
pub proof fn lemma_distance_symmetric(a: Coordinate, b: Coordinate)
    ensures
        spec_distance(a@, b@) == spec_distance(b@, a@),
{
}

/// Distance is zero exactly when the two coordinates are identical.
pub proof fn lemma_distance_zero_iff_eq(a: Coordinate, b: Coordinate)
    requires
        a.valid(),
        b.valid(),
    ensures
        spec_distance(a@, b@) == 0 <==> a == b,
{
    let dx: int = a@.0 - b@.0;
    let dy: int = a@.1 - b@.1;
    let dz: int = a@.2 - b@.2;
    lemma_abs_sum_even(dx, dy, dz);
    if spec_distance(a@, b@) == 0 {
        assert(abs_val(dx) + abs_val(dy) + abs_val(dz) == 0);
        assert(a.x == b.x && a.y == b.y && a.z == b.z);
        assert(a == b);
    }
}

/// Distance obeys the triangle inequality.
pub proof fn lemma_distance_triangle(a: Coordinate, b: Coordinate, c: Coordinate)
    requires
        a.valid(),
        b.valid(),
        c.valid(),
    ensures
        spec_distance(a@, c@) <= spec_distance(a@, b@) + spec_distance(b@, c@),
{
    let sab: int = abs_val(a@.0 - b@.0) + abs_val(a@.1 - b@.1) + abs_val(a@.2 - b@.2);
    let sbc: int = abs_val(b@.0 - c@.0) + abs_val(b@.1 - c@.1) + abs_val(b@.2 - c@.2);
    let sac: int = abs_val(a@.0 - c@.0) + abs_val(a@.1 - c@.1) + abs_val(a@.2 - c@.2);
    lemma_abs_sum_even(a@.0 - b@.0, a@.1 - b@.1, a@.2 - b@.2);
    lemma_abs_sum_even(b@.0 - c@.0, b@.1 - c@.1, b@.2 - c@.2);
    lemma_abs_sum_even(a@.0 - c@.0, a@.1 - c@.1, a@.2 - c@.2);
    assert(sac <= sab + sbc);
}

/// Adding a coordinate and then subtracting it again returns to the start:
/// if `s` is `a + b` and `d` is `s - b`, then `d` is `a`.
pub proof fn lemma_add_sub_round_trip(a: Coordinate, b: Coordinate, s: Coordinate, d: Coordinate)
    requires
        s@ == spec_add(a@, b@),
        d@ == spec_sub(s@, b@),
    ensures
        d == a,
{
    assert(d.x == a.x && d.y == a.y && d.z == a.z);
}

/// Addition of coordinates is commutative.
pub proof fn lemma_add_commutative(a: Coordinate, b: Coordinate)
    ensures
        spec_add(a@, b@) == spec_add(b@, a@),
{
}

/// Addition of coordinates is associative.
pub proof fn lemma_add_associative(a: Coordinate, b: Coordinate, c: Coordinate)
    ensures
        spec_add(spec_add(a@, b@), c@) == spec_add(a@, spec_add(b@, c@)),
{
}

/// Subtraction is addition of the additive inverse, and the additive inverse
/// really is one: a triple plus its inverse is the origin's triple.
pub proof fn lemma_sub_is_add_neg(a: Coordinate, b: Coordinate)
    ensures
        spec_sub(a@, b@) == spec_add(a@, spec_neg(b@)),
        spec_add(b@, spec_neg(b@)) == (0int, 0int, 0int),
{
}

} // verus!
