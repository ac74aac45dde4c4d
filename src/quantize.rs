//! The quantization entry point: which representable value a magnitude becomes.

use vstd::prelude::*;

use crate::policy::{above_midpoint, gap, rounding_policy_law, Quantizator};
use crate::search::{
    answers, exact_probes, placement_of, probes_consistent, search_finds_grid_point, settles,
    strictly_decreasing, CullResult, OutOfRangeError, Placement, Probe, SearchRange,
};

verus! {

/// A representable magnitude, named by its role in a grid over `[low, high]`.
#[derive(Clone, Copy, Debug, PartialEq, Eq, Structural)]
pub enum Point {
    /// Zero, the implicit representable value below the grid's floor.
    Zero,
    /// The range's lower bound.
    Low,
    /// The range's upper bound.
    High,
    /// The grid value at this index.
    Step(u32),
    /// The magnitude itself, found to lie exactly on the grid.
    Target,
}

impl Point {
    /// The point belongs to a grid of `mantissa` steps.
    pub open spec fn on_grid(self, mantissa: u32) -> bool {
        match self {
            Point::Step(i) => i <= mantissa,
            _ => true,
        }
    }
}

/// The answers that a midpoint test may give, as a relation: `above(u, l, b)`
/// when the test may answer `b` for the pair `(u, l)`.
pub open spec fn midpoint_answers<M: Fn(Point, Point) -> bool>(above_midpoint: M) -> spec_fn(
    Point,
    Point,
    bool,
) -> bool {
    |u: Point, l: Point, b: bool| above_midpoint.ensures((u, l), b)
}

/// `p` is what `quantizer` makes of the pair `(upper, lower)` for some answer
/// of the midpoint test.
pub open spec fn rounds_to(
    quantizer: Quantizator,
    upper: Point,
    lower: Point,
    above: spec_fn(Point, Point, bool) -> bool,
    p: Point,
) -> bool {
    exists|b: bool|
        #[trigger] above(upper, lower, b) && p == (if quantizer.picks_upper(b) {
            upper
        } else {
            lower
        })
}

/// `r` is a correct quantization of a magnitude with the given placement in
/// `[low, high]`, on a grid of `mantissa` steps from `high` (index 0) down to
/// `low` (index `mantissa`):
/// - below the floor, the pair `(low, 0)` is rounded;
/// - with no steps, the pair `(high, low)` is rounded;
/// - above the range, the search cannot be set up;
/// - otherwise a settled search gives the magnitude itself on an exact hit, or
///   rounds the adjacent pair of grid points around it.
pub open spec fn quantizes_to(
    mantissa: u32,
    placement: Placement,
    probe: spec_fn(u32, Probe) -> bool,
    above: spec_fn(Point, Point, bool) -> bool,
    quantizer: Quantizator,
    r: Result<Point, OutOfRangeError>,
) -> bool {
    if placement == Placement::Below {
        r is Ok && rounds_to(quantizer, Point::Low, Point::Zero, above, r->Ok_0)
    } else if mantissa == 0 {
        r is Ok && rounds_to(quantizer, Point::High, Point::Low, above, r->Ok_0)
    } else if placement == Placement::Above {
        r == Err::<Point, OutOfRangeError>(OutOfRangeError)
    } else {
        &&& r is Ok
        &&& exists|s: CullResult|
            #[trigger] settles(s, SearchRange { start: 0, length: mantissa }, probe) && match s {
                CullResult::ExactMatch(_) => r->Ok_0 == Point::Target,
                CullResult::TwoLeft(u, l) => rounds_to(
                    quantizer,
                    Point::Step(u),
                    Point::Step(l),
                    above,
                    r->Ok_0,
                ),
                CullResult::CutHalf => false,
            }
    }
}

/// Quantizes a magnitude onto a grid of `mantissa` steps over `[low, high]`.
///
/// `placement` tells where the magnitude lies with respect to `[low, high]`,
/// `probe_at(i)` compares the grid value at index `i` with the magnitude, and
/// `above_midpoint(u, l)` tells whether the magnitude lies strictly above the
/// midpoint of the values of `u` and `l`. The result names the representable
/// value chosen; the search can only be set up for a magnitude within range.
pub fn search_mantissa<P: Fn(u32) -> Probe, M: Fn(Point, Point) -> bool>(
    mantissa: u32,
    placement: Placement,
    probe_at: P,
    above_midpoint: M,
    quantizer: Quantizator,
) -> (r: Result<Point, OutOfRangeError>)
    requires
        forall|i: u32| i <= mantissa ==> probe_at.requires((i,)),
        probes_consistent(answers(probe_at), SearchRange { start: 0, length: mantissa }),
        forall|u: Point, l: Point|
            u.on_grid(mantissa) && l.on_grid(mantissa) ==> above_midpoint.requires((u, l)),
    ensures
        quantizes_to(
            mantissa,
            placement,
            answers(probe_at),
            midpoint_answers(above_midpoint),
            quantizer,
            r,
        ),
{
    if placement == Placement::Below {
        let b = above_midpoint(Point::Low, Point::Zero);
        assert(midpoint_answers(above_midpoint)(Point::Low, Point::Zero, b));
        return Ok(quantizer.quantize_abs(Point::Low, Point::Zero, b));
    }
    if mantissa == 0 {
        let b = above_midpoint(Point::High, Point::Low);
        assert(midpoint_answers(above_midpoint)(Point::High, Point::Low, b));
        return Ok(quantizer.quantize_abs(Point::High, Point::Low, b));
    }
    let window = match SearchRange::new(mantissa, placement) {
        Ok(window) => window,
        Err(e) => {
            return Err(e);
        },
    };
    let s = window.search(probe_at);
    match s {
        CullResult::ExactMatch(_) => Ok(Point::Target),
        CullResult::TwoLeft(u, l) => {
            let b = above_midpoint(Point::Step(u), Point::Step(l));
            assert(midpoint_answers(above_midpoint)(Point::Step(u), Point::Step(l), b));
            Ok(quantizer.quantize_abs(Point::Step(u), Point::Step(l), b))
        },
        CullResult::CutHalf => {
            // a finished search never reports a halving
            proof {
                assert(false);
            }
            Err(OutOfRangeError)
        },
    }
}

/// The exact value of a point, on a grid `f` over `[low, high]`, when the
/// magnitude being quantized is `target`.
pub open spec fn value_of(p: Point, low: int, high: int, f: spec_fn(int) -> int, target: int) -> int {
    match p {
        Point::Zero => 0,
        Point::Low => low,
        Point::High => high,
        Point::Step(i) => f(i as int),
        Point::Target => target,
    }
}

/// The answers of an exact midpoint test for `target`.
pub open spec fn exact_midpoints(low: int, high: int, f: spec_fn(int) -> int, target: int) -> spec_fn(
    Point,
    Point,
    bool,
) -> bool {
    |u: Point, l: Point, b: bool|
        b == above_midpoint(value_of(u, low, high, f, target), value_of(l, low, high, f, target), target)
}

/// The grid `f` of `mantissa` steps is strictly decreasing and stays within
/// `[low, high]`, and `0 <= low <= high`.
pub open spec fn grid_within(f: spec_fn(int) -> int, mantissa: u32, low: int, high: int) -> bool {
    &&& 0 <= low <= high
    &&& strictly_decreasing(f, 0, mantissa as int)
    &&& f(0) <= high
    &&& low <= f(mantissa as int)
}

/// Whatever the policy, a non-negative magnitude quantizes to a value in
/// `[0, high]`.
pub proof fn quantized_within_bounds(
    mantissa: u32,
    low: int,
    high: int,
    f: spec_fn(int) -> int,
    target: int,
    quantizer: Quantizator,
    r: Result<Point, OutOfRangeError>,
)
    requires
        grid_within(f, mantissa, low, high),
        0 <= target,
        quantizes_to(
            mantissa,
            placement_of(target, low, high),
            exact_probes(f, target),
            exact_midpoints(low, high, f, target),
            quantizer,
            r,
        ),
        r is Ok,
    ensures
        0 <= value_of(r->Ok_0, low, high, f, target) <= high,
{
    let placement = placement_of(target, low, high);
    if placement != Placement::Below && mantissa != 0 {
        let w = SearchRange { start: 0, length: mantissa };
        let s = choose|s: CullResult|
            #[trigger] settles(s, w, exact_probes(f, target)) && match s {
                CullResult::ExactMatch(_) => r->Ok_0 == Point::Target,
                CullResult::TwoLeft(u, l) => rounds_to(
                    quantizer,
                    Point::Step(u),
                    Point::Step(l),
                    exact_midpoints(low, high, f, target),
                    r->Ok_0,
                ),
                CullResult::CutHalf => false,
            };
        if let CullResult::TwoLeft(u, l) = s {
            if u > 0 {
                assert(f(0) > f(u as int));
            }
            if l < mantissa {
                assert(f(l as int) > f(mantissa as int));
            }
        }
    }
}

/// A magnitude below the grid's floor quantizes to zero or to `low`:
/// `RoundUp` gives `low`, `RoundDown` gives zero, and `Nearest` the closer of
/// the two, zero when both are equally close.
pub proof fn below_floor_rounds_to_zero_or_low(
    mantissa: u32,
    low: int,
    high: int,
    f: spec_fn(int) -> int,
    target: int,
    quantizer: Quantizator,
    r: Result<Point, OutOfRangeError>,
)
    requires
        0 <= target < low <= high,
        quantizes_to(
            mantissa,
            placement_of(target, low, high),
            exact_probes(f, target),
            exact_midpoints(low, high, f, target),
            quantizer,
            r,
        ),
    ensures
        r == Ok::<Point, OutOfRangeError>(Point::Zero) || r == Ok::<Point, OutOfRangeError>(
            Point::Low,
        ),
        quantizer == Quantizator::RoundUp ==> r == Ok::<Point, OutOfRangeError>(Point::Low),
        quantizer == Quantizator::RoundDown ==> r == Ok::<Point, OutOfRangeError>(Point::Zero),
        quantizer == Quantizator::Nearest ==> {
            let v = value_of(r->Ok_0, low, high, f, target);
            gap(v, target) <= gap(0, target) && gap(v, target) <= gap(low, target) && (gap(
                0,
                target,
            ) == gap(low, target) ==> v == 0)
        },
{
    rounding_policy_law(quantizer, low, 0, target);
}

/// A magnitude lying exactly on a grid point strictly between the grid's ends
/// is kept as it is, whatever the policy.
pub proof fn grid_point_is_kept(
    mantissa: u32,
    low: int,
    high: int,
    f: spec_fn(int) -> int,
    c: u32,
    quantizer: Quantizator,
    r: Result<Point, OutOfRangeError>,
)
    requires
        grid_within(f, mantissa, low, high),
        0 < c < mantissa,
        quantizes_to(
            mantissa,
            placement_of(f(c as int), low, high),
            exact_probes(f, f(c as int)),
            exact_midpoints(low, high, f, f(c as int)),
            quantizer,
            r,
        ),
    ensures
        r == Ok::<Point, OutOfRangeError>(Point::Target),
        value_of(r->Ok_0, low, high, f, f(c as int)) == f(c as int),
{
    assert(f(0) > f(c as int));
    assert(f(c as int) > f(mantissa as int));
    let w = SearchRange { start: 0, length: mantissa };
    let target = f(c as int);
    let s = choose|s: CullResult|
        #[trigger] settles(s, w, exact_probes(f, target)) && match s {
            CullResult::ExactMatch(_) => r->Ok_0 == Point::Target,
            CullResult::TwoLeft(u, l) => rounds_to(
                quantizer,
                Point::Step(u),
                Point::Step(l),
                exact_midpoints(low, high, f, target),
                r->Ok_0,
            ),
            CullResult::CutHalf => false,
        };
    search_finds_grid_point(s, w, f, c);
}

} // verus!
