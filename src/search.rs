//! Binary search over the indices of a strictly decreasing grid.
//!
//! The grid's values are never seen here: the caller compares the value at an
//! index with the target and reports the outcome as a [`Probe`].

use vstd::prelude::*;

verus! {

/// How the grid value at some index compares with the target.
#[derive(Clone, Copy, Debug, PartialEq, Eq, Structural)]
pub enum Probe {
    /// The value is greater than the target.
    Above,
    /// The value equals the target.
    Equal,
    /// The value is less than the target (or is not comparable with it).
    Below,
}

/// The probe that an exact comparison of `value` with `target` yields.
pub open spec fn probe_of(value: int, target: int) -> Probe {
    if value > target {
        Probe::Above
    } else if value == target {
        Probe::Equal
    } else {
        Probe::Below
    }
}

/// Raised when a search is set up for a target outside its range.
#[derive(Clone, Copy, Debug, PartialEq, Eq, Structural)]
pub struct OutOfRangeError;

/// Where a target lies with respect to a closed range `[low, high]`.
#[derive(Clone, Copy, Debug, PartialEq, Eq, Structural)]
pub enum Placement {
    /// Below `low`.
    Below,
    /// Within `[low, high]`.
    Within,
    /// Above `high`, or not comparable with the range.
    Above,
}

/// The placement of an exact `target` with respect to `[low, high]`.
pub open spec fn placement_of(target: int, low: int, high: int) -> Placement {
    if target < low {
        Placement::Below
    } else if target <= high {
        Placement::Within
    } else {
        Placement::Above
    }
}

/// What one narrowing step of a search produced.
#[derive(Clone, Copy, Debug, PartialEq, Eq, Structural)]
pub enum CullResult {
    /// The window was halved; the search goes on.
    CutHalf,
    /// The window holds one adjacent pair of indices: `(upper, lower)`, where the
    /// grid value at `upper` is the larger one.
    TwoLeft(u32, u32),
    /// The grid value at this index equals the target.
    ExactMatch(u32),
}

/// A window of grid indices `[start, start + length]` known to hold the target.
#[derive(Clone, Copy, Debug, PartialEq, Eq, Structural)]
pub struct SearchRange {
    pub start: u32,
    pub length: u32,
}

impl SearchRange {
    /// The window is non-empty and its last index fits in a `u32`.
    pub open spec fn wf(self) -> bool {
        &&& self.length >= 1
        &&& self.start + self.length <= u32::MAX
    }

    /// The last index of the window.
    pub open spec fn end(self) -> int {
        self.start + self.length
    }

    /// The index in the middle of the window, rounded down.
    pub open spec fn center_spec(self) -> u32 {
        (self.start + self.length / 2) as u32
    }

    /// The window and the result after one narrowing step with the given probe
    /// of the center.
    pub open spec fn transition(self, probe: Probe) -> (SearchRange, CullResult) {
        if self.length == 1 {
            (self, CullResult::TwoLeft(self.start, (self.start + 1) as u32))
        } else {
            match probe {
                Probe::Equal => (self, CullResult::ExactMatch(self.center_spec())),
                Probe::Above => (
                    SearchRange {
                        start: self.center_spec(),
                        length: (self.length - self.length / 2) as u32,
                    },
                    CullResult::CutHalf,
                ),
                Probe::Below => (
                    SearchRange { start: self.start, length: (self.length - self.length / 2) as u32 },
                    CullResult::CutHalf,
                ),
            }
        }
    }

    /// Opens a window over the indices `0..=length` of a grid, for a target with
    /// the given placement in the grid's range.
    pub fn new(length: u32, placement: Placement) -> (r: Result<SearchRange, OutOfRangeError>)
        requires
            length >= 1,
        ensures
            placement == Placement::Within ==> r == Ok::<SearchRange, OutOfRangeError>(
                SearchRange { start: 0, length },
            ),
            placement != Placement::Within ==> r == Err::<SearchRange, OutOfRangeError>(
                OutOfRangeError,
            ),
    {
        match placement {
            Placement::Within => Ok(SearchRange { start: 0, length }),
            _ => Err(OutOfRangeError),
        }
    }

    /// The index in the middle of the window, rounded down.
    pub fn center(&self) -> (r: u32)
        requires
            self.wf(),
        ensures
            r == self.center_spec(),
            r == self.start + self.length / 2,
    {
        self.start + self.half_length()
    }

    fn half_length(&self) -> (r: u32)
        ensures
            r == self.length / 2,
    {
        self.length / 2
    }

    /// Narrows the window once, given how the grid value at `center()` compares
    /// with the target. A window of one step is terminal and reports its pair.
    pub fn cull(&mut self, probe: Probe) -> (r: CullResult)
        requires
            old(self).wf(),
        ensures
            (*final(self), r) == old(self).transition(probe),
            final(self).wf(),
            final(self).end() <= old(self).end(),
    {
        if self.length == 1 {
            CullResult::TwoLeft(self.start, self.start + 1)
        } else {
            match probe {
                Probe::Equal => CullResult::ExactMatch(self.center()),
                Probe::Above => {
                    self.start = self.center();
                    self.length = self.length - self.half_length();
                    CullResult::CutHalf
                },
                Probe::Below => {
                    self.length = self.length - self.half_length();
                    CullResult::CutHalf
                },
            }
        }
    }
}

/// Probes answered through `probe` never contradict a grid that is strictly
/// decreasing over the indices of `window`: each index has one answer, and once
/// a value is not above the target, every later value is below it.
pub open spec fn probes_consistent(probe: spec_fn(u32, Probe) -> bool, window: SearchRange) -> bool {
    &&& forall|i: u32, p: Probe, q: Probe|
        window.start <= i <= window.end() && #[trigger] probe(i, p) && #[trigger] probe(i, q)
            ==> p == q
    &&& forall|i: u32, j: u32, p: Probe, q: Probe|
        window.start <= i < j <= window.end() && #[trigger] probe(i, p) && #[trigger] probe(j, q)
            && p != Probe::Above ==> q == Probe::Below
}

/// `r` is a terminal answer of a search over `window`: an index strictly inside
/// it whose value equals the target, or an adjacent pair `(u, u + 1)` such that
/// the value at `u` is above the target (or `u` is the window's first index)
/// and the value at `u + 1` is below it (or `u + 1` is the window's last index).
pub open spec fn settles(r: CullResult, window: SearchRange, probe: spec_fn(u32, Probe) -> bool) -> bool {
    match r {
        CullResult::CutHalf => false,
        CullResult::ExactMatch(c) => window.start < c < window.end() && probe(c, Probe::Equal),
        CullResult::TwoLeft(u, l) => {
            &&& l == u + 1
            &&& window.start <= u
            &&& l <= window.end()
            &&& (u == window.start || probe(u, Probe::Above))
            &&& (l == window.end() || probe(l, Probe::Below))
        },
    }
}

/// The answers that a probing closure may give, as a relation.
pub open spec fn answers<P: Fn(u32) -> Probe>(probe_at: P) -> spec_fn(u32, Probe) -> bool {
    |i: u32, p: Probe| probe_at.ensures((i,), p)
}

impl SearchRange {
    /// Searches this window of a strictly decreasing grid for the target,
    /// narrowing it with [`SearchRange::cull`] until it is terminal.
    /// `probe_at(i)` compares the grid value at `i` with the target.
    pub fn search<P: Fn(u32) -> Probe>(self, probe_at: P) -> (r: CullResult)
        requires
            self.wf(),
            forall|i: u32| self.start <= i <= self.end() ==> probe_at.requires((i,)),
            probes_consistent(answers(probe_at), self),
        ensures
            settles(r, self, answers(probe_at)),
    {
        let mut window = self;
        // an index in (start, end] whose value was found below the target
        let ghost mut below: u32 = window.start;
        loop
            invariant
                window.wf(),
                self.start <= window.start,
                window.end() <= self.end(),
                forall|i: u32| self.start <= i <= self.end() ==> probe_at.requires((i,)),
                probes_consistent(answers(probe_at), self),
                window.start == self.start || probe_at.ensures((window.start,), Probe::Above),
                window.end() == self.end() || (window.start < below <= window.end()
                    && probe_at.ensures((below,), Probe::Below)),
            decreases window.length,
        {
            let c = window.center();
            let probe = probe_at(c);
            let ghost before = window;
            match window.cull(probe) {
                CullResult::CutHalf => {
                    proof {
                        if probe == Probe::Below {
                            below = c;
                        } else {
                            assert(answers(probe_at)(c, Probe::Above));
                            if before.end() != self.end() {
                                assert(answers(probe_at)(below, Probe::Below));
                            }
                        }
                    }
                },
                result => {
                    return result;
                },
            }
        }
    }
}

/// An exact grid `f` is strictly decreasing over the indices `lo..=hi`.
pub open spec fn strictly_decreasing(f: spec_fn(int) -> int, lo: int, hi: int) -> bool {
    forall|i: int, j: int| lo <= i < j <= hi ==> #[trigger] f(i) > #[trigger] f(j)
}

/// The probes that exact comparisons of the grid `f` with `target` give.
pub open spec fn exact_probes(f: spec_fn(int) -> int, target: int) -> spec_fn(u32, Probe) -> bool {
    |i: u32, p: Probe| p == probe_of(f(i as int), target)
}

/// Comparing a strictly decreasing grid with any target gives consistent probes.
pub proof fn exact_probes_are_consistent(f: spec_fn(int) -> int, target: int, window: SearchRange)
    requires
        strictly_decreasing(f, window.start as int, window.end()),
    ensures
        probes_consistent(exact_probes(f, target), window),
{
    assert forall|i: u32, j: u32, p: Probe, q: Probe|
        window.start <= i < j <= window.end() && #[trigger] exact_probes(f, target)(i, p)
            && #[trigger] exact_probes(f, target)(j, q) && p != Probe::Above implies q
        == Probe::Below by {
        assert(f(i as int) > f(j as int));
    }
}

/// One narrowing step keeps the target inside the window of a strictly
/// decreasing grid, and shrinks the window while the search goes on; a
/// terminal step reports the index of the target or the adjacent pair
/// around it.
pub proof fn cull_keeps_target(w: SearchRange, f: spec_fn(int) -> int, target: int)
    requires
        w.wf(),
        strictly_decreasing(f, w.start as int, w.end()),
        f(w.end()) <= target <= f(w.start as int),
    ensures
        ({
            let (next, r) = w.transition(probe_of(f(w.center_spec() as int), target));
            match r {
                CullResult::CutHalf => {
                    &&& next.wf()
                    &&& next.length < w.length
                    &&& w.start <= next.start
                    &&& next.end() <= w.end()
                    &&& f(next.end()) <= target <= f(next.start as int)
                },
                CullResult::ExactMatch(c) => f(c as int) == target,
                CullResult::TwoLeft(u, l) => l == u + 1 && f(l as int) <= target <= f(u as int),
            }
        }),
{
    let c = w.center_spec() as int;
    let half = w.length / 2;
    if w.length > 1 {
        assert(w.start < c < w.end());
        assert(f(c) > f(w.end()));
        assert(f(w.start as int) > f(c));
        let mid = w.start + (w.length - half);
        if c < mid {
            assert(f(c) > f(mid));
        }
        if mid < w.end() {
            assert(f(mid) > f(w.end()));
        }
    }
}

/// A search over a strictly decreasing grid whose window holds the target ends
/// on the target itself or on the adjacent pair of grid values around it.
pub proof fn search_brackets_target(r: CullResult, window: SearchRange, f: spec_fn(int) -> int, target: int)
    requires
        strictly_decreasing(f, window.start as int, window.end()),
        f(window.end()) <= target <= f(window.start as int),
        settles(r, window, exact_probes(f, target)),
    ensures
        match r {
            CullResult::CutHalf => false,
            CullResult::ExactMatch(c) => f(c as int) == target,
            CullResult::TwoLeft(u, l) => l == u + 1 && f(l as int) <= target <= f(u as int),
        },
{
}

/// A target lying exactly on a grid point strictly inside the window of a
/// strictly decreasing grid is found exactly.
pub proof fn search_finds_grid_point(r: CullResult, window: SearchRange, f: spec_fn(int) -> int, c: u32)
    requires
        strictly_decreasing(f, window.start as int, window.end()),
        window.start < c < window.end(),
        settles(r, window, exact_probes(f, f(c as int))),
    ensures
        r == CullResult::ExactMatch(c),
{
    match r {
        CullResult::ExactMatch(k) => {
            if k < c {
                assert(f(k as int) > f(c as int));
            } else if k > c {
                assert(f(c as int) > f(k as int));
            }
        },
        CullResult::TwoLeft(u, l) => {
            if u < c {
                if l < c {
                    assert(f(l as int) > f(c as int));
                }
            } else if u > c {
                assert(f(c as int) > f(u as int));
            }
        },
        CullResult::CutHalf => {},
    }
}

} // verus!
