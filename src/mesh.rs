use vstd::prelude::*;
use vstd::arithmetic::div_mod::lemma_fundamental_div_mod_converse;

verus! {

/// The number of straight segments in a polyline of `point_count` points.
pub open spec fn segment_count(point_count: int) -> int {
    if point_count <= 1 {
        0
    } else {
        point_count - 1
    }
}

/// Which of a segment's four vertices the `o`-th index of its two triangles names. The
/// vertices of a segment are, in order: start + normal, end + normal, end - normal,
/// start - normal; its triangles are (0, 1, 2) and (0, 2, 3).
pub open spec fn quad_corner(o: int) -> int {
    if o == 0 {
        0
    } else if o == 1 {
        1
    } else if o == 2 {
        2
    } else if o == 3 {
        0
    } else if o == 4 {
        2
    } else {
        3
    }
}

/// The `k`-th entry of a ribbon's index buffer: six per segment, into four vertices per segment.
pub open spec fn ribbon_index(k: int) -> int {
    4 * (k / 6) + quad_corner(k % 6)
}

/// The index buffer of the ribbon around a polyline of `point_count` points: two triangles per
/// segment over that segment's own four vertices.
pub fn ribbon_indices(point_count: usize) -> (r: Vec<u32>)
    requires
        point_count <= 0x4000_0000,
    ensures
        r.len() == 6 * segment_count(point_count as int),
        forall|k: int| 0 <= k < r.len() ==> #[trigger] r@[k] as int == ribbon_index(k),
        forall|k: int| 0 <= k < r.len() ==> #[trigger] r@[k] < 4 * segment_count(point_count as int),
{
    let segments: usize = if point_count <= 1 {
        0
    } else {
        point_count - 1
    };
    let mut r: Vec<u32> = Vec::new();
    let mut s: usize = 0;
    while s < segments
        invariant
            s <= segments,
            segments == segment_count(point_count as int),
            segments < 0x4000_0000,
            r.len() == 6 * s,
            forall|k: int| 0 <= k < r.len() ==> #[trigger] r@[k] as int == ribbon_index(k),
        decreases segments - s,
    {
        let start: u32 = (4 * s) as u32;
        r.push(start);
        r.push(start + 1);
        r.push(start + 2);
        r.push(start);
        r.push(start + 2);
        r.push(start + 3);
        assert forall|k: int| 6 * s <= k < 6 * s + 6 implies #[trigger] r@[k] as int == ribbon_index(
            k,
        ) by {
            lemma_fundamental_div_mod_converse(k, 6, s as int, k - 6 * s);
        }
        s = s + 1;
    }
    assert forall|k: int| 0 <= k < r.len() implies #[trigger] r@[k] < 4 * segment_count(
        point_count as int,
    ) by {
        assert(k / 6 < segments) by {
            lemma_fundamental_div_mod_converse(k, 6, k / 6, k % 6);
        }
    }
    r
}

/// Why a spline cannot be sampled.
#[derive(Debug, Clone, Copy, PartialEq, Eq, Structural)]
pub enum SplineError {
    /// A spline is sampled at both its ends, so it needs at least two samples; this many were
    /// asked for.
    TooFewSegments(usize),
}

/// How many points a connection's spline is sampled at: at least two, so that both ends are
/// samples and the step between samples is defined.
#[derive(Debug, Clone, Copy, PartialEq, Eq, Structural)]
pub struct SegmentCount {
    n: usize,
}

impl SegmentCount {
    #[verifier::type_invariant]
    spec fn inv(self) -> bool {
        self.n >= 2
    }

    pub closed spec fn count(self) -> nat {
        self.n as nat
    }

    pub fn new(n: usize) -> (r: Result<SegmentCount, SplineError>)
        ensures
            n >= 2 ==> (r matches Ok(c) && c.count() == n),
            n < 2 ==> r == Err::<SegmentCount, SplineError>(SplineError::TooFewSegments(n)),
    {
        if n < 2 {
            Err(SplineError::TooFewSegments(n))
        } else {
            Ok(SegmentCount { n })
        }
    }

    pub fn get(&self) -> (r: usize)
        ensures
            r == self.count(),
            r >= 2,
    {
        proof {
            use_type_invariant(self);
        }
        self.n
    }
}

impl Default for SegmentCount {
    /// Twenty samples.
    fn default() -> (r: SegmentCount)
        ensures
            r.count() == 20,
    {
        SegmentCount { n: 20 }
    }
}

} // verus!
