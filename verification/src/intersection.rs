//! Candidate hits collected for a ray, and the choice of the nearest
//! one in front of the ray's origin.

use vstd::prelude::*;

verus! {

/// One candidate hit: the time along the ray, and a handle into the
/// caller's collection of shapes naming the shape that was struck.
#[derive(Debug, Clone, Copy, PartialEq, Eq, Structural)]
pub struct SingleIntersection {
    pub time: i64,
    pub shape: usize,
}

impl SingleIntersection {
    /// Builds a candidate hit.
    pub fn new(time: i64, shape: usize) -> (s: Self)
        ensures
            s == (SingleIntersection { time, shape }),
    {
        SingleIntersection { time, shape }
    }
}

/// The candidate hits gathered for one ray, in the order the shapes
/// reported them.
pub struct IntersectionTracker {
    pub intersections: Vec<SingleIntersection>,
}

impl IntersectionTracker {
    /// Wraps an existing list of candidates.
    pub fn new(intersections: Vec<SingleIntersection>) -> (t: Self)
        ensures
            t.intersections@ == intersections@,
    {
        IntersectionTracker { intersections }
    }

    /// Adds one more candidate at the end.
    pub fn push(&mut self, intersection: SingleIntersection)
        ensures
            final(self).intersections@ == old(self).intersections@.push(intersection),
    {
        self.intersections.push(intersection)
    }

    /// The nearest hit in front of the origin: the candidate with the
    /// smallest strictly positive time, the earliest seen among equals.
    /// `None` when no candidate has positive time.
    pub fn hit(&self) -> (r: Option<SingleIntersection>)
        ensures
            r is None <==> forall|j: int|
                0 <= j < self.intersections@.len() ==> #[trigger] self.intersections@[j].time <= 0,
            match r {
                Some(x) => exists|i: int|
                    {
                        &&& 0 <= i < self.intersections@.len()
                        &&& x == self.intersections@[i]
                        &&& x.time > 0
                        &&& forall|j: int|
                            0 <= j < self.intersections@.len()
                                && #[trigger] self.intersections@[j].time > 0 ==> x.time
                                <= self.intersections@[j].time
                        &&& forall|j: int|
                            0 <= j < i && #[trigger] self.intersections@[j].time > 0 ==> x.time
                                < self.intersections@[j].time
                    },
                None => true,
            },
    {
        let mut found = false;
        let mut best: usize = 0;
        let mut k: usize = 0;
        while k < self.intersections.len()
            invariant
                k <= self.intersections@.len(),
                !found ==> forall|j: int|
                    0 <= j < k ==> #[trigger] self.intersections@[j].time <= 0,
                found ==> {
                    &&& best < k
                    &&& self.intersections@[best as int].time > 0
                    &&& forall|j: int|
                        0 <= j < k && #[trigger] self.intersections@[j].time > 0
                            ==> self.intersections@[best as int].time
                            <= self.intersections@[j].time
                    &&& forall|j: int|
                        0 <= j < best && #[trigger] self.intersections@[j].time > 0
                            ==> self.intersections@[best as int].time
                            < self.intersections@[j].time
                },
            decreases self.intersections@.len() - k,
        {
            let t = self.intersections[k].time;
            if t > 0 {
                if !found {
                    found = true;
                    best = k;
                } else if t < self.intersections[best].time {
                    best = k;
                }
            }
            k = k + 1;
        }
        if found {
            Some(self.intersections[best])
        } else {
            None
        }
    }
}

} // verus!
