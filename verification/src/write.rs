//! Write batches and write results.

use vstd::prelude::*;

use crate::point::Point;

verus! {

/// An accumulator of built write records, forming one outbound batch.
/// The records carry no dependency on one another; their order is kept
/// only so that enumeration is deterministic.
#[derive(Clone, Debug)]
pub struct WriteRequest {
    points: Vec<Point>,
}

impl WriteRequest {
    /// The accumulated records, in the order they were added.
    pub closed spec fn spec_points(&self) -> Seq<Point> {
        self.points@
    }

    /// An empty batch.
    pub fn new() -> (r: Self)
        ensures
            r.spec_points() == Seq::<Point>::empty(),
    {
        WriteRequest { points: Vec::new() }
    }

    /// Append one built record; this always succeeds.
    pub fn add_point(&mut self, point: Point)
        ensures
            final(self).spec_points() == old(self).spec_points().push(point),
    {
        self.points.push(point);
    }

    /// Append several built records at once, keeping their order; the
    /// effect is that of adding each record in turn.
    pub fn add_points(&mut self, points: Vec<Point>)
        ensures
            final(self).spec_points() == old(self).spec_points() + points@,
    {
        let mut points = points;
        self.points.append(&mut points);
    }

    /// The accumulated records, in the order they were added.
    pub fn points(&self) -> (r: &Vec<Point>)
        ensures
            r@ == self.spec_points(),
    {
        &self.points
    }
}

impl Default for WriteRequest {
    fn default() -> (r: Self)
        ensures
            r.spec_points() == Seq::<Point>::empty(),
    {
        WriteRequest { points: Vec::new() }
    }
}

/// The immutable counters of a completed batch write.
#[derive(Clone, Copy, Debug, PartialEq, Eq, Structural)]
pub struct WriteResponse {
    success: u32,
    failed: u32,
}

impl WriteResponse {
    /// The count of successfully written records.
    pub closed spec fn spec_success(&self) -> u32 {
        self.success
    }

    /// The count of records that failed to write.
    pub closed spec fn spec_failed(&self) -> u32 {
        self.failed
    }

    pub fn new(success: u32, failed: u32) -> (r: Self)
        ensures
            r.spec_success() == success,
            r.spec_failed() == failed,
    {
        WriteResponse { success, failed }
    }

    pub fn get_success(&self) -> (r: u32)
        ensures
            r == self.spec_success(),
    {
        self.success
    }

    pub fn get_failed(&self) -> (r: u32)
        ensures
            r == self.spec_failed(),
    {
        self.failed
    }
}

} // verus!
