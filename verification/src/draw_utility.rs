//! Geometry helpers for shape drawing: the enclosing rectangle of a point
//! set and point-set translation.

use vstd::prelude::*;
use crate::rect::Rect;

verus! {

/// No two points of the set are farther apart than `i32::MAX` along either
/// axis, so the size of their enclosing rectangle fits in `i32`.
pub open spec fn span_in_range(points: Seq<(i32, i32)>) -> bool {
    forall|i: int, j: int|
        0 <= i < points.len() && 0 <= j < points.len() ==> (#[trigger] points[i]).0 - (
        #[trigger] points[j]).0 <= i32::MAX && points[i].1 - points[j].1 <= i32::MAX
}

/// Helpers shared by shape-drawing code.
pub struct DrawUtility;

impl DrawUtility {
    /// The smallest rectangle containing every point: its top-left corner is
    /// the componentwise minimum, and its size spans to the componentwise
    /// maximum.
    pub fn tuple_vec_enclosing_rectangle(points: &Vec<(i32, i32)>) -> (r: Rect)
        requires
            points@.len() > 0,
            span_in_range(points@),
        ensures
            forall|i: int|
                0 <= i < points@.len() ==> r.x <= (#[trigger] points@[i]).0 && r.y
                    <= points@[i].1 && points@[i].0 <= r.x + r.w && points@[i].1 <= r.y + r.h,
            exists|i: int| 0 <= i < points@.len() && (#[trigger] points@[i]).0 == r.x,
            exists|i: int| 0 <= i < points@.len() && (#[trigger] points@[i]).1 == r.y,
            exists|i: int| 0 <= i < points@.len() && (#[trigger] points@[i]).0 == r.x + r.w,
            exists|i: int| 0 <= i < points@.len() && (#[trigger] points@[i]).1 == r.y + r.h,
    {
        let first = points[0];
        let mut min_x = first.0;
        let mut max_x = first.0;
        let mut min_y = first.1;
        let mut max_y = first.1;
        let mut i: usize = 1;
        while i < points.len()
            invariant
                1 <= i <= points@.len(),
                forall|j: int|
                    0 <= j < i ==> min_x <= (#[trigger] points@[j]).0 && min_y <= points@[j].1
                        && points@[j].0 <= max_x && points@[j].1 <= max_y,
                exists|j: int| 0 <= j < i && (#[trigger] points@[j]).0 == min_x,
                exists|j: int| 0 <= j < i && (#[trigger] points@[j]).1 == min_y,
                exists|j: int| 0 <= j < i && (#[trigger] points@[j]).0 == max_x,
                exists|j: int| 0 <= j < i && (#[trigger] points@[j]).1 == max_y,
            decreases points@.len() - i,
        {
            let p = points[i];
            if p.0 < min_x {
                min_x = p.0;
            }
            if p.0 > max_x {
                max_x = p.0;
            }
            if p.1 < min_y {
                min_y = p.1;
            }
            if p.1 > max_y {
                max_y = p.1;
            }
            i += 1;
        }
        proof {
            let xa = choose|j: int| 0 <= j < points@.len() && (#[trigger] points@[j]).0 == max_x;
            let xb = choose|j: int| 0 <= j < points@.len() && (#[trigger] points@[j]).0 == min_x;
            assert(points@[xa].0 - points@[xb].0 <= i32::MAX);
            assert(min_x <= points@[xa].0);
            let ya = choose|j: int| 0 <= j < points@.len() && (#[trigger] points@[j]).1 == max_y;
            let yb = choose|j: int| 0 <= j < points@.len() && (#[trigger] points@[j]).1 == min_y;
            assert(points@[ya].1 - points@[yb].1 <= i32::MAX);
            assert(min_y <= points@[ya].1);
        }
        Rect::new_from_points((min_x, min_y), (max_x, max_y))
    }

    /// Every point shifted by `offset`.
    pub fn transform_points(points: &Vec<(i32, i32)>, offset: (i32, i32)) -> (r: Vec<(i32, i32)>)
        requires
            forall|i: int|
                0 <= i < points@.len() ==> i32::MIN <= (#[trigger] points@[i]).0 + offset.0
                    <= i32::MAX && i32::MIN <= points@[i].1 + offset.1 <= i32::MAX,
        ensures
            r@.len() == points@.len(),
            forall|i: int|
                0 <= i < points@.len() ==> #[trigger] r@[i] == ((points@[i].0 + offset.0) as i32, (
                points@[i].1 + offset.1) as i32),
    {
        let mut out: Vec<(i32, i32)> = Vec::new();
        let mut i: usize = 0;
        while i < points.len()
            invariant
                i <= points@.len(),
                out@.len() == i,
                forall|k: int|
                    0 <= k < points@.len() ==> i32::MIN <= (#[trigger] points@[k]).0 + offset.0
                        <= i32::MAX && i32::MIN <= points@[k].1 + offset.1 <= i32::MAX,
                forall|k: int|
                    0 <= k < i ==> #[trigger] out@[k] == ((points@[k].0 + offset.0) as i32, (
                    points@[k].1 + offset.1) as i32),
            decreases points@.len() - i,
        {
            let p = points[i];
            out.push((p.0 + offset.0, p.1 + offset.1));
            i += 1;
        }
        out
    }
}

} // verus!
