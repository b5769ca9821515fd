//! The render pipeline's pure half: everything a chart frame shows,
//! composed as plain values.  The surrounding process turns a composed
//! frame into widgets and issues the one synchronous flush per tick.

use vstd::prelude::*;
use crate::sample::Sample;
use crate::scale::ViewBounds;
use crate::text::{dec_digits, format_tenths, format_units, tenths_text};

verus! {

/// A transient failure of the synchronous flush to the display.
#[derive(Clone, Copy, PartialEq, Eq, Structural, Debug)]
pub enum RenderError {
    Flush,
}

/// The samples of `s` whose x position lies in `[lo, hi]`, in order.
pub open spec fn clipped(s: Seq<Sample>, lo: u64, hi: u64) -> Seq<Sample>
    decreases s.len(),
{
    if s.len() == 0 {
        Seq::<Sample>::empty()
    } else {
        let rest = clipped(s.drop_last(), lo, hi);
        if lo <= s.last().x <= hi {
            rest.push(s.last())
        } else {
            rest
        }
    }
}

/// The midpoint between two axis bounds, in tenths.
pub open spec fn mid_tenths(lo: u64, hi: u64) -> int {
    (lo + hi) / 2
}

/// One frame of the chart, as plain values: a title for the bordered
/// block, three labels per axis (min, midpoint, max), the bounds, and
/// the trace clipped to them.
pub struct ChartFrame {
    pub title: String,
    pub x_labels: Vec<String>,
    pub y_labels: Vec<String>,
    pub bounds: ViewBounds,
    pub points: Vec<Sample>,
}

/// Everything a composed frame must show for snapshot `s` under bounds
/// `b`: the title, one-decimal x labels, whole-unit y labels, and the
/// clipped trace.
pub open spec fn frame_matches(f: ChartFrame, s: Seq<Sample>, b: ViewBounds) -> bool {
    &&& f.title@ == "Animated Chart"@
    &&& f.bounds == b
    &&& f.x_labels@.len() == 3
    &&& f.x_labels@[0]@ == tenths_text(b.x_min as nat)
    &&& f.x_labels@[1]@ == tenths_text(mid_tenths(b.x_min, b.x_max) as nat)
    &&& f.x_labels@[2]@ == tenths_text(b.x_max as nat)
    &&& f.y_labels@.len() == 3
    &&& f.y_labels@[0]@ == dec_digits((b.y_min / 10) as nat)
    &&& f.y_labels@[1]@ == dec_digits((mid_tenths(b.y_min, b.y_max) / 10) as nat)
    &&& f.y_labels@[2]@ == dec_digits((b.y_max / 10) as nat)
    &&& f.points@ == clipped(s, b.x_min, b.x_max)
}

fn clip_points(s: &Vec<Sample>, lo: u64, hi: u64) -> (r: Vec<Sample>)
    ensures
        r@ == clipped(s@, lo, hi),
{
    let mut r: Vec<Sample> = Vec::new();
    let mut i: usize = 0;
    while i < s.len()
        invariant
            i <= s@.len(),
            r@ == clipped(s@.take(i as int), lo, hi),
        decreases s@.len() - i,
    {
        let p = s[i];
        if lo <= p.x && p.x <= hi {
            r.push(p);
        }
        proof {
            assert(s@.take(i + 1).drop_last() =~= s@.take(i as int));
            assert(s@.take(i + 1).last() == s@[i as int]);
        }
        i += 1;
    }
    proof {
        assert(s@.take(s@.len() as int) =~= s@);
    }
    r
}

fn mid_of(lo: u64, hi: u64) -> (m: u64)
    requires
        lo <= hi,
    ensures
        m == mid_tenths(lo, hi),
{
    lo + (hi - lo) / 2
}

/// Composes one chart frame from a snapshot and its bounds: the title,
/// the three one-decimal x labels, the three whole-unit y labels, and
/// the trace clipped to the bounds.
pub fn compose_frame(snapshot: &Vec<Sample>, bounds: ViewBounds) -> (f: ChartFrame)
    requires
        bounds.x_min <= bounds.x_max,
        bounds.y_min <= bounds.y_max,
    ensures
        frame_matches(f, snapshot@, bounds),
{
    let mut x_labels: Vec<String> = Vec::new();
    x_labels.push(format_tenths(bounds.x_min));
    x_labels.push(format_tenths(mid_of(bounds.x_min, bounds.x_max)));
    x_labels.push(format_tenths(bounds.x_max));
    let mut y_labels: Vec<String> = Vec::new();
    y_labels.push(format_units(bounds.y_min));
    y_labels.push(format_units(mid_of(bounds.y_min, bounds.y_max)));
    y_labels.push(format_units(bounds.y_max));
    let points = clip_points(snapshot, bounds.x_min, bounds.x_max);
    let title = "Animated Chart".to_owned();
    ChartFrame { title, x_labels, y_labels, bounds, points }
}

} // verus!
