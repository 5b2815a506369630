//! Channels of the tone-curve editor, and control-point deletion.
use vstd::prelude::*;

verus! {

/// Which tone-curve channel the editor is currently editing.
#[derive(Clone, Copy, Debug, PartialEq, Eq, Structural)]
pub enum Channel {
    Master,
    Red,
    Green,
    Blue,
}

impl Channel {
    /// Short, stable selector label.
    pub fn label(self) -> (l: &'static str)
        ensures
            l@ == (match self {
                Channel::Master => "Master"@,
                Channel::Red => "R"@,
                Channel::Green => "G"@,
                Channel::Blue => "B"@,
            }),
    {
        match self {
            Channel::Master => "Master",
            Channel::Red => "R",
            Channel::Green => "G",
            Channel::Blue => "B",
        }
    }
}

/// Delete control point `idx` of a tone curve. The endpoints (first and
/// last point) are not deletable, nor is an index past the end: the curve
/// then comes back unchanged.
pub fn delete_point<P: Copy>(points: &[P], idx: usize) -> (out: Vec<P>)
    ensures
        idx == 0 || idx + 1 >= points@.len() ==> out@ == points@,
        0 < idx && idx + 1 < points@.len() ==> out@ == points@.remove(idx as int),
{
    let keep_all = idx == 0 || idx >= points.len() || idx + 1 >= points.len();
    let mut out: Vec<P> = Vec::new();
    let mut i: usize = 0;
    while i < points.len()
        invariant
            i <= points@.len(),
            keep_all == (idx == 0 || idx + 1 >= points@.len()),
            keep_all ==> out@ == points@.take(i as int),
            !keep_all ==> out@ == (if i <= idx {
                points@.take(i as int)
            } else {
                points@.take(i as int).remove(idx as int)
            }),
        decreases points@.len() - i,
    {
        let ghost before = out@;
        if keep_all || i != idx {
            out.push(points[i]);
        }
        proof {
            assert(points@.take(i + 1) =~= points@.take(i as int).push(points@[i as int]));
            if !keep_all && i > idx {
                assert(points@.take(i + 1).remove(idx as int) =~= points@.take(i as int).remove(
                    idx as int,
                ).push(points@[i as int]));
            }
        }
        i = i + 1;
    }
    proof {
        assert(points@.take(points@.len() as int) =~= points@);
    }
    out
}

} // verus!
