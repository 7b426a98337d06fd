use vstd::prelude::*;

verus! {

/// One timestamped motion reading.
///
/// Each axis is held in thousandths of a unit of acceleration; the timestamp
/// is a monotonic clock reading in microseconds.
#[derive(Clone, Copy, Debug, PartialEq, Eq, Structural)]
pub struct AccelReading {
    pub x: i32,
    pub y: i32,
    pub z: i32,
    pub timestamp: u64,
}

/// The last `cap` entries of `s`, or all of `s` when it holds no more than that.
pub open spec fn window(s: Seq<AccelReading>, cap: nat) -> Seq<AccelReading> {
    if s.len() <= cap {
        s
    } else {
        s.subrange(s.len() - cap, s.len() as int)
    }
}

/// A window never holds more than its capacity.
pub proof fn lemma_window_len(s: Seq<AccelReading>, cap: nat)
    ensures
        window(s, cap).len() <= cap,
        window(s, cap).len() == if s.len() <= cap { s.len() } else { cap },
{
}

/// Trimming before a push changes nothing: pushing onto a window equals the
/// window of the push.
pub proof fn lemma_window_push(s: Seq<AccelReading>, v: AccelReading, cap: nat)
    requires
        cap > 0,
    ensures
        window(window(s, cap).push(v), cap) == window(s.push(v), cap),
{
    if s.len() > cap {
        assert(window(window(s, cap).push(v), cap) =~= window(s.push(v), cap));
    } else if s.len() == cap {
        assert(window(s.push(v), cap) =~= s.push(v).subrange(1, s.len() + 1 as int));
    }
}

} // verus!
