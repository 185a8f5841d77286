//! The two registers as mathematical values, the events that change them, and
//! the laws that hold over any sequence of events.
use vstd::prelude::*;

verus! {

/// Live bytes and the high-water mark of live bytes.
pub struct Usage {
    pub current: nat,
    pub peak: nat,
}

/// One event seen by the registers.
pub enum Event {
    /// A region of this many bytes was acquired.
    Alloc(nat),
    /// A region of this many bytes was released.
    Dealloc(nat),
    /// The high-water mark is restarted from the live bytes.
    ResetPeak,
}

pub open spec fn larger(a: nat, b: nat) -> nat {
    if a >= b { a } else { b }
}

/// The high-water mark never lies below the live bytes.
pub open spec fn consistent(u: Usage) -> bool {
    u.peak >= u.current
}

/// An event that can happen in state `u`: a release never exceeds what is live.
pub open spec fn allowed(u: Usage, e: Event) -> bool {
    match e {
        Event::Dealloc(n) => n <= u.current,
        _ => true,
    }
}

/// The state after event `e` in state `u`.
pub open spec fn step(u: Usage, e: Event) -> Usage {
    match e {
        Event::Alloc(n) => Usage { current: u.current + n, peak: larger(u.peak, u.current + n) },
        Event::Dealloc(n) => Usage { current: (u.current - n) as nat, peak: u.peak },
        Event::ResetPeak => Usage { current: u.current, peak: u.current },
    }
}

/// The state after the events `es`, one after the other, from `u`.
pub open spec fn run(u: Usage, es: Seq<Event>) -> Usage
    decreases es.len(),
{
    if es.len() == 0 {
        u
    } else {
        run(step(u, es[0]), es.drop_first())
    }
}

/// Every event of `es` is allowed in the state in which it happens.
pub open spec fn valid_run(u: Usage, es: Seq<Event>) -> bool
    decreases es.len(),
{
    es.len() == 0 || (allowed(u, es[0]) && valid_run(step(u, es[0]), es.drop_first()))
}

/// Bytes acquired minus bytes released by `es`.
pub open spec fn net(es: Seq<Event>) -> int
    decreases es.len(),
{
    if es.len() == 0 {
        0
    } else {
        let d: int = match es[0] {
            Event::Alloc(n) => n as int,
            Event::Dealloc(n) => -(n as int),
            Event::ResetPeak => 0,
        };
        d + net(es.drop_first())
    }
}

/// `es` holds no reset of the high-water mark.
pub open spec fn no_reset(es: Seq<Event>) -> bool {
    forall|i: int| 0 <= i < es.len() ==> !(#[trigger] es[i] is ResetPeak)
}

/// The most bytes live at any point of the run of `es` from `u`, its start and
/// its end included.
pub open spec fn highest_current(u: Usage, es: Seq<Event>) -> nat
    decreases es.len(),
{
    if es.len() == 0 {
        u.current
    } else {
        larger(u.current, highest_current(step(u, es[0]), es.drop_first()))
    }
}

/// After a run, the live bytes are those at the start plus the net of the run.
pub proof fn current_follows_net(u: Usage, es: Seq<Event>)
    requires
        valid_run(u, es),
    ensures
        run(u, es).current == u.current + net(es),
    decreases es.len(),
{
    if es.len() > 0 {
        current_follows_net(step(u, es[0]), es.drop_first());
    }
}

/// A run that releases exactly what it acquires leaves the live bytes where
/// they were: from zero, it ends at zero.
pub proof fn conservation(u: Usage, es: Seq<Event>)
    requires
        valid_run(u, es),
        net(es) == 0,
    ensures
        run(u, es).current == u.current,
{
    current_follows_net(u, es);
}

/// The high-water mark stays at or above the live bytes through any run, and
/// it never goes down over a run without a reset.
pub proof fn peak_monotone(u: Usage, es: Seq<Event>)
    requires
        consistent(u),
        valid_run(u, es),
    ensures
        consistent(run(u, es)),
        no_reset(es) ==> run(u, es).peak >= u.peak,
    decreases es.len(),
{
    if es.len() > 0 {
        let rest = es.drop_first();
        assert(no_reset(es) ==> no_reset(rest)) by {
            if no_reset(es) {
                assert forall|i: int| 0 <= i < rest.len() implies !(#[trigger] rest[i] is ResetPeak) by {
                    assert(rest[i] == es[i + 1]);
                }
            }
        }
        assert(no_reset(es) ==> !(es[0] is ResetPeak));
        peak_monotone(step(u, es[0]), rest);
    }
}

/// Over a run without a reset, the high-water mark at the end is the most
/// bytes live at any point of the run, or the mark at the start if that was
/// higher.
pub proof fn peak_is_highest_current(u: Usage, es: Seq<Event>)
    requires
        consistent(u),
        valid_run(u, es),
        no_reset(es),
    ensures
        run(u, es).peak == larger(u.peak, highest_current(u, es)),
    decreases es.len(),
{
    if es.len() > 0 {
        let rest = es.drop_first();
        assert forall|i: int| 0 <= i < rest.len() implies !(#[trigger] rest[i] is ResetPeak) by {
            assert(rest[i] == es[i + 1]);
        }
        assert(!(es[0] is ResetPeak));
        peak_is_highest_current(step(u, es[0]), rest);
    }
}

} // verus!
