use vstd::prelude::*;

use crate::controller::{command_sent, reports};
use crate::interface::{Exchange, Request};
use crate::wire::be16;

verus! {

/// Issuing the no-op any number of times makes one transport write per call,
/// each of opcode 0x00 with no parameter bytes, and no other call: the
/// transport's history grows by exactly those writes.
///
/// `logs[i]` is the owned transport's history (a controller's view) before
/// the `i`-th of consecutive `nop` calls, and `logs[i + 1]` after it;
/// `outcomes[i]` is what that call returned, which is what the transport
/// returned to it. The requirement on consecutive entries is the contract of
/// `Controller::nop`.
pub proof fn nop_repeats<E>(logs: Seq<Seq<Exchange<E>>>, outcomes: Seq<Result<(), E>>)
    requires
        logs.len() == outcomes.len() + 1,
        forall|i: int|
            #![trigger outcomes[i]]
            0 <= i < outcomes.len() ==> command_sent(logs[i], logs[i + 1], 0x00, outcomes[i]),
    ensures
        logs.last() == logs[0] + Seq::new(
            outcomes.len(),
            |i: int| Exchange::write(0x00, Seq::empty(), outcomes[i]),
        ),
        logs.last().len() == logs[0].len() + outcomes.len(),
        forall|j: int|
            logs[0].len() <= j < logs.last().len() ==> (#[trigger] logs.last()[j]).request == (
            Request::WriteParameters { command: 0x00, data: Seq::empty() }),
    decreases outcomes.len(),
{
    let n = outcomes.len() as int;
    let appended = Seq::new(outcomes.len(), |i: int| Exchange::write(0x00, Seq::empty(), outcomes[i]));
    if n == 0 {
        assert(logs[0] + appended =~= logs[0]);
    } else {
        let shorter = logs.drop_last();
        let fewer = outcomes.drop_last();
        assert forall|i: int| #![trigger fewer[i]] 0 <= i < fewer.len() implies command_sent(
            shorter[i],
            shorter[i + 1],
            0x00,
            fewer[i],
        ) by {
            assert(outcomes[i] == fewer[i]);
        }
        nop_repeats(shorter, fewer);
        assert(command_sent(logs[n - 1], logs[n], 0x00, outcomes[n - 1]));
        assert(logs[0] + appended =~= (logs[0] + Seq::new(
            fewer.len(),
            |i: int| Exchange::write(0x00, Seq::empty(), fewer[i]),
        )).push(Exchange::write(0x00, Seq::empty(), outcomes[n - 1])));
    }
}

/// A write whose transport call failed returns that same failure, and the
/// failed call is the only one the command made.
pub proof fn write_failure_passes_through<E>(
    before: Seq<Exchange<E>>,
    after: Seq<Exchange<E>>,
    command: u8,
    data: Seq<u8>,
    r: Result<(), E>,
    e: E,
)
    requires
        after == before.push(Exchange::write(command, data, r)),
        after.last().outcome == Err::<(), E>(e),
    ensures
        r == Err::<(), E>(e),
        after.len() == before.len() + 1,
        after.subrange(0, before.len() as int) == before,
{
    assert(after.subrange(0, before.len() as int) =~= before);
}

/// A read whose transport call failed returns that same failure, with no
/// value.
pub proof fn read_failure_passes_through<A, E>(
    r: Result<A, E>,
    outcome: Result<(), E>,
    ok: spec_fn(A) -> bool,
    e: E,
)
    requires
        reports(r, outcome, ok),
        outcome == Err::<(), E>(e),
    ensures
        r == Err::<A, E>(e),
{
}

/// Two 16-bit parameters go out as four bytes: high byte of the first,
/// low byte of the first, then the same for the second.
pub proof fn be16_pair_layout(a: u16, b: u16)
    ensures
        be16(a) + be16(b) == seq![(a / 256) as u8, (a % 256) as u8, (b / 256) as u8, (b % 256) as u8],
{
    assert(be16(a) + be16(b) =~= seq![(a / 256) as u8, (a % 256) as u8, (b / 256) as u8, (b % 256) as u8]);
}

} // verus!
