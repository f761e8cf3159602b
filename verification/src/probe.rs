use vstd::prelude::*;

use crate::channel::EventChannel;
use crate::event::EventRecord;

verus! {

/// Status returned to the attach mechanism when the event was accepted.
pub const STATUS_SUCCESS: u32 = 0;

/// Status returned to the attach mechanism when the channel rejected the event.
pub const STATUS_EMIT_FAILED: u32 = 1;

/// The machine-state snapshot handed to the handler on each invocation of the
/// traced kernel function. The handler borrows it for the duration of one call,
/// never mutates it, and never keeps it; the only parts the event stream needs
/// are the core and process identifiers of the invocation.
#[derive(Clone, Copy, PartialEq, Eq, Structural, Debug)]
pub struct ProbeContext {
    /// Identifier of the processor core executing the traced function.
    pub cpu: u32,
    /// Identifier of the process that is current in the traced path.
    pub pid: u32,
}

/// The record one invocation writes: the fixed payload tagged with the
/// invoking context's metadata.
pub open spec fn record_of(ctx: ProbeContext) -> EventRecord {
    EventRecord { cpu: ctx.cpu, pid: ctx.pid }
}

/// The status one invocation returns, determined by the channel state it sees
/// and by nothing else.
pub open spec fn status_of(chan: EventChannel) -> u32 {
    if chan.has_room() {
        STATUS_SUCCESS
    } else {
        STATUS_EMIT_FAILED
    }
}

/// The channel contents after one invocation: the record is appended when the
/// channel had room, and nothing changes when it was full.
pub open spec fn records_after(chan: EventChannel, ctx: ProbeContext) -> Seq<EventRecord> {
    if chan.has_room() {
        chan.records().push(record_of(ctx))
    } else {
        chan.records()
    }
}

/// One invocation of the probe body: makes exactly one write attempt on the
/// channel and reports it as `Ok(STATUS_SUCCESS)` when the channel accepted
/// the record, and as `Err(STATUS_EMIT_FAILED)` when it rejected it. The
/// failure is not retried and not escalated; it is converted to the error
/// value and returned at once.
pub fn try_latinject(ctx: &ProbeContext, chan: &mut EventChannel) -> (res: Result<u32, u32>)
    requires
        old(chan).wf(),
    ensures
        final(chan).wf(),
        final(chan).capacity() == old(chan).capacity(),
        final(chan).attempts() == old(chan).attempts() + 1,
        final(chan).records() == records_after(*old(chan), *ctx),
        res == (if old(chan).has_room() {
            Ok::<u32, u32>(STATUS_SUCCESS)
        } else {
            Err::<u32, u32>(STATUS_EMIT_FAILED)
        }),
{
    let rec = EventRecord { cpu: ctx.cpu, pid: ctx.pid };
    if chan.try_write(rec) {
        Ok(STATUS_SUCCESS)
    } else {
        Err(STATUS_EMIT_FAILED)
    }
}

/// The probe handler: on each invocation of the traced kernel function it
/// makes exactly one event-write attempt and returns a status code, zero
/// exactly when the channel accepted the record. It mutates nothing but the
/// channel, holds no state of its own across invocations, and never panics.
pub fn latinject(ctx: &ProbeContext, chan: &mut EventChannel) -> (status: u32)
    requires
        old(chan).wf(),
    ensures
        final(chan).wf(),
        final(chan).capacity() == old(chan).capacity(),
        final(chan).attempts() == old(chan).attempts() + 1,
        final(chan).records() == records_after(*old(chan), *ctx),
        status == status_of(*old(chan)),
        status == STATUS_SUCCESS <==> old(chan).has_room(),
        status != STATUS_SUCCESS ==> final(chan).records() == old(chan).records(),
{
    match try_latinject(ctx, chan) {
        Ok(ret) => ret,
        Err(ret) => ret,
    }
}

/// What one invocation hands back to the attach mechanism. `Halted` is the
/// terminal variant for a control path the restricted runtime requires to be
/// handled but that has no recovery: it aborts the one invocation without
/// unwinding. Normal operation never produces it, which `invoke` proves.
#[derive(Clone, Copy, PartialEq, Eq, Structural, Debug)]
pub enum HookOutcome {
    /// The invocation ran to completion and returned this status code.
    Completed(u32),
    /// The invocation reached a divergent control path and was aborted.
    Halted,
}

/// One full invocation as the attach mechanism sees it. Every control path of
/// the handler is covered, so the outcome is always `Completed`: the terminal
/// `Halted` variant is never produced.
pub fn invoke(ctx: &ProbeContext, chan: &mut EventChannel) -> (out: HookOutcome)
    requires
        old(chan).wf(),
    ensures
        final(chan).wf(),
        final(chan).capacity() == old(chan).capacity(),
        final(chan).attempts() == old(chan).attempts() + 1,
        final(chan).records() == records_after(*old(chan), *ctx),
        out == HookOutcome::Completed(status_of(*old(chan))),
        out != HookOutcome::Halted,
{
    let status = latinject(ctx, chan);
    HookOutcome::Completed(status)
}

/// Invocations are independent: the status one invocation returns is
/// determined by the occupancy and capacity of the channel it writes to and by
/// nothing else. Two invocations that see channels of equal occupancy and
/// capacity return the same status, whatever either channel went through
/// before and whatever contexts the invocations carry.
pub proof fn lemma_invocations_independent(c1: EventChannel, c2: EventChannel)
    requires
        c1.records().len() == c2.records().len(),
        c1.capacity() == c2.capacity(),
    ensures
        status_of(c1) == status_of(c2),
{
}

/// How many of `n` triggers a channel in state `chan` accepts before it is
/// full: all of them when there is room for all, and otherwise exactly as many
/// as fill the remaining room.
pub open spec fn accepted_of(chan: EventChannel, n: int) -> int {
    let room = chan.capacity() - chan.records().len();
    if n <= room {
        n
    } else {
        room
    }
}

/// Runs the handler once per context in `ctxs`, in order, against one channel:
/// a sequence of triggers of the traced kernel function as the channel sees
/// them. Each invocation makes exactly one write attempt and the channel is
/// append-only. The first triggers for which there is room all succeed and
/// append their records in invocation order — in particular, when the channel
/// has room for every trigger, every status is `STATUS_SUCCESS` — and every
/// trigger after the channel is full returns `STATUS_EMIT_FAILED` and leaves
/// the contents unchanged.
pub fn run_invocations(ctxs: &Vec<ProbeContext>, chan: &mut EventChannel) -> (statuses: Vec<u32>)
    requires
        old(chan).wf(),
    ensures
        final(chan).wf(),
        final(chan).capacity() == old(chan).capacity(),
        statuses@.len() == ctxs@.len(),
        final(chan).attempts() == old(chan).attempts() + ctxs@.len(),
        old(chan).records().is_prefix_of(final(chan).records()),
        forall|i: int|
            0 <= i < statuses@.len() ==> statuses@[i] == (if old(chan).records().len() + i < old(
                chan,
            ).capacity() {
                STATUS_SUCCESS
            } else {
                STATUS_EMIT_FAILED
            }),
        final(chan).records() == old(chan).records() + ctxs@.take(
            accepted_of(*old(chan), ctxs@.len() as int),
        ).map(|i: int, c: ProbeContext| record_of(c)),
{
    let mut statuses: Vec<u32> = Vec::new();
    let mut k: usize = 0;
    while k < ctxs.len()
        invariant
            chan.wf(),
            chan.capacity() == old(chan).capacity(),
            k <= ctxs@.len(),
            statuses@.len() == k,
            chan.attempts() == old(chan).attempts() + k,
            old(chan).records().is_prefix_of(chan.records()),
            forall|i: int|
                0 <= i < k ==> statuses@[i] == (if old(chan).records().len() + i < old(
                    chan,
                ).capacity() {
                    STATUS_SUCCESS
                } else {
                    STATUS_EMIT_FAILED
                }),
            chan.records() == old(chan).records() + ctxs@.take(
                accepted_of(*old(chan), k as int),
            ).map(|i: int, c: ProbeContext| record_of(c)),
        decreases ctxs@.len() - k,
    {
        let ghost prev = *chan;
        let s = latinject(&ctxs[k], chan);
        statuses.push(s);
        proof {
            if prev.has_room() {
                assert(prev.records().is_prefix_of(chan.records())) by {
                    assert(chan.records().subrange(0, prev.records().len() as int)
                        =~= prev.records());
                }
            }
            assert(chan.records() =~= old(chan).records() + ctxs@.take(
                accepted_of(*old(chan), k + 1),
            ).map(|i: int, c: ProbeContext| record_of(c)));
        }
        k = k + 1;
    }
    statuses
}

} // verus!

