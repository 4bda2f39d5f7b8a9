//! Decision rules of the cancellable transfer loop: how each read
//! outcome and each poll of the cancellation channel is acted on, and a
//! step-by-step model of the loop that runs those rules over a scripted
//! sequence of outcomes.

use vstd::prelude::*;

verus! {

/// The closed set of outcomes a blocking read can end in. `Success`
/// means a report was transferred; `Timeout` is a normal empty poll;
/// `NoDevice` means the device is gone; `Other` is any further
/// transfer error.
#[derive(Clone, Copy, Debug, PartialEq, Eq, Structural)]
pub enum TransferOutcome {
    Success,
    Timeout,
    NoDevice,
    Other,
}

/// What one non-blocking poll of the cancellation channel found:
/// an explicit `Stop` value, nothing (`Empty`), a dropped sender
/// (`Disconnected`), or any other value (`Signal`).
#[derive(Clone, Copy, Debug, PartialEq, Eq, Structural)]
pub enum CancelPoll {
    Stop,
    Empty,
    Disconnected,
    Signal,
}

/// Why a run of the loop ended: the device vanished, a cancellation
/// signal was observed, or the scripted outcomes ran out.
#[derive(Clone, Copy, Debug, PartialEq, Eq, Structural)]
pub enum StopCause {
    DeviceGone,
    Cancelled,
    ScriptExhausted,
}

/// What a run of the transfer loop did: how many reports it forwarded,
/// how many reads it performed, and why it stopped.
#[derive(Clone, Copy, Debug, PartialEq, Eq, Structural)]
pub struct LoopRun {
    pub forwarded: usize,
    pub reads: usize,
    pub cause: StopCause,
}

/// Whether the loop goes on after this read outcome: every outcome but
/// `NoDevice` is retried or forwarded.
pub open spec fn outcome_continues_spec(o: TransferOutcome) -> bool {
    o != TransferOutcome::NoDevice
}

/// Whether the outcome carries a report to forward to the sink.
pub open spec fn outcome_forwards_spec(o: TransferOutcome) -> bool {
    o == TransferOutcome::Success
}

/// Whether the loop goes on after this poll of the cancellation
/// channel: only an empty channel does; a `Stop` value, a disconnected
/// channel, and any other value all end the loop.
pub open spec fn poll_continues_spec(p: CancelPoll) -> bool {
    p == CancelPoll::Empty
}

/// Acts on one read outcome: the loop continues on everything but
/// `NoDevice`.
pub fn outcome_continues(o: &TransferOutcome) -> (c: bool)
    ensures
        c == outcome_continues_spec(*o),
{
    match o {
        TransferOutcome::NoDevice => false,
        _ => true,
    }
}

/// Whether this outcome hands a report to the caller's sink.
pub fn outcome_forwards(o: &TransferOutcome) -> (f: bool)
    ensures
        f == outcome_forwards_spec(*o),
{
    match o {
        TransferOutcome::Success => true,
        _ => false,
    }
}

/// Acts on one poll of the cancellation channel: the loop continues
/// only when the channel was empty.
pub fn poll_continues(p: &CancelPoll) -> (c: bool)
    ensures
        c == poll_continues_spec(*p),
{
    match p {
        CancelPoll::Empty => true,
        _ => false,
    }
}

/// When a session's loop honours the cancellation token. Under
/// `OnSignal` a removal notification stops the loop within one read;
/// under `OnDeviceGoneOnly` the loop ends only when the transfer
/// itself reports the device gone. Which of the two a workflow wants
/// is its configuration, not a property of the loop.
#[derive(Clone, Copy, Debug, PartialEq, Eq, Structural)]
pub enum StopPolicy {
    OnSignal,
    OnDeviceGoneOnly,
}

/// Whether a poll of the cancellation channel ends the loop under the
/// given policy: only under `OnSignal`, and only for a non-empty
/// channel.
pub fn poll_ends_loop(policy: &StopPolicy, poll: &CancelPoll) -> (b: bool)
    ensures
        b == (*policy == StopPolicy::OnSignal && !poll_continues_spec(*poll)),
{
    match policy {
        StopPolicy::OnSignal => !poll_continues(poll),
        StopPolicy::OnDeviceGoneOnly => false,
    }
}

/// The poll the loop sees at iteration `i`: the scripted value, or
/// `Empty` once the poll script is exhausted.
pub open spec fn poll_at(polls: Seq<CancelPoll>, i: int) -> CancelPoll {
    if 0 <= i < polls.len() {
        polls[i]
    } else {
        CancelPoll::Empty
    }
}

/// The loop's behaviour from iteration `i` on: reports forwarded,
/// reads performed, and the cause of the stop. Each iteration reads
/// one outcome; `NoDevice` ends the loop at once, anything else is
/// followed by one poll of the cancellation channel, and a non-empty
/// poll ends the loop after that iteration.
pub open spec fn loop_model_from(
    outcomes: Seq<TransferOutcome>,
    polls: Seq<CancelPoll>,
    i: int,
) -> (nat, nat, StopCause)
    decreases outcomes.len() - i,
{
    if i < 0 || i >= outcomes.len() {
        (0nat, 0nat, StopCause::ScriptExhausted)
    } else if !outcome_continues_spec(outcomes[i]) {
        (0nat, 1nat, StopCause::DeviceGone)
    } else {
        let f: nat = if outcome_forwards_spec(outcomes[i]) {
            1nat
        } else {
            0nat
        };
        if poll_continues_spec(poll_at(polls, i)) {
            let rest = loop_model_from(outcomes, polls, i + 1);
            ((f + rest.0) as nat, (1 + rest.1) as nat, rest.2)
        } else {
            (f, 1nat, StopCause::Cancelled)
        }
    }
}

/// The whole loop's behaviour over the scripted outcomes and polls.
pub open spec fn loop_model(outcomes: Seq<TransferOutcome>, polls: Seq<CancelPoll>) -> (
    nat,
    nat,
    StopCause,
) {
    loop_model_from(outcomes, polls, 0)
}

/// Runs the transfer loop's rules over a scripted sequence of read
/// outcomes and cancellation polls, and reports what the loop did.
/// The real loop behaves the same way on the outcomes its blocking
/// reads and channel polls return.
pub fn run_transfer_script(outcomes: &Vec<TransferOutcome>, polls: &Vec<CancelPoll>) -> (r: LoopRun)
    ensures
        r.forwarded as nat == loop_model(outcomes@, polls@).0,
        r.reads as nat == loop_model(outcomes@, polls@).1,
        r.cause == loop_model(outcomes@, polls@).2,
{
    let ghost m0 = loop_model(outcomes@, polls@);
    let mut forwarded: usize = 0;
    let mut i: usize = 0;
    loop
        invariant
            m0 == loop_model(outcomes@, polls@),
            0 <= i <= outcomes@.len(),
            forwarded <= i,
            m0.0 == forwarded + loop_model_from(outcomes@, polls@, i as int).0,
            m0.1 == i + loop_model_from(outcomes@, polls@, i as int).1,
            m0.2 == loop_model_from(outcomes@, polls@, i as int).2,
        decreases outcomes@.len() - i,
    {
        let ghost mi = loop_model_from(outcomes@, polls@, i as int);
        if i >= outcomes.len() {
            proof {
                assert(mi == (0nat, 0nat, StopCause::ScriptExhausted));
            }
            return LoopRun { forwarded, reads: i, cause: StopCause::ScriptExhausted };
        }
        let outcome = outcomes[i];
        if !outcome_continues(&outcome) {
            proof {
                assert(mi == (0nat, 1nat, StopCause::DeviceGone));
            }
            return LoopRun { forwarded, reads: i + 1, cause: StopCause::DeviceGone };
        }
        let ghost f0: nat = if outcome_forwards_spec(outcome) {
            1nat
        } else {
            0nat
        };
        if outcome_forwards(&outcome) {
            forwarded = forwarded + 1;
        }
        let poll = if i < polls.len() {
            polls[i]
        } else {
            CancelPoll::Empty
        };
        proof {
            assert(poll == poll_at(polls@, i as int));
        }
        if !poll_continues(&poll) {
            proof {
                assert(mi == (f0, 1nat, StopCause::Cancelled));
            }
            return LoopRun { forwarded, reads: i + 1, cause: StopCause::Cancelled };
        }
        proof {
            let rest = loop_model_from(outcomes@, polls@, i + 1);
            assert(mi == ((f0 + rest.0) as nat, (1 + rest.1) as nat, rest.2));
        }
        i = i + 1;
    }
}

/// Cancellation is observed within one read: whenever the channel
/// holds anything but `Empty` at iteration `k` of the script, the loop
/// performs at most `k + 1` reads, whatever the transfer outcomes are.
pub proof fn lemma_cancel_observed_within_one_read(
    outcomes: Seq<TransferOutcome>,
    polls: Seq<CancelPoll>,
    k: int,
)
    requires
        0 <= k < outcomes.len(),
        !poll_continues_spec(poll_at(polls, k)),
    ensures
        loop_model(outcomes, polls).1 <= k + 1,
    decreases k,
{
    if k > 0 {
        lemma_cancel_tail_bound(outcomes, polls, 0, k);
    }
}

/// Helper for the cancellation bound: from any iteration `i` at or
/// before the signalled iteration `k`, at most `k - i + 1` reads
/// remain.
proof fn lemma_cancel_tail_bound(
    outcomes: Seq<TransferOutcome>,
    polls: Seq<CancelPoll>,
    i: int,
    k: int,
)
    requires
        0 <= i <= k < outcomes.len(),
        !poll_continues_spec(poll_at(polls, k)),
    ensures
        loop_model_from(outcomes, polls, i).1 <= k - i + 1,
    decreases k - i,
{
    if i < k {
        lemma_cancel_tail_bound(outcomes, polls, i + 1, k);
    }
}

/// The loop runs up to the first `NoDevice` and no further: if every
/// earlier outcome continues the loop and every earlier poll is empty,
/// a `NoDevice` at iteration `k` ends the loop with exactly `k + 1`
/// reads, reported as the device being gone.
pub proof fn lemma_device_gone_ends_loop(
    outcomes: Seq<TransferOutcome>,
    polls: Seq<CancelPoll>,
    k: int,
)
    requires
        0 <= k < outcomes.len(),
        !outcome_continues_spec(outcomes[k]),
        forall|j: int| 0 <= j < k ==> outcome_continues_spec(#[trigger] outcomes[j]),
        forall|j: int| 0 <= j < k ==> poll_continues_spec(poll_at(polls, j)),
    ensures
        loop_model(outcomes, polls).1 == k + 1,
        loop_model(outcomes, polls).2 == StopCause::DeviceGone,
    decreases k,
{
    lemma_device_gone_tail(outcomes, polls, 0, k);
}

/// Helper for the device-gone law, running from iteration `i`.
proof fn lemma_device_gone_tail(
    outcomes: Seq<TransferOutcome>,
    polls: Seq<CancelPoll>,
    i: int,
    k: int,
)
    requires
        0 <= i <= k < outcomes.len(),
        !outcome_continues_spec(outcomes[k]),
        forall|j: int| i <= j < k ==> outcome_continues_spec(#[trigger] outcomes[j]),
        forall|j: int| i <= j < k ==> poll_continues_spec(poll_at(polls, j)),
    ensures
        loop_model_from(outcomes, polls, i).1 == k - i + 1,
        loop_model_from(outcomes, polls, i).2 == StopCause::DeviceGone,
    decreases k - i,
{
    if i < k {
        lemma_device_gone_tail(outcomes, polls, i + 1, k);
    }
}

/// How many of the given outcomes carry a report.
pub open spec fn count_successes(outcomes: Seq<TransferOutcome>) -> nat
    decreases outcomes.len(),
{
    if outcomes.len() == 0 {
        0nat
    } else {
        (count_successes(outcomes.drop_last()) + if outcome_forwards_spec(
            outcomes.last(),
        ) {
            1nat
        } else {
            0nat
        }) as nat
    }
}

/// Exactly the successful reads are forwarded: a run forwards one
/// report per `Success` among the outcomes it consumed, and no other.
pub proof fn lemma_forwarded_counts_successes(
    outcomes: Seq<TransferOutcome>,
    polls: Seq<CancelPoll>,
)
    ensures
        loop_model(outcomes, polls).0 == count_successes(
            outcomes.take(loop_model(outcomes, polls).1 as int),
        ),
        loop_model(outcomes, polls).1 <= outcomes.len(),
{
    lemma_forwarded_tail(outcomes, polls, 0);
}

/// Helper for the forwarding count, running from iteration `i`.
proof fn lemma_forwarded_tail(outcomes: Seq<TransferOutcome>, polls: Seq<CancelPoll>, i: int)
    requires
        0 <= i <= outcomes.len(),
    ensures
        loop_model_from(outcomes, polls, i).0 == count_successes(
            outcomes.subrange(i, i + loop_model_from(outcomes, polls, i).1 as int),
        ),
        i + loop_model_from(outcomes, polls, i).1 <= outcomes.len(),
    decreases outcomes.len() - i,
{
    let m = loop_model_from(outcomes, polls, i);
    assert(count_successes(Seq::<TransferOutcome>::empty()) == 0);
    if i == outcomes.len() {
        assert(outcomes.subrange(i, i) =~= Seq::<TransferOutcome>::empty());
    } else if !outcome_continues_spec(outcomes[i]) {
        assert(outcomes.subrange(i, i + 1).drop_last() =~= Seq::<TransferOutcome>::empty());
        assert(outcomes.subrange(i, i + 1).last() == outcomes[i]);
    } else if poll_continues_spec(poll_at(polls, i)) {
        lemma_forwarded_tail(outcomes, polls, i + 1);
        let rest = loop_model_from(outcomes, polls, i + 1);
        lemma_count_prepend(outcomes, i, i + 1 + rest.1 as int);
        assert(outcomes.subrange(i, i + m.1 as int) =~= outcomes.subrange(
            i,
            i + 1 + rest.1 as int,
        ));
    } else {
        assert(outcomes.subrange(i, i + 1).drop_last() =~= Seq::<TransferOutcome>::empty());
        assert(outcomes.subrange(i, i + 1).last() == outcomes[i]);
    }
}

/// Counting successes over `[i, end)` adds the contribution of the
/// first outcome to the count over `[i + 1, end)`.
proof fn lemma_count_prepend(outcomes: Seq<TransferOutcome>, i: int, end: int)
    requires
        0 <= i < end <= outcomes.len(),
    ensures
        count_successes(outcomes.subrange(i, end)) == count_successes(
            outcomes.subrange(i + 1, end),
        ) + if outcome_forwards_spec(outcomes[i]) {
            1nat
        } else {
            0nat
        },
    decreases end - i,
{
    if end == i + 1 {
        assert(outcomes.subrange(i, i + 1).drop_last() =~= Seq::<TransferOutcome>::empty());
        assert(outcomes.subrange(i, i + 1).last() == outcomes[i]);
        assert(outcomes.subrange(i + 1, i + 1) =~= Seq::<TransferOutcome>::empty());
    } else {
        lemma_count_prepend(outcomes, i, end - 1);
        assert(outcomes.subrange(i, end).drop_last() =~= outcomes.subrange(i, end - 1));
        assert(outcomes.subrange(i + 1, end).drop_last() =~= outcomes.subrange(i + 1, end - 1));
        assert(outcomes.subrange(i, end).last() == outcomes[end - 1]);
        assert(outcomes.subrange(i + 1, end).last() == outcomes[end - 1]);
    }
}

} // verus!
