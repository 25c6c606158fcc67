//! The dispatch rules as mathematics: which handler call each receive outcome
//! earns, and what a whole trace of outcomes amounts to.

use vstd::prelude::*;
use crate::envelope::{Call, Envelope, Received};

verus! {

/// Whether a receive outcome stops the worker: only a shutdown envelope does.
pub open spec fn stops<C>(received: Received<C>) -> bool {
    received matches Received::Message(Envelope::Shutdown)
}

/// The handler call that a running worker makes for one receive outcome: a
/// command envelope is handed over, a timeout earns a poll, and neither a
/// shutdown envelope nor a closed channel reaches the handler.
pub open spec fn call_for<C>(received: Received<C>) -> Option<Call<C>> {
    match received {
        Received::Message(Envelope::Cmd(cmd)) => Some(Call::Command(cmd)),
        Received::Message(Envelope::Shutdown) => None,
        Received::TimedOut => Some(Call::Poll),
        Received::Closed => None,
    }
}

/// The handler call that a worker makes for one receive outcome, given whether
/// it is running: a stopped worker makes none.
pub open spec fn next_call<C>(running: bool, received: Received<C>) -> Option<Call<C>> {
    if running {
        call_for(received)
    } else {
        None
    }
}

/// Whether a worker that starts out running is still running after the
/// outcomes of `trace`: none of them may be a shutdown.
pub open spec fn runs_through<C>(trace: Seq<Received<C>>) -> bool {
    forall|i: int| 0 <= i < trace.len() ==> !stops(#[trigger] trace[i])
}

/// `calls` with one more call at its end, if there is one.
pub open spec fn with_call<C>(calls: Seq<Call<C>>, call: Option<Call<C>>) -> Seq<Call<C>> {
    match call {
        Some(made) => calls.push(made),
        None => calls,
    }
}

/// The handler calls, in order, that a worker which starts out running makes
/// while it is fed the outcomes of `trace` one by one.
pub open spec fn calls_of<C>(trace: Seq<Received<C>>) -> Seq<Call<C>>
    decreases trace.len(),
{
    if trace.len() == 0 {
        Seq::empty()
    } else {
        let before = trace.drop_last();
        with_call(calls_of(before), next_call(runs_through(before), trace.last()))
    }
}

/// The commands, in order, among the outcomes of `trace`.
pub open spec fn commands_received<C>(trace: Seq<Received<C>>) -> Seq<C>
    decreases trace.len(),
{
    if trace.len() == 0 {
        Seq::empty()
    } else {
        let before = commands_received(trace.drop_last());
        match trace.last() {
            Received::Message(Envelope::Cmd(cmd)) => before.push(cmd),
            _ => before,
        }
    }
}

/// The commands, in order, among the handler calls `calls`.
pub open spec fn commands_handled<C>(calls: Seq<Call<C>>) -> Seq<C>
    decreases calls.len(),
{
    if calls.len() == 0 {
        Seq::empty()
    } else {
        let before = commands_handled(calls.drop_last());
        match calls.last() {
            Call::Command(cmd) => before.push(cmd),
            Call::Poll => before,
        }
    }
}

/// One more outcome extends the calls of a trace by what a single transition
/// of the worker earns, and the worker is running afterwards exactly if it was
/// running before and the outcome does not stop it.
pub proof fn lemma_trace_push<C>(trace: Seq<Received<C>>, received: Received<C>)
    ensures
        calls_of(trace.push(received)) == with_call(
            calls_of(trace),
            next_call(runs_through(trace), received),
        ),
        runs_through(trace.push(received)) == (runs_through(trace) && !stops(received)),
{
    let longer = trace.push(received);
    assert(longer.drop_last() =~= trace);
    assert(longer.last() == received);
    if runs_through(trace) && !stops(received) {
        assert forall|i: int| 0 <= i < longer.len() implies !stops(#[trigger] longer[i]) by {
            if i < trace.len() {
                assert(longer[i] == trace[i]);
            }
        }
    } else if !runs_through(trace) {
        let i = choose|i: int| 0 <= i < trace.len() && stops(#[trigger] trace[i]);
        assert(longer[i] == trace[i]);
    } else {
        assert(longer[trace.len() as int] == received);
    }
}

/// What the worker has called after the first `n` outcomes stays: the calls
/// of a prefix of a trace are a prefix of the calls of the trace.
pub proof fn lemma_calls_prefix<C>(trace: Seq<Received<C>>, n: int)
    requires
        0 <= n <= trace.len(),
    ensures
        calls_of(trace.take(n)).is_prefix_of(calls_of(trace)),
    decreases trace.len(),
{
    if n == trace.len() {
        assert(trace.take(n) =~= trace);
    } else {
        let before = trace.drop_last();
        lemma_calls_prefix(before, n);
        assert(before.take(n) =~= trace.take(n));
    }
}

/// A shutdown stops the worker for good: a trace with a shutdown at `at`
/// leaves the worker stopped, and no call is made for that outcome or for any
/// after it.
pub proof fn lemma_shutdown_stops<C>(trace: Seq<Received<C>>, at: int)
    requires
        0 <= at < trace.len(),
        stops(trace[at]),
    ensures
        !runs_through(trace),
        calls_of(trace) == calls_of(trace.take(at)),
    decreases trace.len(),
{
    let before = trace.drop_last();
    if at == trace.len() - 1 {
        assert(before =~= trace.take(at));
    } else {
        assert(before[at] == trace[at]);
        lemma_shutdown_stops(before, at);
        assert(before.take(at) =~= trace.take(at));
    }
}

/// An idle channel earns one poll per timeout: on a trace of timeouts alone
/// the worker keeps running, and its calls are as many polls as there were
/// timeouts.
pub proof fn lemma_idle_polls<C>(trace: Seq<Received<C>>)
    requires
        forall|i: int| 0 <= i < trace.len() ==> #[trigger] trace[i] == Received::<C>::TimedOut,
    ensures
        runs_through(trace),
        calls_of(trace).len() == trace.len(),
        forall|j: int| 0 <= j < trace.len() ==> #[trigger] calls_of(trace)[j] == Call::<C>::Poll,
    decreases trace.len(),
{
    if trace.len() > 0 {
        let before = trace.drop_last();
        assert forall|i: int| 0 <= i < before.len() implies #[trigger] before[i]
            == Received::<C>::TimedOut by {
            assert(before[i] == trace[i]);
        }
        lemma_idle_polls(before);
        assert(trace.last() == trace[trace.len() - 1]);
    }
}

/// A command that arrives while the worker runs is handed over exactly once
/// and at once: the outcome at `at` adds the one call `Command(cmd)` and
/// nothing else, no poll before it, and that call keeps its place in the
/// calls of the whole trace.
pub proof fn lemma_command_delivered<C>(trace: Seq<Received<C>>, at: int, cmd: C)
    requires
        0 <= at < trace.len(),
        runs_through(trace.take(at)),
        trace[at] == Received::Message(Envelope::Cmd(cmd)),
    ensures
        calls_of(trace.take(at + 1)) == calls_of(trace.take(at)).push(Call::Command(cmd)),
        calls_of(trace.take(at)).len() < calls_of(trace).len(),
        calls_of(trace)[calls_of(trace.take(at)).len() as int] == Call::Command(cmd),
{
    let upto = trace.take(at + 1);
    assert(upto.drop_last() =~= trace.take(at));
    assert(upto.last() == trace[at]);
    lemma_calls_prefix(trace, at + 1);
    let place = calls_of(trace.take(at)).len() as int;
    let made = calls_of(upto);
    assert(made[place] == Call::Command(cmd));
    assert(calls_of(trace).subrange(0, made.len() as int)[place] == calls_of(trace)[place]);
}

/// Commands are handled in the order of their arrival: of two commands that
/// arrive while the worker runs, the earlier is handed over strictly before
/// the later.
pub proof fn lemma_commands_in_order<C>(
    trace: Seq<Received<C>>,
    first: int,
    second: int,
    earlier: C,
    later: C,
)
    requires
        0 <= first < second < trace.len(),
        runs_through(trace.take(second)),
        trace[first] == Received::Message(Envelope::Cmd(earlier)),
        trace[second] == Received::Message(Envelope::Cmd(later)),
    ensures
        calls_of(trace.take(first)).len() < calls_of(trace.take(second)).len() < calls_of(
            trace,
        ).len(),
        calls_of(trace)[calls_of(trace.take(first)).len() as int] == Call::Command(earlier),
        calls_of(trace)[calls_of(trace.take(second)).len() as int] == Call::Command(later),
{
    assert forall|i: int| 0 <= i < trace.take(first).len() implies !stops(
        #[trigger] trace.take(first)[i],
    ) by {
        assert(trace.take(first)[i] == trace.take(second)[i]);
    }
    lemma_command_delivered(trace, first, earlier);
    lemma_command_delivered(trace, second, later);
    let upto = trace.take(second);
    lemma_calls_prefix(upto, first + 1);
    assert(upto.take(first + 1) =~= trace.take(first + 1));
}

/// While the worker runs, the commands it hands to its handler are exactly
/// the commands it received, each once and in the same order.
pub proof fn lemma_commands_preserved<C>(trace: Seq<Received<C>>)
    requires
        runs_through(trace),
    ensures
        commands_handled(calls_of(trace)) == commands_received(trace),
    decreases trace.len(),
{
    if trace.len() > 0 {
        let before = trace.drop_last();
        assert forall|i: int| 0 <= i < before.len() implies !stops(#[trigger] before[i]) by {
            assert(before[i] == trace[i]);
        }
        lemma_commands_preserved(before);
        match call_for(trace.last()) {
            Some(made) => {
                assert(calls_of(trace) == calls_of(before).push(made));
                assert(calls_of(trace).drop_last() =~= calls_of(before));
            },
            None => {
                assert(trace.last() == trace[trace.len() - 1]);
            },
        }
    }
}

} // verus!
