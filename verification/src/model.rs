//! Trace model of the counter: what one mutating event does to the count
//! and which external command executions it causes.
//!
//! Every mutation of the shared counter happens under the exclusive lock,
//! and any command run happens while that lock is still held, so the
//! mutations of the whole process form a single totally ordered trace of
//! events; the laws here are stated over such a trace.

use vstd::prelude::*;

verus! {

/// One mutating event of the counter: an increment attempt (carrying
/// whether the start command, if one was run first, succeeded) or a
/// decrement attempt.
#[derive(Clone, Copy, Debug)]
pub enum CounterEvent {
    Increment { start_ok: bool },
    Decrement,
}

/// The two external commands of the daemon.
#[derive(Clone, Copy, Debug)]
pub enum CommandKind {
    Start,
    End,
}

/// Whether an event applied to a counter at `count` succeeds: an increment
/// needs the start command to have succeeded when the count was zero and
/// room to grow; a decrement needs a positive count.
pub open spec fn event_succeeds(count: u64, e: CounterEvent) -> bool {
    match e {
        CounterEvent::Increment { start_ok } => (count > 0 || start_ok) && count < u64::MAX,
        CounterEvent::Decrement => count > 0,
    }
}

/// The count after one event: successful increments add one, successful
/// decrements subtract one, failed events leave the count unchanged.
pub open spec fn step_count(count: u64, e: CounterEvent) -> u64 {
    if event_succeeds(count, e) {
        match e {
            CounterEvent::Increment { .. } => (count + 1) as u64,
            CounterEvent::Decrement => (count - 1) as u64,
        }
    } else {
        count
    }
}

/// The command executions one event causes: an increment attempt at count
/// zero runs the start command (first, so it runs even if it then fails
/// the attempt), and a decrement from one runs the end command after the
/// count reaches zero.
pub open spec fn step_commands(count: u64, e: CounterEvent) -> Seq<CommandKind> {
    match e {
        CounterEvent::Increment { .. } => if count == 0 {
            seq![CommandKind::Start]
        } else {
            Seq::empty()
        },
        CounterEvent::Decrement => if count == 1 {
            seq![CommandKind::End]
        } else {
            Seq::empty()
        },
    }
}

/// The count after a whole trace of events, starting from `c0`.
pub open spec fn run_count(c0: u64, es: Seq<CounterEvent>) -> u64
    decreases es.len(),
{
    if es.len() == 0 {
        c0
    } else {
        step_count(run_count(c0, es.drop_last()), es.last())
    }
}

/// The command executions of a whole trace, in order.
pub open spec fn run_commands(c0: u64, es: Seq<CounterEvent>) -> Seq<CommandKind>
    decreases es.len(),
{
    if es.len() == 0 {
        Seq::empty()
    } else {
        run_commands(c0, es.drop_last()) + step_commands(run_count(c0, es.drop_last()), es.last())
    }
}

/// How many increments of the trace succeed.
pub open spec fn ok_increments(c0: u64, es: Seq<CounterEvent>) -> nat
    decreases es.len(),
{
    if es.len() == 0 {
        0
    } else {
        ok_increments(c0, es.drop_last()) + if es.last() is Increment
            && event_succeeds(run_count(c0, es.drop_last()), es.last()) {
            1nat
        } else {
            0nat
        }
    }
}

/// How many decrements of the trace succeed.
pub open spec fn ok_decrements(c0: u64, es: Seq<CounterEvent>) -> nat
    decreases es.len(),
{
    if es.len() == 0 {
        0
    } else {
        ok_decrements(c0, es.drop_last()) + if es.last() is Decrement
            && event_succeeds(run_count(c0, es.drop_last()), es.last()) {
            1nat
        } else {
            0nat
        }
    }
}

/// How many times the trace runs the start command.
pub open spec fn start_runs(c0: u64, es: Seq<CounterEvent>) -> nat
    decreases es.len(),
{
    if es.len() == 0 {
        0
    } else {
        start_runs(c0, es.drop_last()) + if es.last() is Increment
            && run_count(c0, es.drop_last()) == 0 {
            1nat
        } else {
            0nat
        }
    }
}

/// How many times the trace runs the end command.
pub open spec fn end_runs(c0: u64, es: Seq<CounterEvent>) -> nat
    decreases es.len(),
{
    if es.len() == 0 {
        0
    } else {
        end_runs(c0, es.drop_last()) + if es.last() is Decrement
            && run_count(c0, es.drop_last()) == 1 {
            1nat
        } else {
            0nat
        }
    }
}

/// How many steps of the trace take the count from zero to positive.
pub open spec fn up_edges(c0: u64, es: Seq<CounterEvent>) -> nat
    decreases es.len(),
{
    if es.len() == 0 {
        0
    } else {
        let c = run_count(c0, es.drop_last());
        up_edges(c0, es.drop_last()) + if c == 0 && step_count(c, es.last()) > 0 {
            1nat
        } else {
            0nat
        }
    }
}

/// How many steps of the trace take the count from positive to zero.
pub open spec fn down_edges(c0: u64, es: Seq<CounterEvent>) -> nat
    decreases es.len(),
{
    if es.len() == 0 {
        0
    } else {
        let c = run_count(c0, es.drop_last());
        down_edges(c0, es.drop_last()) + if c > 0 && step_count(c, es.last()) == 0 {
            1nat
        } else {
            0nat
        }
    }
}

/// Whether the command run of one event, if any, succeeded.
pub open spec fn event_ok(e: CounterEvent) -> bool {
    match e {
        CounterEvent::Increment { start_ok } => start_ok,
        CounterEvent::Decrement => true,
    }
}

/// Whether every start command run in the trace succeeded.
pub open spec fn all_commands_ok(es: Seq<CounterEvent>) -> bool {
    forall|i: int| 0 <= i < es.len() ==> event_ok(#[trigger] es[i])
}

/// Whether a command sequence strictly alternates, start command first.
pub open spec fn alternates_from_start(cmds: Seq<CommandKind>) -> bool {
    forall|i: int| 0 <= i < cmds.len() ==> ((#[trigger] cmds[i]) is Start <==> i % 2 == 0)
}

/// Law: after any trace, the count is the starting count plus the net of
/// successful increments and decrements, and the successful decrements
/// never outnumber what was available — the count cannot go negative, and
/// a decrement at zero never counts as applied.
pub proof fn lemma_count_is_net(c0: u64, es: Seq<CounterEvent>)
    ensures
        run_count(c0, es) + ok_decrements(c0, es) == c0 + ok_increments(c0, es),
        ok_decrements(c0, es) <= c0 + ok_increments(c0, es),
    decreases es.len(),
{
    if es.len() > 0 {
        lemma_count_is_net(c0, es.drop_last());
    }
}

/// Law: when no start command fails, the start command runs exactly once
/// per step that takes the count from zero to positive — once per maximal
/// interval with a positive count, at its opening edge.
pub proof fn lemma_start_runs_at_up_edges(c0: u64, es: Seq<CounterEvent>)
    requires
        all_commands_ok(es),
    ensures
        start_runs(c0, es) == up_edges(c0, es),
    decreases es.len(),
{
    if es.len() > 0 {
        assert(all_commands_ok(es.drop_last())) by {
            assert(forall|i: int| 0 <= i < es.len() - 1 ==> es.drop_last()[i] == es[i]);
        }
        lemma_start_runs_at_up_edges(c0, es.drop_last());
        assert(es[es.len() - 1] == es.last());
    }
}

/// Law: the end command runs exactly once per step that takes the count
/// from positive back to zero — once per maximal interval with a positive
/// count, at its closing edge.
pub proof fn lemma_end_runs_at_down_edges(c0: u64, es: Seq<CounterEvent>)
    ensures
        end_runs(c0, es) == down_edges(c0, es),
    decreases es.len(),
{
    if es.len() > 0 {
        lemma_end_runs_at_down_edges(c0, es.drop_last());
    }
}

/// Law: every command execution of a trace is one of its start or end
/// runs — the executions form a single totally ordered sequence with
/// nothing else in it.
pub proof fn lemma_commands_are_the_runs(c0: u64, es: Seq<CounterEvent>)
    ensures
        run_commands(c0, es).len() == start_runs(c0, es) + end_runs(c0, es),
    decreases es.len(),
{
    if es.len() > 0 {
        lemma_commands_are_the_runs(c0, es.drop_last());
    }
}

/// Law: started idle, with no failing start command, the command
/// executions of the trace strictly alternate — start, end, start, end,
/// … — and a start is still unmatched exactly while the count is
/// positive.
pub proof fn lemma_commands_alternate(es: Seq<CounterEvent>)
    requires
        all_commands_ok(es),
    ensures
        alternates_from_start(run_commands(0, es)),
        run_commands(0, es).len() % 2 == (if run_count(0, es) > 0 { 1nat } else { 0nat }),
    decreases es.len(),
{
    if es.len() > 0 {
        assert(all_commands_ok(es.drop_last())) by {
            assert(forall|i: int| 0 <= i < es.len() - 1 ==> es.drop_last()[i] == es[i]);
        }
        lemma_commands_alternate(es.drop_last());
        assert(es[es.len() - 1] == es.last());
        let c = run_count(0, es.drop_last());
        let prefix = run_commands(0, es.drop_last());
        let step = step_commands(c, es.last());
        assert(run_commands(0, es) == prefix + step);
        if step.len() == 0 {
            assert(run_commands(0, es) =~= prefix);
        } else {
            assert(forall|i: int| 0 <= i < prefix.len() ==> (prefix + step)[i] == prefix[i]);
            assert((prefix + step)[prefix.len() as int] == step[0]);
        }
    }
}

/// Law: starting from a zero count, with no failing start command, every
/// end-command run closes an earlier start-command run: the counts differ
/// by one exactly while the count is still positive.
pub proof fn lemma_runs_balanced(c0: u64, es: Seq<CounterEvent>)
    requires
        all_commands_ok(es),
    ensures
        start_runs(c0, es) + (if c0 > 0 { 1nat } else { 0nat }) == end_runs(c0, es) + (
        if run_count(c0, es) > 0 {
            1nat
        } else {
            0nat
        }),
    decreases es.len(),
{
    if es.len() > 0 {
        assert(all_commands_ok(es.drop_last())) by {
            assert(forall|i: int| 0 <= i < es.len() - 1 ==> es.drop_last()[i] == es[i]);
        }
        lemma_runs_balanced(c0, es.drop_last());
        assert(es[es.len() - 1] == es.last());
    }
}

} // verus!
