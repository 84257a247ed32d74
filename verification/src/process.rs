//! How the service's process, and all it has started, is brought to an end.
//!
//! The process and all it has started are asked to terminate. The process is
//! polled until it has exited or its grace period is over; then whatever is left
//! of them is killed, and the process is waited for.

use crate::text;
use vstd::prelude::*;

verus! {

/// How long the process may take to terminate, in milliseconds.
pub const GRACE_MILLIS: u64 = 3000;

/// How long the shell sleeps between two polls, in milliseconds.
pub const POLL_MILLIS: u64 = 50;

/// The service's process, as long as it has not been stopped: its id.
pub struct HarnessProcess {
    pub child: Option<u32>,
}

/// One thing that the shell is asked to do.
#[derive(Clone, Copy, Debug, PartialEq, Eq, Structural)]
pub enum StopAction {
    /// Ask the process, and all it has started, to terminate.
    Terminate { pid: u32 },
    /// Tell how many milliseconds have passed since that.
    ReadClock,
    /// Tell whether the process has exited.
    Poll,
    /// Sleep for so many milliseconds.
    Sleep { millis: u64 },
    /// Kill the process, and all it has started, as far as they still run.
    Kill { pid: u32 },
    /// Wait until the process has exited.
    Wait,
}

/// How an action went.
#[derive(Clone, Copy, Debug, PartialEq, Eq, Structural)]
pub enum StopEvent {
    /// It was tried.
    Done,
    /// So many milliseconds have passed.
    Elapsed { millis: u64 },
    /// Whether the process is known to have exited.
    Exited { exited: bool },
}

/// Which action the stop of a process is waiting for.
#[derive(Clone, Copy, Debug, PartialEq, Eq, Structural)]
pub enum StopPhase {
    Terminating { pid: u32 },
    Timing { pid: u32 },
    Polling { pid: u32 },
    Sleeping { pid: u32 },
    Killing { pid: u32 },
    Reaping { pid: u32 },
    /// It is over.
    Stopped,
}

/// Where the stop is, and the action that it needs next; it needs none once it
/// is over.
#[derive(Clone, Copy, Debug, PartialEq, Eq, Structural)]
pub struct StopStep {
    pub phase: StopPhase,
    pub action: Option<StopAction>,
}

/// How the stop of a process begins.
pub open spec fn stop_of(child: Option<u32>) -> StopStep {
    match child {
        Some(pid) => stopping(StopPhase::Terminating { pid }, StopAction::Terminate { pid }),
        None => stopped(),
    }
}

/// The stop needs this action.
pub open spec fn stopping(phase: StopPhase, action: StopAction) -> StopStep {
    StopStep { phase, action: Some(action) }
}

/// The stop is over.
pub open spec fn stopped() -> StopStep {
    StopStep { phase: StopPhase::Stopped, action: None }
}

/// How the stop goes on after the action that it was waiting for. That the
/// process has exited says nothing of what it has started, so a kill follows
/// either way.
pub open spec fn stop_after(phase: StopPhase, event: StopEvent) -> StopStep {
    match phase {
        StopPhase::Terminating { pid } | StopPhase::Sleeping { pid } => stopping(
            StopPhase::Timing { pid },
            StopAction::ReadClock,
        ),
        StopPhase::Timing { pid } => match event {
            StopEvent::Elapsed { millis } => if millis < GRACE_MILLIS {
                stopping(StopPhase::Polling { pid }, StopAction::Poll)
            } else {
                stopping(StopPhase::Killing { pid }, StopAction::Kill { pid })
            },
            _ => stopping(StopPhase::Timing { pid }, StopAction::ReadClock),
        },
        StopPhase::Polling { pid } => if event == (StopEvent::Exited { exited: true }) {
            stopping(StopPhase::Killing { pid }, StopAction::Kill { pid })
        } else {
            stopping(StopPhase::Sleeping { pid }, StopAction::Sleep { millis: POLL_MILLIS })
        },
        StopPhase::Killing { pid } => stopping(StopPhase::Reaping { pid }, StopAction::Wait),
        StopPhase::Reaping { .. } | StopPhase::Stopped => stopped(),
    }
}

impl HarnessProcess {
    /// Begins to stop the process. From then on there is none to stop: stopping
    /// again is over at once.
    pub fn stop(&mut self) -> (step: StopStep)
        ensures
            step == stop_of(old(self).child),
            final(self).child is None,
            stop_of(final(self).child) == stopped(),
    {
        match self.child.take() {
            Some(pid) => StopStep {
                phase: StopPhase::Terminating { pid },
                action: Some(StopAction::Terminate { pid }),
            },
            None => StopStep { phase: StopPhase::Stopped, action: None },
        }
    }
}

/// Goes on with a stop, after the action that it asked for.
pub fn continue_stop(phase: StopPhase, event: StopEvent) -> (step: StopStep)
    ensures
        step == stop_after(phase, event),
{
    match phase {
        StopPhase::Terminating { pid } | StopPhase::Sleeping { pid } => StopStep {
            phase: StopPhase::Timing { pid },
            action: Some(StopAction::ReadClock),
        },
        StopPhase::Timing { pid } => match event {
            StopEvent::Elapsed { millis } => if millis < GRACE_MILLIS {
                StopStep { phase: StopPhase::Polling { pid }, action: Some(StopAction::Poll) }
            } else {
                StopStep {
                    phase: StopPhase::Killing { pid },
                    action: Some(StopAction::Kill { pid }),
                }
            },
            _ => StopStep {
                phase: StopPhase::Timing { pid },
                action: Some(StopAction::ReadClock),
            },
        },
        StopPhase::Polling { pid } => match event {
            StopEvent::Exited { exited: true } => StopStep {
                phase: StopPhase::Killing { pid },
                action: Some(StopAction::Kill { pid }),
            },
            _ => StopStep {
                phase: StopPhase::Sleeping { pid },
                action: Some(StopAction::Sleep { millis: POLL_MILLIS }),
            },
        },
        StopPhase::Killing { pid } => StopStep {
            phase: StopPhase::Reaping { pid },
            action: Some(StopAction::Wait),
        },
        StopPhase::Reaping { .. } | StopPhase::Stopped => StopStep {
            phase: StopPhase::Stopped,
            action: None,
        },
    }
}

/// The number by which a Unix kill names the process group that `pid` leads:
/// the negative of the id, read as a signed number.
pub open spec fn group_of(pid: u32) -> int {
    if pid < 0x8000_0000 {
        -(pid as int)
    } else {
        0x1_0000_0000 - pid
    }
}

/// The number by which a Unix kill names the process group that `pid` leads.
pub fn process_group(pid: u32) -> (group: i32)
    requires
        pid != 0x8000_0000,
    ensures
        group == group_of(pid),
{
    if pid < 0x8000_0000 {
        -(pid as i32)
    } else {
        (0xffff_ffff - pid) as i32 + 1
    }
}

/// The arguments with which Windows' `taskkill` ends a process and all it has
/// started.
pub fn taskkill_arguments(pid: u32) -> (arguments: Vec<String>)
    ensures
        text::each(arguments@) == seq!["/PID"@, text::decimal_of(pid as nat), "/T"@, "/F"@],
{
    let mut arguments: Vec<String> = Vec::new();
    arguments.push("/PID".to_owned());
    arguments.push(text::decimal(pid as u64));
    arguments.push("/T".to_owned());
    arguments.push("/F".to_owned());
    assert(text::each(arguments@) =~= seq![
        "/PID"@,
        text::decimal_of(pid as nat),
        "/T"@,
        "/F"@,
    ]);
    arguments
}

/// How a stop stands after its actions went as `events` tell.
pub open spec fn stop_run(step: StopStep, events: Seq<StopEvent>) -> StopStep
    decreases events.len(),
{
    if events.len() == 0 || step.phase is Stopped {
        step
    } else {
        stop_run(stop_after(step.phase, events[0]), events.drop_first())
    }
}

/// The actions that were taken, one for each event.
pub open spec fn taken(step: StopStep, events: Seq<StopEvent>) -> Seq<StopAction>
    decreases events.len(),
{
    if events.len() == 0 || step.phase is Stopped {
        Seq::empty()
    } else {
        seq![step.action->0] + taken(stop_after(step.phase, events[0]), events.drop_first())
    }
}

/// A stop begins by asking the process and all it has started to terminate. It is
/// over only once they are gone: whatever still ran has been killed, and then the
/// process has been waited for. And the kill comes only where the process was
/// seen to have exited, or where the clock has shown that the grace period is
/// over.
pub proof fn law_stop_is_graceful(pid: u32, events: Seq<StopEvent>)
    ensures
        ({
            let done = taken(stop_of(Some(pid)), events);
            &&& done.len() > 0 ==> done[0] == (StopAction::Terminate { pid })
            &&& stop_run(stop_of(Some(pid)), events).phase is Stopped ==> gone(pid, done)
            &&& forall|i: int|
                0 <= i < done.len() && (#[trigger] done[i]) is Kill ==> done[i] == (
                StopAction::Kill { pid }) && i > 0 && due(events[i - 1])
        }),
{
    lemma_stop_run(pid, stop_of(Some(pid)), events);
}

/// The last two actions have made sure that the process and all it has started
/// are gone: they were killed, and the process was waited for.
pub open spec fn gone(pid: u32, done: Seq<StopAction>) -> bool {
    let last = done.len() - 1;
    last >= 1 && done[last - 1] == (StopAction::Kill { pid }) && done[last] == StopAction::Wait
}

/// A kill is due: the process has exited, or its grace period is over.
pub open spec fn due(event: StopEvent) -> bool {
    match event {
        StopEvent::Exited { exited } => exited,
        StopEvent::Elapsed { millis } => millis >= GRACE_MILLIS,
        StopEvent::Done => false,
    }
}

spec fn consistent(pid: u32, step: StopStep) -> bool {
    ||| step == stopping(StopPhase::Terminating { pid }, StopAction::Terminate { pid })
    ||| step == stopping(StopPhase::Timing { pid }, StopAction::ReadClock)
    ||| step == stopping(StopPhase::Polling { pid }, StopAction::Poll)
    ||| step == stopping(StopPhase::Sleeping { pid }, StopAction::Sleep { millis: POLL_MILLIS })
    ||| step == stopping(StopPhase::Killing { pid }, StopAction::Kill { pid })
    ||| step == stopping(StopPhase::Reaping { pid }, StopAction::Wait)
    ||| step == stopped()
}

proof fn lemma_stop_run(pid: u32, step: StopStep, events: Seq<StopEvent>)
    requires
        consistent(pid, step),
    ensures
        ({
            let done = taken(step, events);
            &&& done.len() <= events.len()
            &&& stop_run(step, events).phase is Stopped ==> step.phase is Stopped || gone(
                pid,
                done,
            ) || step.phase is Reaping && done =~= seq![StopAction::Wait]
            &&& forall|i: int|
                0 <= i < done.len() && (#[trigger] done[i]) is Kill ==> done[i] == (
                StopAction::Kill { pid }) && if i > 0 {
                    due(events[i - 1])
                } else {
                    step.phase is Killing
                }
        }),
    decreases events.len(),
{
    if events.len() > 0 && !(step.phase is Stopped) {
        let next = stop_after(step.phase, events[0]);
        let rest = events.drop_first();
        let later = taken(next, rest);
        let done = taken(step, events);
        lemma_stop_run(pid, next, rest);
        assert(done =~= seq![step.action->0] + later);
        assert forall|i: int| 0 <= i < done.len() && (#[trigger] done[i]) is Kill implies done[i]
            == (StopAction::Kill { pid }) && (if i > 0 {
            due(events[i - 1])
        } else {
            step.phase is Killing
        }) by {
            if i > 0 {
                assert(later[i - 1] == done[i]);
                if i > 1 {
                    assert(rest[i - 2] == events[i - 1]);
                }
            }
        }
        if stop_run(next, rest).phase is Stopped && gone(pid, later) {
            let last = later.len() - 1;
            assert(done[last + 1] == later[last]);
            assert(done[last] == later[last - 1]);
        }
        if next.phase is Stopped {
            assert(later.len() == 0);
        }
    }
}

/// Once the process has exited or the grace period is over, two more actions end
/// the stop: what is left is killed, and the process is waited for.
pub proof fn law_stop_ends_once_due(
    pid: u32,
    phase: StopPhase,
    event: StopEvent,
    rest: Seq<StopEvent>,
)
    requires
        ({
            ||| phase == (StopPhase::Polling { pid }) && event is Exited
            ||| phase == (StopPhase::Timing { pid }) && event is Elapsed
        }),
        due(event),
        rest.len() >= 2,
    ensures
        ({
            let step = stop_after(phase, event);
            &&& step.action == Some(StopAction::Kill { pid })
            &&& stop_run(step, rest) == stopped()
            &&& gone(pid, taken(step, rest))
        }),
{
    let step = stop_after(phase, event);
    let second = stop_after(step.phase, rest[0]);
    let third = stop_after(second.phase, rest.drop_first()[0]);
    assert(stop_run(step, rest) == stop_run(second, rest.drop_first()));
    assert(stop_run(second, rest.drop_first()) == stop_run(
        third,
        rest.drop_first().drop_first(),
    ));
    assert(taken(third, rest.drop_first().drop_first()) =~= Seq::<StopAction>::empty());
    assert(taken(second, rest.drop_first()) =~= seq![StopAction::Wait]);
    assert(taken(step, rest) =~= seq![StopAction::Kill { pid }, StopAction::Wait]);
}

/// A process that was started is asked to terminate, whichever it is, and from then
/// on there is none to stop.
pub proof fn law_a_process_is_stopped_once(
    process: &mut HarnessProcess,
    step: StopStep,
    again: &mut HarnessProcess,
    second: StopStep,
)
    requires
        call_ensures(HarnessProcess::stop, (process,), step),
        call_ensures(HarnessProcess::stop, (again,), second),
        old(again).child == final(process).child,
    ensures
        old(process).child matches Some(pid) ==> step.action == Some(StopAction::Terminate { pid })
            && step.phase == (StopPhase::Terminating { pid }),
        old(process).child is None ==> step.action is None && step.phase is Stopped,
        second.action is None && second.phase is Stopped,
{
}

/// Each round looks at the clock and, within the grace period of three seconds,
/// polls the process once, and sleeps for fifty milliseconds if it has not exited.
/// When it has, or when the time is over, what is left is killed, and then the
/// process is waited for, and that is the end. All of it is about the one process.
pub proof fn law_stop_goes_round(pid: u32, phase: StopPhase, event: StopEvent, step: StopStep)
    requires
        call_ensures(continue_stop, (phase, event), step),
    ensures
        phase == (StopPhase::Terminating { pid }) || phase == (StopPhase::Sleeping { pid }) ==> {
            &&& step.action == Some(StopAction::ReadClock)
            &&& step.phase == (StopPhase::Timing { pid })
        },
        phase == (StopPhase::Timing { pid }) ==> match event {
            StopEvent::Elapsed { millis } => {
                &&& millis < 3000 ==> step.action == Some(StopAction::Poll) && step.phase == (
                StopPhase::Polling { pid })
                &&& millis >= 3000 ==> step.action == Some(StopAction::Kill { pid }) && step.phase
                    == (StopPhase::Killing { pid })
            },
            _ => step.action == Some(StopAction::ReadClock) && step.phase == phase,
        },
        phase == (StopPhase::Polling { pid }) ==> if event == (StopEvent::Exited { exited: true }) {
            step.action == Some(StopAction::Kill { pid }) && step.phase == (StopPhase::Killing {
                pid,
            })
        } else {
            step.action == Some(StopAction::Sleep { millis: 50 }) && step.phase == (
            StopPhase::Sleeping { pid })
        },
        phase == (StopPhase::Killing { pid }) ==> step.action == Some(StopAction::Wait)
            && step.phase == (StopPhase::Reaping { pid }),
        phase is Reaping || phase is Stopped ==> step.action is None && step.phase is Stopped,
{
}

/// The group of a process is named by the number that, with the id, makes nothing:
/// as the machine adds, it is the negative of the id.
pub proof fn law_group_is_the_negative(pid: u32, group: i32)
    requires
        pid != 0x8000_0000,
        call_ensures(process_group, (pid,), group),
    ensures
        (group + pid) % 0x1_0000_0000 == 0,
        0 < pid < 0x8000_0000 ==> group == -(pid as int),
{
}

/// The task is named by its id in decimal, and ended with all it has started.
pub proof fn law_taskkill_names_the_process(pid: u32, arguments: Vec<String>)
    requires
        call_ensures(taskkill_arguments, (pid,), arguments),
    ensures
        arguments@.len() == 4,
        arguments@[0]@ == "/PID"@,
        text::value_of(arguments@[1]@) == pid,
        arguments@[1]@.len() > 1 ==> arguments@[1]@[0] != '0',
        forall|i: int|
            0 <= i < arguments@[1]@.len() ==> '0' <= #[trigger] arguments@[1]@[i] <= '9',
        arguments@[2]@ == "/T"@,
        arguments@[3]@ == "/F"@,
{
    let texts = text::each(arguments@);
    assert(texts.len() == arguments@.len());
    assert(texts[0] == arguments@[0]@ && texts[1] == arguments@[1]@);
    assert(texts[2] == arguments@[2]@ && texts[3] == arguments@[3]@);
    text::law_decimal_reads_back(pid as nat);
}

} // verus!
