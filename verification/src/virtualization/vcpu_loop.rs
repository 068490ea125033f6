use vstd::prelude::*;

verus! {

/// What a look at a vcpu's command queue found.
#[derive(Debug, Clone, Copy, PartialEq, Eq, Structural)]
pub enum CommandPoll {
    /// A command waits; `resume` tells whether it asks the vcpu to run.
    Pending { resume: bool },
    /// No command waits.
    Empty,
    /// Every sender of commands is gone.
    Disconnected,
}

/// How the handling of a vm exit ended.
#[derive(Debug, Clone, Copy, PartialEq, Eq, Structural)]
pub enum ExitOutcome {
    /// The run was cancelled: the vcpu stops running until it is resumed.
    Canceled,
    /// The guest goes on where it stopped.
    Continue,
    /// The guest goes on after the instruction that made it exit.
    NextInstruction,
}

/// What the vcpu thread learned from the action it last performed.
#[derive(Debug, Clone, Copy, PartialEq, Eq, Structural)]
pub enum VcpuLoopEvent {
    /// What a look at the command queue, without waiting, found.
    Polled(CommandPoll),
    /// What a wait on the command queue ended with.
    Waited(CommandPoll),
    /// The vcpu ran, and its exit was handled with this outcome.
    Ran(ExitOutcome),
    /// The program counter holds this value.
    PcRead(u64),
    /// The last action (handling a command, writing the program counter) is done.
    Done,
}

/// What the vcpu thread does next.
#[derive(Debug, Clone, Copy, PartialEq, Eq, Structural)]
pub enum VcpuLoopAction {
    /// Look at the command queue without waiting.
    Poll,
    /// Handle the command that waits, and send its response.
    HandleCommand,
    /// Run the vcpu until it exits, and handle the exit.
    Run,
    /// Wait for a command.
    Wait,
    /// Read the program counter.
    ReadPc,
    /// Write this value to the program counter.
    WritePc(u64),
    /// End the thread: no command can come any more.
    Stop,
}

/// The state of a vcpu thread: whether the vcpu is to run.
#[derive(Debug, Clone, Copy, PartialEq, Eq, Structural)]
pub struct VcpuLoopState {
    pub running: bool,
}

/// The state and first action of a new vcpu thread: stopped, looking for a command.
pub open spec fn loop_start() -> (VcpuLoopState, VcpuLoopAction) {
    (VcpuLoopState { running: false }, VcpuLoopAction::Poll)
}

/// The state and first action of a new vcpu thread: stopped, looking for a command.
pub fn vcpu_loop_start() -> (r: (VcpuLoopState, VcpuLoopAction))
    ensures
        r == loop_start(),
        !r.0.running,
        r.1 == VcpuLoopAction::Poll,
{
    (VcpuLoopState { running: false }, VcpuLoopAction::Poll)
}

/// The next state and action of a vcpu thread, from its state and what its last action found.
pub open spec fn loop_step(state: VcpuLoopState, event: VcpuLoopEvent) -> (
    VcpuLoopState,
    VcpuLoopAction,
) {
    match event {
        VcpuLoopEvent::Polled(CommandPoll::Pending { resume })
        | VcpuLoopEvent::Waited(CommandPoll::Pending { resume }) => (
            VcpuLoopState { running: state.running || resume },
            VcpuLoopAction::HandleCommand,
        ),
        VcpuLoopEvent::Polled(CommandPoll::Empty) => (
            state,
            if state.running {
                VcpuLoopAction::Run
            } else {
                VcpuLoopAction::Wait
            },
        ),
        VcpuLoopEvent::Waited(CommandPoll::Empty) => (state, VcpuLoopAction::Wait),
        VcpuLoopEvent::Polled(CommandPoll::Disconnected)
        | VcpuLoopEvent::Waited(CommandPoll::Disconnected) => (state, VcpuLoopAction::Stop),
        VcpuLoopEvent::Ran(ExitOutcome::Canceled) => (
            VcpuLoopState { running: false },
            VcpuLoopAction::Poll,
        ),
        VcpuLoopEvent::Ran(ExitOutcome::Continue) => (state, VcpuLoopAction::Poll),
        VcpuLoopEvent::Ran(ExitOutcome::NextInstruction) => (state, VcpuLoopAction::ReadPc),
        VcpuLoopEvent::PcRead(pc) => (state, VcpuLoopAction::WritePc((pc + 4) as u64)),
        VcpuLoopEvent::Done => (state, VcpuLoopAction::Poll),
    }
}

/// One step of a vcpu thread: from its state and what its last action found, its next state
/// and action. A command that waits is handled before the vcpu runs again, and a command that
/// resumes the vcpu makes it run; the vcpu runs only while it is to run, and only once no
/// command waits; without a command and while stopped, the thread waits for one; a cancelled
/// run stops the vcpu; after an exit that asks for it, the program counter moves past the
/// instruction (4 bytes); once no command can come, the thread ends.
pub fn vcpu_loop_step(state: VcpuLoopState, event: VcpuLoopEvent) -> (r: (
    VcpuLoopState,
    VcpuLoopAction,
))
    requires
        event matches VcpuLoopEvent::PcRead(pc) ==> pc + 4 <= u64::MAX,
    ensures
        r == loop_step(state, event),
        event matches VcpuLoopEvent::Polled(CommandPoll::Pending { resume }) ==> r.0.running == (
        state.running || resume) && r.1 == VcpuLoopAction::HandleCommand,
        event matches VcpuLoopEvent::Waited(CommandPoll::Pending { resume }) ==> r.0.running == (
        state.running || resume) && r.1 == VcpuLoopAction::HandleCommand,
        event == VcpuLoopEvent::Polled(CommandPoll::Empty) ==> r.0 == state && (r.1
            == VcpuLoopAction::Run <==> state.running) && (r.1 == VcpuLoopAction::Wait
            <==> !state.running),
        event == VcpuLoopEvent::Waited(CommandPoll::Empty) ==> r.0 == state && r.1
            == VcpuLoopAction::Wait,
        event == VcpuLoopEvent::Polled(CommandPoll::Disconnected) || event
            == VcpuLoopEvent::Waited(CommandPoll::Disconnected) ==> r.1 == VcpuLoopAction::Stop,
        event == VcpuLoopEvent::Ran(ExitOutcome::Canceled) ==> !r.0.running && r.1
            == VcpuLoopAction::Poll,
        event == VcpuLoopEvent::Ran(ExitOutcome::Continue) ==> r.0 == state && r.1
            == VcpuLoopAction::Poll,
        event == VcpuLoopEvent::Ran(ExitOutcome::NextInstruction) ==> r.0 == state && r.1
            == VcpuLoopAction::ReadPc,
        event matches VcpuLoopEvent::PcRead(pc) ==> r.0 == state && r.1
            == VcpuLoopAction::WritePc((pc + 4) as u64),
        event == VcpuLoopEvent::Done ==> r.0 == state && r.1 == VcpuLoopAction::Poll,
        r.1 is Run ==> state.running && r.0.running && event == VcpuLoopEvent::Polled(
            CommandPoll::Empty,
        ),
{
    match event {
        VcpuLoopEvent::Polled(poll) | VcpuLoopEvent::Waited(poll) => match poll {
            CommandPoll::Pending { resume } => (
                VcpuLoopState { running: state.running || resume },
                VcpuLoopAction::HandleCommand,
            ),
            CommandPoll::Empty => {
                let polled = match event {
                    VcpuLoopEvent::Polled(_) => true,
                    _ => false,
                };
                if polled && state.running {
                    (state, VcpuLoopAction::Run)
                } else {
                    (state, VcpuLoopAction::Wait)
                }
            },
            CommandPoll::Disconnected => (state, VcpuLoopAction::Stop),
        },
        VcpuLoopEvent::Ran(outcome) => match outcome {
            ExitOutcome::Canceled => (VcpuLoopState { running: false }, VcpuLoopAction::Poll),
            ExitOutcome::Continue => (state, VcpuLoopAction::Poll),
            ExitOutcome::NextInstruction => (state, VcpuLoopAction::ReadPc),
        },
        VcpuLoopEvent::PcRead(pc) => (state, VcpuLoopAction::WritePc(pc + 4)),
        VcpuLoopEvent::Done => (state, VcpuLoopAction::Poll),
    }
}

/// A new vcpu thread starts stopped, looking for a command.
pub proof fn lemma_loop_start()
    ensures
        !loop_start().0.running,
        loop_start().1 == VcpuLoopAction::Poll,
{
}

/// The rules of one step of a vcpu thread: a command that waits, found by a poll or by a wait,
/// is handled next and leaves the vcpu running exactly when it was running or the command
/// resumes it; with no command the vcpu runs if it is to run and the thread waits otherwise; a
/// closed queue ends the thread; a cancelled run stops the vcpu; an exit that asks for it moves
/// the program counter 4 bytes on.
pub proof fn lemma_loop_step_rules(state: VcpuLoopState, event: VcpuLoopEvent)
    ensures
        ({
            let r = loop_step(state, event);
            &&& (event matches VcpuLoopEvent::Polled(CommandPoll::Pending { resume }) ==> r.0.running == (
                state.running || resume) && r.1 == VcpuLoopAction::HandleCommand)
            &&& (event matches VcpuLoopEvent::Waited(CommandPoll::Pending { resume }) ==> r.0.running == (
                state.running || resume) && r.1 == VcpuLoopAction::HandleCommand)
            &&& (event == VcpuLoopEvent::Polled(CommandPoll::Empty) ==> r.0 == state && (r.1
                == VcpuLoopAction::Run <==> state.running) && (r.1 == VcpuLoopAction::Wait
                <==> !state.running))
            &&& (event == VcpuLoopEvent::Waited(CommandPoll::Empty) ==> r.0 == state && r.1
                == VcpuLoopAction::Wait)
            &&& (event == VcpuLoopEvent::Polled(CommandPoll::Disconnected) || event
                == VcpuLoopEvent::Waited(CommandPoll::Disconnected) ==> r.1 == VcpuLoopAction::Stop)
            &&& (event == VcpuLoopEvent::Ran(ExitOutcome::Canceled) ==> !r.0.running && r.1
                == VcpuLoopAction::Poll)
            &&& (event == VcpuLoopEvent::Ran(ExitOutcome::Continue) ==> r.0 == state && r.1
                == VcpuLoopAction::Poll)
            &&& (event == VcpuLoopEvent::Ran(ExitOutcome::NextInstruction) ==> r.0 == state && r.1
                == VcpuLoopAction::ReadPc)
            &&& (event matches VcpuLoopEvent::PcRead(pc) ==> r.0 == state && r.1
                == VcpuLoopAction::WritePc((pc + 4) as u64))
            &&& (event == VcpuLoopEvent::Done ==> r.0 == state && r.1 == VcpuLoopAction::Poll)
        }),
{
}

/// The states and actions of a vcpu thread that learns `events` in turn: entry `i` is its state
/// and action after the first `i` events.
pub open spec fn loop_trace(events: Seq<VcpuLoopEvent>) -> Seq<(VcpuLoopState, VcpuLoopAction)>
    decreases events.len(),
{
    if events.len() == 0 {
        seq![loop_start()]
    } else {
        let before = loop_trace(events.drop_last());
        before.push(loop_step(before.last().0, events.last()))
    }
}

/// `event` is what performing `action` can find.
pub open spec fn answers(action: VcpuLoopAction, event: VcpuLoopEvent) -> bool {
    match action {
        VcpuLoopAction::Poll => event is Polled,
        VcpuLoopAction::Wait => event is Waited,
        VcpuLoopAction::HandleCommand => event is Done,
        VcpuLoopAction::Run => event is Ran,
        VcpuLoopAction::ReadPc => event is PcRead,
        VcpuLoopAction::WritePc(_) => event is Done,
        VcpuLoopAction::Stop => false,
    }
}

/// Each event of `events` is what the action before it found.
pub open spec fn loop_run(events: Seq<VcpuLoopEvent>) -> bool {
    forall|i: int| 0 <= i < events.len() ==> answers(#[trigger] loop_trace(events)[i].1, events[i])
}

/// `event` is a command that waits and resumes the vcpu.
pub open spec fn resume_pending(event: VcpuLoopEvent) -> bool {
    event == VcpuLoopEvent::Polled(CommandPoll::Pending { resume: true }) || event
        == VcpuLoopEvent::Waited(CommandPoll::Pending { resume: true })
}

proof fn lemma_trace_shape(events: Seq<VcpuLoopEvent>)
    ensures
        loop_trace(events).len() == events.len() + 1,
        loop_trace(events)[0] == loop_start(),
        forall|i: int|
            0 <= i < events.len() ==> #[trigger] loop_trace(events)[i + 1] == loop_step(
                loop_trace(events)[i].0,
                events[i],
            ),
    decreases events.len(),
{
    if events.len() > 0 {
        let d = events.drop_last();
        lemma_trace_shape(d);
        assert forall|i: int| 0 <= i < events.len() implies #[trigger] loop_trace(events)[i + 1]
            == loop_step(loop_trace(events)[i].0, events[i]) by {
            if i < events.len() - 1 {
                assert(loop_trace(d)[i + 1] == loop_step(loop_trace(d)[i].0, d[i]));
            }
        }
    }
}

/// Over any run of a vcpu thread: a command that waits is handled by the very next action, so
/// before the vcpu runs again; and whenever the vcpu runs, a command that resumed it was found
/// earlier and handled (its handling done) before that run.
pub proof fn lemma_commands_first_and_runs_after_resume(events: Seq<VcpuLoopEvent>)
    requires
        loop_run(events),
    ensures
        forall|j: int|
            0 <= j < events.len() && (#[trigger] events[j] matches VcpuLoopEvent::Polled(
                CommandPoll::Pending { .. },
            ) || events[j] matches VcpuLoopEvent::Waited(CommandPoll::Pending { .. }))
                ==> loop_trace(events)[j + 1].1 == VcpuLoopAction::HandleCommand,
        forall|k: int|
            0 <= k <= events.len() && (#[trigger] loop_trace(events)[k]).1 == VcpuLoopAction::Run
                ==> exists|j: int|
                0 <= j && j + 1 < k && resume_pending(#[trigger] events[j]) && events[j + 1]
                    == VcpuLoopEvent::Done,
{
    lemma_trace_shape(events);
    let t = loop_trace(events);
    assert forall|j: int|
        0 <= j < events.len() && (#[trigger] events[j] matches VcpuLoopEvent::Polled(
            CommandPoll::Pending { .. },
        ) || events[j] matches VcpuLoopEvent::Waited(CommandPoll::Pending { .. })) implies t[j
        + 1].1 == VcpuLoopAction::HandleCommand by {
        assert(t[j + 1] == loop_step(t[j].0, events[j]));
    }
    assert forall|k: int|
        0 <= k <= events.len() && (#[trigger] t[k]).1 == VcpuLoopAction::Run implies exists|
        j: int,
    | 0 <= j && j + 1 < k && resume_pending(#[trigger] events[j]) && events[j + 1]
        == VcpuLoopEvent::Done by {
        lemma_run_after_resume(events, k);
    }
}

proof fn lemma_run_after_resume(events: Seq<VcpuLoopEvent>, k: int)
    requires
        loop_run(events),
        0 <= k <= events.len(),
        loop_trace(events)[k].1 == VcpuLoopAction::Run,
    ensures
        exists|j: int|
            0 <= j && j + 1 < k && resume_pending(#[trigger] events[j]) && events[j + 1]
                == VcpuLoopEvent::Done,
{
    lemma_trace_shape(events);
    let t = loop_trace(events);
    // The first action is to look for a command, so a run follows an event.
    assert(k > 0) by {
        assert(t[0] == loop_start());
    }
    let p = k - 1;
    assert(t[p + 1] == loop_step(t[p].0, events[p]));
    assert(events[p] == VcpuLoopEvent::Polled(CommandPoll::Empty));
    assert(t[p].0.running);
    assert(answers(t[p].1, events[p]));
    assert(t[p].1 is Poll);
    lemma_running_has_resume(events, p);
    let j = choose|j: int|
        0 <= j && j + 1 <= p && resume_pending(#[trigger] events[j]) && t[j + 1].1
            == VcpuLoopAction::HandleCommand;
    assert(j + 1 < p);
    assert(answers(t[j + 1].1, events[j + 1]));
}

proof fn lemma_running_has_resume(events: Seq<VcpuLoopEvent>, i: int)
    requires
        0 <= i <= events.len(),
        loop_trace(events)[i].0.running,
    ensures
        exists|j: int|
            0 <= j && j + 1 <= i && resume_pending(#[trigger] events[j]) && loop_trace(
                events,
            )[j + 1].1 == VcpuLoopAction::HandleCommand,
    decreases i,
{
    lemma_trace_shape(events);
    let t = loop_trace(events);
    if i == 0 {
        assert(t[0] == loop_start());
    } else {
        let p = i - 1;
        assert(t[p + 1] == loop_step(t[p].0, events[p]));
        if resume_pending(events[i - 1]) {
            assert(t[i].1 == VcpuLoopAction::HandleCommand);
        } else {
            assert(t[i - 1].0.running);
            lemma_running_has_resume(events, i - 1);
        }
    }
}

} // verus!
