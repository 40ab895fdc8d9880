//! The generic machine framework: the state container, the dispatch traits,
//! the actor-loop kernel that decides how a worker reacts to each event, and
//! the controller that owns the command and response mailboxes.
//!
//! The controller processes commands strictly in submission order, one at a
//! time, so every response sequence it produces is the fold of the dispatch
//! model over the submitted commands.

use vstd::prelude::*;

verus! {

use core::marker::PhantomData;

/// A state container: binds a compile-time state tag to one exclusively
/// owned block of business data.
pub struct FSM<State, FsmData> {
    pub state: PhantomData<State>,
    pub data: Box<FsmData>,
}

/// The abstract content of a response: either the name of the state reached,
/// or the pre-transition state name together with the command that was
/// rejected.
pub enum ResponseModel {
    Status { state: Seq<char> },
    InvalidTransition { current_state: Seq<char>, attempted_command: Seq<char> },
}

/// Dispatch of one command against a state container: consumes the container
/// and produces the replacement wrapper and exactly one response. Each
/// implementation carries its own contract; a consumed container cannot be
/// used again.
pub trait StateHandler<Command, Response, FsmWrapper> {
    /// Handles a command and returns the new wrapper and the response.
    fn handle_cmd(self, cmd: Command) -> (FsmWrapper, Response);
}

/// A runtime wrapper usable as the machine a worker owns: handling a command
/// replaces the wrapper and yields exactly one response, and both are pinned,
/// at the level of the wrapper's and the response's views, as functions of
/// the previous view and the command alone. Dispatch is therefore total and
/// deterministic: the same command sequence from the same starting view
/// always produces the same view and response sequence.
pub trait Machine<Command, Response>: Sized + View where Response: View {
    /// The machine view after `cmd` is handled from view `m`.
    spec fn step_model(m: Self::V, cmd: Command) -> Self::V;

    /// The content of the single response to `cmd` handled from view `m`.
    spec fn resp_model(m: Self::V, cmd: Command) -> <Response as View>::V;

    /// Handles a command: consumes the wrapper, returns the replacement and
    /// the single response.
    fn handle_cmd(self, cmd: Command) -> (r: (Self, Response))
        ensures
            r.0@ == Self::step_model(self@, cmd),
            r.1@ == Self::resp_model(self@, cmd),
    ;
}

/// The worker's process-level phase: accepting work, draining what is still
/// inbound after a stop request, or terminated.
#[derive(Clone, Copy, Debug, PartialEq, Eq, Structural)]
pub enum ActorPhase {
    Running,
    Draining,
    Stopped,
}

/// One observation made by the worker between transitions: a command, an
/// empty inbound mailbox, a closed channel, or an explicit stop request.
pub enum ActorEvent<Command> {
    /// A command arrived on the inbound mailbox.
    Command(Command),
    /// The inbound mailbox is currently empty.
    InboundEmpty,
    /// The inbound mailbox is permanently closed: no command will ever arrive.
    InboundDisconnected,
    /// The controller asked the worker to stop accepting new commands.
    ShutdownRequested,
    /// The control channel is gone without an orderly stop request.
    ControlDisconnected,
    /// A response could not be delivered: the consumer is gone.
    PublishFailed,
}

/// The worker's next phase after observing `event` in `phase`.
pub open spec fn spec_actor_phase<Command>(phase: ActorPhase, event: ActorEvent<Command>) -> ActorPhase {
    match (phase, event) {
        (ActorPhase::Stopped, _) => ActorPhase::Stopped,
        (_, ActorEvent::Command(_)) => phase,
        (_, ActorEvent::InboundEmpty) => if phase is Draining {
            ActorPhase::Stopped
        } else {
            ActorPhase::Running
        },
        (_, ActorEvent::InboundDisconnected) => ActorPhase::Stopped,
        (_, ActorEvent::ShutdownRequested) => ActorPhase::Draining,
        (_, ActorEvent::ControlDisconnected) => ActorPhase::Stopped,
        (_, ActorEvent::PublishFailed) => ActorPhase::Stopped,
    }
}

/// Whether the worker dispatches a command for this observation: it does
/// exactly when a command arrives while the worker has not terminated.
pub open spec fn spec_actor_processes<Command>(phase: ActorPhase, event: ActorEvent<Command>) -> bool {
    phase !is Stopped && event is Command
}

/// The `Stopped` phase is terminal: no observation leaves it, and a stopped
/// worker never dispatches another command.
pub proof fn lemma_stopped_is_terminal<Command>(event: ActorEvent<Command>)
    ensures
        spec_actor_phase(ActorPhase::Stopped, event) == ActorPhase::Stopped,
        !spec_actor_processes(ActorPhase::Stopped, event),
{
}

/// The worker owning one runtime wrapper: it advances the wrapper on each
/// command and tracks its own process-level phase. The channel plumbing that
/// feeds it events lives outside the library.
pub struct MachineThread<Command, Response, FsmWrapper> where
    FsmWrapper: Machine<Command, Response>,
    Response: View,
 {
    pub fsm_wrapper: FsmWrapper,
    pub phase: ActorPhase,
    pub command: PhantomData<Command>,
    pub response: PhantomData<Response>,
}

impl<Command, Response, FsmWrapper> MachineThread<Command, Response, FsmWrapper> where
    FsmWrapper: Machine<Command, Response>,
    Response: View,
 {
    /// A fresh worker in the `Running` phase, owning `fsm_wrapper`.
    pub fn new(fsm_wrapper: FsmWrapper) -> (t: Self)
        ensures
            t.fsm_wrapper == fsm_wrapper,
            t.phase == ActorPhase::Running,
    {
        MachineThread { fsm_wrapper, phase: ActorPhase::Running, command: PhantomData, response: PhantomData }
    }

    /// Reacts to one observation: moves to the next phase, and when the
    /// observation is a command in a live phase, dispatches it and hands back
    /// the single response to publish. On any other observation the wrapper
    /// is untouched and nothing is published.
    pub fn on_event(self, event: ActorEvent<Command>) -> (r: (Self, Option<Response>))
        ensures
            r.0.phase == spec_actor_phase(self.phase, event),
            spec_actor_processes(self.phase, event) ==> (event matches ActorEvent::Command(cmd)
                ==> {
                &&& r.0.fsm_wrapper@ == FsmWrapper::step_model(self.fsm_wrapper@, cmd)
                &&& r.1 matches Some(resp) && resp@ == FsmWrapper::resp_model(
                    self.fsm_wrapper@,
                    cmd,
                )
            }),
            !spec_actor_processes(self.phase, event) ==> r.0.fsm_wrapper == self.fsm_wrapper
                && r.1 is None,
    {
        let MachineThread { fsm_wrapper, phase, command, response } = self;
        match event {
            ActorEvent::Command(cmd) => {
                match phase {
                    ActorPhase::Stopped => (
                        MachineThread { fsm_wrapper, phase: ActorPhase::Stopped, command, response },
                        None,
                    ),
                    _ => {
                        let (next_wrapper, resp) = fsm_wrapper.handle_cmd(cmd);
                        (
                            MachineThread { fsm_wrapper: next_wrapper, phase, command, response },
                            Some(resp),
                        )
                    },
                }
            },
            ActorEvent::InboundEmpty => {
                let next_phase = match phase {
                    ActorPhase::Running => ActorPhase::Running,
                    ActorPhase::Draining => ActorPhase::Stopped,
                    ActorPhase::Stopped => ActorPhase::Stopped,
                };
                (MachineThread { fsm_wrapper, phase: next_phase, command, response }, None)
            },
            ActorEvent::InboundDisconnected => (
                MachineThread { fsm_wrapper, phase: ActorPhase::Stopped, command, response },
                None,
            ),
            ActorEvent::ShutdownRequested => {
                let next_phase = match phase {
                    ActorPhase::Stopped => ActorPhase::Stopped,
                    _ => ActorPhase::Draining,
                };
                (MachineThread { fsm_wrapper, phase: next_phase, command, response }, None)
            },
            ActorEvent::ControlDisconnected => (
                MachineThread { fsm_wrapper, phase: ActorPhase::Stopped, command, response },
                None,
            ),
            ActorEvent::PublishFailed => (
                MachineThread { fsm_wrapper, phase: ActorPhase::Stopped, command, response },
                None,
            ),
        }
    }

    /// The worker's current phase.
    pub fn current_phase(&self) -> (p: ActorPhase)
        ensures
            p == self.phase,
    {
        self.phase
    }
}

/// The machine model reached by handling `cmds` in order, starting from `m`,
/// where `step` gives the model after one command.
pub open spec fn run_machine<M, C>(step: spec_fn(M, C) -> M, m: M, cmds: Seq<C>) -> M
    decreases cmds.len(),
{
    if cmds.len() == 0 {
        m
    } else {
        run_machine(step, step(m, cmds[0]), cmds.drop_first())
    }
}

/// The response models produced by handling `cmds` in order, starting from
/// `m`: one response per command, in command order.
pub open spec fn run_responses<M, C, RV>(
    step: spec_fn(M, C) -> M,
    out: spec_fn(M, C) -> RV,
    m: M,
    cmds: Seq<C>,
) -> Seq<RV>
    decreases cmds.len(),
{
    if cmds.len() == 0 {
        Seq::<RV>::empty()
    } else {
        seq![out(m, cmds[0])] + run_responses(step, out, step(m, cmds[0]), cmds.drop_first())
    }
}

/// Appending one command steps the final model once more.
pub proof fn lemma_run_machine_push<M, C>(step: spec_fn(M, C) -> M, m: M, cmds: Seq<C>, c: C)
    ensures
        run_machine(step, m, cmds.push(c)) == step(run_machine(step, m, cmds), c),
    decreases cmds.len(),
{
    if cmds.len() == 0 {
        reveal_with_fuel(run_machine, 2);
        assert(cmds.push(c)[0] == c);
        assert(cmds.push(c).drop_first() =~= Seq::<C>::empty());
    } else {
        assert(cmds.push(c)[0] == cmds[0]);
        assert(cmds.push(c).drop_first() =~= cmds.drop_first().push(c));
        lemma_run_machine_push(step, step(m, cmds[0]), cmds.drop_first(), c);
    }
}

/// Appending one command appends exactly one response, computed from the
/// model reached by the commands before it.
pub proof fn lemma_run_responses_push<M, C, RV>(
    step: spec_fn(M, C) -> M,
    out: spec_fn(M, C) -> RV,
    m: M,
    cmds: Seq<C>,
    c: C,
)
    ensures
        run_responses(step, out, m, cmds.push(c)) == run_responses(step, out, m, cmds).push(
            out(run_machine(step, m, cmds), c),
        ),
    decreases cmds.len(),
{
    if cmds.len() == 0 {
        reveal_with_fuel(run_machine, 2);
        reveal_with_fuel(run_responses, 2);
        assert(cmds.push(c)[0] == c);
        assert(cmds.push(c).drop_first() =~= Seq::<C>::empty());
        assert(run_responses(step, out, m, cmds.push(c)) =~= run_responses(
            step,
            out,
            m,
            cmds,
        ).push(out(run_machine(step, m, cmds), c)));
    } else {
        assert(cmds.push(c)[0] == cmds[0]);
        assert(cmds.push(c).drop_first() =~= cmds.drop_first().push(c));
        lemma_run_responses_push(step, out, step(m, cmds[0]), cmds.drop_first(), c);
        assert(run_responses(step, out, m, cmds.push(c)) =~= run_responses(
            step,
            out,
            m,
            cmds,
        ).push(out(run_machine(step, m, cmds), c)));
    }
}

/// Every command produces exactly one response.
pub proof fn lemma_run_responses_len<M, C, RV>(
    step: spec_fn(M, C) -> M,
    out: spec_fn(M, C) -> RV,
    m: M,
    cmds: Seq<C>,
)
    ensures
        run_responses(step, out, m, cmds).len() == cmds.len(),
    decreases cmds.len(),
{
    if cmds.len() > 0 {
        lemma_run_responses_len(step, out, step(m, cmds[0]), cmds.drop_first());
    }
}

/// Order preservation: the i-th response is the response to the i-th
/// command, taken from the model reached by the i-1 commands before it.
/// However the responses are later batched, they stand in submission order.
pub proof fn lemma_response_order<M, C, RV>(
    step: spec_fn(M, C) -> M,
    out: spec_fn(M, C) -> RV,
    m: M,
    cmds: Seq<C>,
    i: int,
)
    requires
        0 <= i < cmds.len(),
    ensures
        run_responses(step, out, m, cmds).len() == cmds.len(),
        run_responses(step, out, m, cmds)[i] == out(run_machine(step, m, cmds.take(i)), cmds[i]),
    decreases cmds.len(),
{
    lemma_run_responses_len(step, out, m, cmds);
    if i == 0 {
        assert(cmds.take(0) =~= Seq::<C>::empty());
    } else {
        lemma_response_order(step, out, step(m, cmds[0]), cmds.drop_first(), i - 1);
        assert(cmds.take(i)[0] == cmds[0]);
        assert(cmds.take(i).drop_first() =~= cmds.drop_first().take(i - 1));
        assert(cmds.drop_first()[i - 1] == cmds[i]);
    }
}

/// Determinism: replaying the same ordered command sequence from the same
/// starting model always yields the same final model and the same ordered
/// response sequence.
pub proof fn lemma_replay_deterministic<M, C, RV>(
    step: spec_fn(M, C) -> M,
    out: spec_fn(M, C) -> RV,
    m1: M,
    m2: M,
    cmds1: Seq<C>,
    cmds2: Seq<C>,
)
    requires
        m1 == m2,
        cmds1 == cmds2,
    ensures
        run_machine(step, m1, cmds1) == run_machine(step, m2, cmds2),
        run_responses(step, out, m1, cmds1) == run_responses(step, out, m2, cmds2),
{
}

/// Returned by `send_command` when the worker has already terminated: the
/// machine is no longer available and the command was not enqueued.
#[derive(Clone, Copy, Debug, PartialEq, Eq, Structural)]
pub struct ChannelClosed;

/// Returned by `shutdown` when the worker terminated abnormally instead of
/// exiting its loop.
#[derive(Clone, Copy, Debug, PartialEq, Eq, Structural)]
pub struct ThreadJoinFailed;

/// The caller-facing handle: owns the inbound (command) and outbound
/// (response) mailboxes and the worker that advances the machine. Commands
/// are queued by `send_command`, handled strictly in submission order, and
/// their responses drained, still in that order, by `check_responses`.
pub struct MachineController<Command, Response, FsmWrapper> where
    FsmWrapper: Machine<Command, Response>,
    Response: View,
 {
    pub worker: Option<MachineThread<Command, Response, FsmWrapper>>,
    pub pending: Vec<Command>,
    pub ready: Vec<Response>,
}

impl<Command, Response, FsmWrapper> MachineController<Command, Response, FsmWrapper> where
    FsmWrapper: Machine<Command, Response>,
    Response: View,
 {
    /// Well-formed: the controller still holds its worker.
    pub open spec fn wf(self) -> bool {
        self.worker is Some
    }

    /// The model of the machine the worker currently owns.
    pub open spec fn machine(self) -> <FsmWrapper as View>::V
        recommends
            self.wf(),
    {
        self.worker->Some_0.fsm_wrapper@
    }

    /// The worker's process-level phase.
    pub open spec fn phase(self) -> ActorPhase
        recommends
            self.wf(),
    {
        self.worker->Some_0.phase
    }

    /// The models of the responses produced but not yet drained.
    pub open spec fn ready_models(self) -> Seq<<Response as View>::V> {
        self.ready@.map_values(|r: Response| r@)
    }

    /// The one-command step function of the machine this controller drives.
    pub open spec fn step_fn() -> spec_fn(<FsmWrapper as View>::V, Command) -> <FsmWrapper as View>::V {
        |m: <FsmWrapper as View>::V, c: Command| FsmWrapper::step_model(m, c)
    }

    /// The one-command response function of the machine this controller drives.
    pub open spec fn out_fn() -> spec_fn(<FsmWrapper as View>::V, Command) -> <Response as View>::V {
        |m: <FsmWrapper as View>::V, c: Command| FsmWrapper::resp_model(m, c)
    }

    /// A fresh controller around `fsm_wrapper`: running worker, both
    /// mailboxes empty.
    pub fn new(fsm_wrapper: FsmWrapper) -> (c: Self)
        ensures
            c.wf(),
            c.machine() == fsm_wrapper@,
            c.phase() == ActorPhase::Running,
            c.pending@ == Seq::<Command>::empty(),
            c.ready@ == Seq::<Response>::empty(),
    {
        let c = MachineController {
            worker: Some(MachineThread::new(fsm_wrapper)),
            pending: Vec::new(),
            ready: Vec::new(),
        };
        proof {
            assert(c.pending@ =~= Seq::<Command>::empty());
            assert(c.ready@ =~= Seq::<Response>::empty());
        }
        c
    }

    /// Enqueues a command on the inbound mailbox. Fails, changing nothing,
    /// exactly when the worker has already terminated.
    pub fn send_command(&mut self, cmd: Command) -> (r: Result<(), ChannelClosed>)
        requires
            old(self).wf(),
        ensures
            final(self).wf(),
            final(self).machine() == old(self).machine(),
            final(self).phase() == old(self).phase(),
            final(self).ready == old(self).ready,
            old(self).phase() is Stopped ==> r is Err && final(self).pending == old(self).pending,
            old(self).phase() !is Stopped ==> r is Ok && final(self).pending@ == old(
                self,
            ).pending@.push(cmd),
    {
        let stopped = match &self.worker {
            Some(t) => match t.phase {
                ActorPhase::Stopped => true,
                _ => false,
            },
            None => true,
        };
        if stopped {
            Err(ChannelClosed)
        } else {
            self.pending.push(cmd);
            Ok(())
        }
    }

    /// Lets the worker catch up: every command now in the inbound mailbox is
    /// handled, in submission order, and its response is appended to the
    /// outbound mailbox. A terminated worker handles nothing.
    pub fn run_pending(&mut self)
        requires
            old(self).wf(),
        ensures
            final(self).wf(),
            final(self).phase() == old(self).phase(),
            old(self).phase() is Stopped ==> *final(self) == *old(self),
            old(self).phase() !is Stopped ==> {
                &&& final(self).pending@ == Seq::<Command>::empty()
                &&& final(self).machine() == run_machine(
                    Self::step_fn(),
                    old(self).machine(),
                    old(self).pending@,
                )
                &&& final(self).ready_models() == old(self).ready_models() + run_responses(
                    Self::step_fn(),
                    Self::out_fn(),
                    old(self).machine(),
                    old(self).pending@,
                )
            },
    {
        let worker_opt = self.worker.take();
        match worker_opt {
            None => {
                self.worker = None;
            },
            Some(mut t) => {
                match t.current_phase() {
                    ActorPhase::Stopped => {
                        self.worker = Some(t);
                    },
                    _ => {
                        let ghost m0 = t.fsm_wrapper@;
                        let ghost cmds0 = self.pending@;
                        let ghost ready0 = self.ready_models();
                        let ghost phase0 = t.phase;
                        while self.pending.len() > 0
                            invariant
                                t.phase == phase0,
                                phase0 !is Stopped,
                                self.pending@.len() <= cmds0.len(),
                                self.pending@ == cmds0.skip(cmds0.len() - self.pending@.len()),
                                t.fsm_wrapper@ == run_machine(
                                    Self::step_fn(),
                                    m0,
                                    cmds0.take(cmds0.len() - self.pending@.len()),
                                ),
                                self.ready@.map_values(|r: Response| r@) == ready0 + run_responses(
                                    Self::step_fn(),
                                    Self::out_fn(),
                                    m0,
                                    cmds0.take(cmds0.len() - self.pending@.len()),
                                ),
                            decreases self.pending.len(),
                        {
                            let ghost j = cmds0.len() - self.pending@.len();
                            let ghost ready_pre = self.ready@;
                            let cmd = self.pending.remove(0);
                            proof {
                                assert(cmds0.skip(j)[0] == cmds0[j]);
                                assert(cmds0.skip(j).drop_first() =~= cmds0.skip(j + 1));
                                assert(self.pending@ =~= cmds0.skip(j).remove(0));
                                assert(cmds0.skip(j).remove(0) =~= cmds0.skip(j + 1));
                            }
                            let (t2, resp) = t.on_event(ActorEvent::Command(cmd));
                            t = t2;
                            let ghost published = resp;
                            match resp {
                                Some(r) => {
                                    self.ready.push(r);
                                },
                                None => {
                                    proof {
                                        assert(false);
                                    }
                                },
                            }
                            proof {
                                let rsp = published->Some_0;
                                let mid = run_machine(Self::step_fn(), m0, cmds0.take(j));
                                lemma_run_machine_push(Self::step_fn(), m0, cmds0.take(j), cmds0[j]);
                                lemma_run_responses_push(
                                    Self::step_fn(),
                                    Self::out_fn(),
                                    m0,
                                    cmds0.take(j),
                                    cmds0[j],
                                );
                                lemma_run_responses_len(
                                    Self::step_fn(),
                                    Self::out_fn(),
                                    m0,
                                    cmds0.take(j),
                                );
                                lemma_run_responses_len(
                                    Self::step_fn(),
                                    Self::out_fn(),
                                    m0,
                                    cmds0.take(j + 1),
                                );
                                assert(cmds0.take(j).push(cmds0[j]) =~= cmds0.take(j + 1));
                                assert(self.ready@ == ready_pre.push(rsp));
                                assert(rsp@ == FsmWrapper::resp_model(mid, cmds0[j]));
                                assert(Self::out_fn()(mid, cmds0[j]) == FsmWrapper::resp_model(
                                    mid,
                                    cmds0[j],
                                ));
                                ready_pre.lemma_push_map_commute(|r: Response| r@, rsp);
                                assert(ready_pre.push(rsp).map_values(|r: Response| r@)
                                    =~= ready_pre.map_values(|r: Response| r@).push(rsp@));
                                assert(self.ready@.map_values(|r: Response| r@) =~= ready0
                                    + run_responses(
                                    Self::step_fn(),
                                    Self::out_fn(),
                                    m0,
                                    cmds0.take(j + 1),
                                ));
                            }
                        }
                        self.worker = Some(t);
                        proof {
                            assert(cmds0.take(cmds0.len() as int) =~= cmds0);
                            assert(self.pending@ =~= Seq::<Command>::empty());
                        }
                    },
                }
            },
        }
    }

    /// Drains the outbound mailbox: returns every response currently
    /// available, in submission order of their commands, leaving the mailbox
    /// empty. An empty result only means nothing was ready.
    pub fn check_responses(&mut self) -> (responses: Vec<Response>)
        ensures
            responses == old(self).ready,
            responses@.map_values(|r: Response| r@) == old(self).ready_models(),
            final(self).ready@ == Seq::<Response>::empty(),
            final(self).worker == old(self).worker,
            final(self).pending == old(self).pending,
    {
        let mut out: Vec<Response> = Vec::new();
        core::mem::swap(&mut out, &mut self.ready);
        proof {
            assert(self.ready@ =~= Seq::<Response>::empty());
        }
        out
    }

    /// Stops the worker: no further command is accepted, every command that
    /// `send_command` already enqueued is still handled and its response made
    /// available, and the worker terminates. Calling it again once stopped is
    /// a no-op that still succeeds.
    pub fn shutdown(&mut self) -> (r: Result<(), ThreadJoinFailed>)
        requires
            old(self).wf(),
        ensures
            final(self).wf(),
            r is Ok,
            final(self).phase() is Stopped,
            old(self).phase() is Stopped ==> *final(self) == *old(self),
            old(self).phase() !is Stopped ==> {
                &&& final(self).pending@ == Seq::<Command>::empty()
                &&& final(self).machine() == run_machine(
                    Self::step_fn(),
                    old(self).machine(),
                    old(self).pending@,
                )
                &&& final(self).ready_models() == old(self).ready_models() + run_responses(
                    Self::step_fn(),
                    Self::out_fn(),
                    old(self).machine(),
                    old(self).pending@,
                )
            },
    {
        let stopped = match &self.worker {
            Some(t) => match t.phase {
                ActorPhase::Stopped => true,
                _ => false,
            },
            None => true,
        };
        if stopped {
            return Ok(());
        }
        let worker_opt = self.worker.take();
        match worker_opt {
            None => {
                self.worker = None;
                Ok(())
            },
            Some(t) => {
                let (t2, _ignored) = t.on_event(ActorEvent::ShutdownRequested);
                self.worker = Some(t2);
                self.run_pending();
                let worker_opt2 = self.worker.take();
                match worker_opt2 {
                    None => {
                        self.worker = None;
                        Ok(())
                    },
                    Some(t3) => {
                        let (t4, _ignored2) = t3.on_event(ActorEvent::InboundEmpty);
                        self.worker = Some(t4);
                        Ok(())
                    },
                }
            },
        }
    }
}

} // verus!
