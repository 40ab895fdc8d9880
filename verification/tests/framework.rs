use std::marker::PhantomData;

use fsm::machines::lathe::{LatheCommand, LatheData, LatheResponse, LatheWrapper, Off};
use fsm::machines::shared::{ActorEvent, ActorPhase, MachineThread, StateHandler, FSM};

type LatheThread = MachineThread<LatheCommand, LatheResponse, LatheWrapper>;

fn fresh_thread() -> LatheThread {
    MachineThread::new(LatheWrapper::new(Box::new(LatheData::default())))
}

#[test]
fn worker_starts_running_and_processes_commands() {
    let thread = fresh_thread();
    assert_eq!(thread.current_phase(), ActorPhase::Running);

    let (thread, published) = thread.on_event(ActorEvent::Command(LatheCommand::StartSpinning(5)));
    assert_eq!(thread.current_phase(), ActorPhase::Running);
    assert_eq!(published, Some(LatheResponse::Status { state: "Spinning" }));
}

#[test]
fn worker_drains_then_stops_on_shutdown() {
    let thread = fresh_thread();

    let (thread, published) = thread.on_event(ActorEvent::ShutdownRequested);
    assert_eq!(thread.current_phase(), ActorPhase::Draining);
    assert!(published.is_none());

    let (thread, published) =
        thread.on_event(ActorEvent::Command(LatheCommand::StartSpinning(5)));
    assert_eq!(thread.current_phase(), ActorPhase::Draining);
    assert_eq!(published, Some(LatheResponse::Status { state: "Spinning" }));

    let (thread, published) = thread.on_event(ActorEvent::InboundEmpty);
    assert_eq!(thread.current_phase(), ActorPhase::Stopped);
    assert!(published.is_none());

    let (thread, published) = thread.on_event(ActorEvent::Command(LatheCommand::Notaus));
    assert_eq!(thread.current_phase(), ActorPhase::Stopped);
    assert!(published.is_none());
}

#[test]
fn worker_stops_on_disconnects() {
    let thread = fresh_thread();
    let (thread, _) = thread.on_event(ActorEvent::InboundDisconnected);
    assert_eq!(thread.current_phase(), ActorPhase::Stopped);

    let thread = fresh_thread();
    let (thread, _) = thread.on_event(ActorEvent::ControlDisconnected);
    assert_eq!(thread.current_phase(), ActorPhase::Stopped);

    let thread = fresh_thread();
    let (thread, _) = thread.on_event(ActorEvent::PublishFailed);
    assert_eq!(thread.current_phase(), ActorPhase::Stopped);
}

#[test]
fn worker_keeps_running_while_mailbox_is_merely_empty() {
    let thread = fresh_thread();
    let (thread, published) = thread.on_event(ActorEvent::InboundEmpty);
    assert_eq!(thread.current_phase(), ActorPhase::Running);
    assert!(published.is_none());
}

#[test]
fn state_handler_trait_dispatches() {
    let wrapper = LatheWrapper::new(Box::new(LatheData::default()));

    let (wrapper, response): (LatheWrapper, LatheResponse) =
        StateHandler::handle_cmd(wrapper, LatheCommand::StartSpinning(3));

    assert_eq!(response, LatheResponse::Status { state: "Spinning" });
    match wrapper {
        LatheWrapper::Spinning(lathe) => assert_eq!(lathe.lathe_data.revs, 3),
        _ => panic!("the trait must dispatch to the current state's handler"),
    }
}

#[test]
fn fsm_container_binds_state_to_data() {
    let container: FSM<Off, LatheData> = FSM {
        state: PhantomData,
        data: Box::new(LatheData::default()),
    };
    assert_eq!(container.data.revs, 0);
    assert_eq!(container.data.feed, 0);
}
