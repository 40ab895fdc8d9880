use fsm::machines::lathe::{LatheCommand, LatheController, LatheData, LatheResponse};
use fsm::machines::mill::{MillCommand, MillController, MillData, MillResponse};

fn setup_lathe_controller() -> LatheController {
    let lathe_data = Box::new(LatheData::default());
    LatheController::create(lathe_data)
}

fn setup_mill_controller() -> MillController {
    MillController::create(Box::new(MillData::default()))
}

#[test]
fn lathe_command_sequence() {
    let mut controller = setup_lathe_controller();

    controller
        .send_command(LatheCommand::StartSpinning(800))
        .unwrap();
    controller.send_command(LatheCommand::Feed(150)).unwrap();

    controller.run_pending();
    let responses = controller.check_responses();
    assert_eq!(responses.len(), 2);
    assert_eq!(responses[0], LatheResponse::Status { state: "Spinning" });
    assert_eq!(responses[1], LatheResponse::Status { state: "Feeding" });
}

#[test]
fn emergency_stop() {
    let mut controller = setup_lathe_controller();

    controller
        .send_command(LatheCommand::StartSpinning(1000))
        .unwrap();
    controller.send_command(LatheCommand::Feed(200)).unwrap();
    controller.send_command(LatheCommand::Notaus).unwrap();

    controller.run_pending();
    let responses = controller.check_responses();
    assert_eq!(responses.len(), 3);
    assert_eq!(responses[0], LatheResponse::Status { state: "Spinning" });
    assert_eq!(responses[1], LatheResponse::Status { state: "Feeding" });
    assert_eq!(responses[2], LatheResponse::Status { state: "Notaus" });
}

#[test]
fn lathe_invalid_transition() {
    let mut controller = setup_lathe_controller();

    controller.send_command(LatheCommand::Feed(200)).unwrap();

    controller.run_pending();
    let responses = controller.check_responses();
    assert_eq!(responses.len(), 1);
    assert_eq!(
        responses[0],
        LatheResponse::InvalidTransition {
            current_state: "Off",
            attempted_command: String::from("Feed(200)")
        }
    );
}

#[test]
fn mill_off_to_spinning_transition() {
    let mut mill_controller = setup_mill_controller();

    mill_controller
        .send_command(MillCommand::StartSpinning(800))
        .unwrap();

    mill_controller.run_pending();
    let responses = mill_controller.check_responses();
    assert_eq!(responses.len(), 1);
    assert_eq!(responses[0], MillResponse::Status { state: "Spinning" });
}

#[test]
fn mill_command_sequence() {
    let mut mill_controller = setup_mill_controller();

    mill_controller
        .send_command(MillCommand::StartSpinning(800))
        .unwrap();
    mill_controller.send_command(MillCommand::Move(-50)).unwrap();
    mill_controller.send_command(MillCommand::StopMoving).unwrap();
    mill_controller
        .send_command(MillCommand::StopSpinning)
        .unwrap();

    mill_controller.run_pending();
    let responses = mill_controller.check_responses();
    assert_eq!(responses.len(), 4);
    assert_eq!(responses[0], MillResponse::Status { state: "Spinning" });
    assert_eq!(responses[1], MillResponse::Status { state: "Moving" });
    assert_eq!(responses[2], MillResponse::Status { state: "Spinning" });
    assert_eq!(responses[3], MillResponse::Status { state: "Off" });
}

#[test]
fn mill_invalid_transition() {
    let mut mill_controller = setup_mill_controller();

    mill_controller
        .send_command(MillCommand::StartSpinning(800))
        .unwrap();
    mill_controller.send_command(MillCommand::Move(-50)).unwrap();
    mill_controller
        .send_command(MillCommand::StopSpinning)
        .unwrap();

    mill_controller.run_pending();
    let responses = mill_controller.check_responses();
    assert_eq!(responses.len(), 3);
    assert_eq!(responses[0], MillResponse::Status { state: "Spinning" });
    assert_eq!(responses[1], MillResponse::Status { state: "Moving" });
    assert_eq!(
        responses[2],
        MillResponse::InvalidTransition {
            current_state: "Moving",
            attempted_command: String::from("StopSpinning"),
        }
    );
}

#[test]
fn fresh_lathe_start_spinning_reports_spinning() {
    let mut controller = setup_lathe_controller();

    controller
        .send_command(LatheCommand::StartSpinning(1000))
        .unwrap();

    controller.run_pending();
    let responses = controller.check_responses();
    assert_eq!(responses, vec![LatheResponse::Status { state: "Spinning" }]);
}

#[test]
fn spinning_feed_then_stop_feed() {
    let mut controller = setup_lathe_controller();
    controller
        .send_command(LatheCommand::StartSpinning(1000))
        .unwrap();
    controller.run_pending();
    controller.check_responses();

    controller.send_command(LatheCommand::Feed(500)).unwrap();
    controller.send_command(LatheCommand::StopFeed).unwrap();

    controller.run_pending();
    let responses = controller.check_responses();
    assert_eq!(
        responses,
        vec![
            LatheResponse::Status { state: "Feeding" },
            LatheResponse::Status { state: "Spinning" },
        ]
    );
}

#[test]
fn poll_before_work_is_empty() {
    let mut controller = setup_lathe_controller();

    controller
        .send_command(LatheCommand::StartSpinning(700))
        .unwrap();

    let responses = controller.check_responses();
    assert!(responses.is_empty());

    controller.run_pending();
    let responses = controller.check_responses();
    assert_eq!(responses.len(), 1);
}

#[test]
fn responses_stay_in_submission_order_across_batches() {
    let mut controller = setup_lathe_controller();

    controller
        .send_command(LatheCommand::StartSpinning(100))
        .unwrap();
    controller.send_command(LatheCommand::Feed(10)).unwrap();
    controller.run_pending();
    let first_batch = controller.check_responses();

    controller.send_command(LatheCommand::StopFeed).unwrap();
    controller.send_command(LatheCommand::StopSpinning).unwrap();
    controller.run_pending();
    let second_batch = controller.check_responses();

    let all: Vec<LatheResponse> = first_batch.into_iter().chain(second_batch).collect();
    assert_eq!(
        all,
        vec![
            LatheResponse::Status { state: "Spinning" },
            LatheResponse::Status { state: "Feeding" },
            LatheResponse::Status { state: "Spinning" },
            LatheResponse::Status { state: "Off" },
        ]
    );
}

#[test]
fn replaying_commands_gives_identical_responses() {
    let commands = [
        LatheCommand::StartSpinning(1200),
        LatheCommand::Feed(60),
        LatheCommand::Acknowledge,
        LatheCommand::Notaus,
        LatheCommand::Acknowledge,
    ];

    let mut first = setup_lathe_controller();
    for cmd in commands.iter() {
        first.send_command(clone_command(cmd)).unwrap();
    }
    first.run_pending();
    let first_responses = first.check_responses();

    let mut second = setup_lathe_controller();
    for cmd in commands.iter() {
        second.send_command(clone_command(cmd)).unwrap();
    }
    second.run_pending();
    let second_responses = second.check_responses();

    assert_eq!(first_responses, second_responses);
}

fn clone_command(cmd: &LatheCommand) -> LatheCommand {
    match cmd {
        LatheCommand::StartSpinning(revs) => LatheCommand::StartSpinning(*revs),
        LatheCommand::StopSpinning => LatheCommand::StopSpinning,
        LatheCommand::Feed(feed) => LatheCommand::Feed(*feed),
        LatheCommand::StopFeed => LatheCommand::StopFeed,
        LatheCommand::Notaus => LatheCommand::Notaus,
        LatheCommand::Acknowledge => LatheCommand::Acknowledge,
    }
}

#[test]
fn shutdown_drains_in_flight_work() {
    let mut controller = setup_lathe_controller();

    controller
        .send_command(LatheCommand::StartSpinning(400))
        .unwrap();
    controller.send_command(LatheCommand::Feed(40)).unwrap();

    controller.shutdown().unwrap();

    let responses = controller.check_responses();
    assert_eq!(responses.len(), 2);
    assert_eq!(responses[0], LatheResponse::Status { state: "Spinning" });
    assert_eq!(responses[1], LatheResponse::Status { state: "Feeding" });
}

#[test]
fn shutdown_twice_is_a_noop() {
    let mut controller = setup_lathe_controller();

    controller
        .send_command(LatheCommand::StartSpinning(400))
        .unwrap();
    assert!(controller.shutdown().is_ok());
    assert!(controller.shutdown().is_ok());

    let responses = controller.check_responses();
    assert_eq!(responses.len(), 1);
}

#[test]
fn submit_after_shutdown_fails() {
    let mut controller = setup_lathe_controller();

    controller.shutdown().unwrap();

    let result = controller.send_command(LatheCommand::StartSpinning(400));
    assert!(result.is_err());
    controller.run_pending();
    assert!(controller.check_responses().is_empty());
}
