use fsm::machines::mill::{MillCommand, MillFSM, MillResponse};

fn setup() -> MillFSM {
    MillFSM::new()
}

#[test]
fn off_to_spinning() {
    let mut mill_fsm = setup();

    let response = mill_fsm.handle_command(MillCommand::StartSpinning(12));

    assert_eq!(12, mill_fsm.data.revs);
    assert_eq!(response, MillResponse::Status { state: "Spinning" });
}

#[test]
fn spinning_to_moving() {
    let mut mill_fsm = setup();
    mill_fsm.handle_command(MillCommand::StartSpinning(12));

    let response = mill_fsm.handle_command(MillCommand::Move(66));

    assert_eq!(12, mill_fsm.data.revs);
    assert_eq!(66, mill_fsm.data.linear_move);
    assert_eq!(response, MillResponse::Status { state: "Moving" });
}

#[test]
fn spinning_to_off() {
    let mut mill_fsm = setup();
    mill_fsm.handle_command(MillCommand::StartSpinning(12));

    let response = mill_fsm.handle_command(MillCommand::StopSpinning);

    assert_eq!(0, mill_fsm.data.revs);
    assert_eq!(response, MillResponse::Status { state: "Off" });
}

#[test]
fn moving_to_spinning() {
    let mut mill_fsm = setup();
    mill_fsm.handle_command(MillCommand::StartSpinning(12));
    mill_fsm.handle_command(MillCommand::Move(66));

    let response = mill_fsm.handle_command(MillCommand::StopMoving);

    assert_eq!(12, mill_fsm.data.revs);
    assert_eq!(0, mill_fsm.data.linear_move);
    assert_eq!(response, MillResponse::Status { state: "Spinning" });
}

#[test]
fn print() {
    let mill_fsm = setup();
    println!(
        "Mill FSM state: {}, data: {:?}",
        mill_fsm.get_state_name(),
        mill_fsm.get_data()
    );
}

#[test]
fn mill_rejects_stop_moving_when_off() {
    let mut mill_fsm = setup();

    let response = mill_fsm.handle_command(MillCommand::StopMoving);

    assert_eq!(
        response,
        MillResponse::InvalidTransition {
            current_state: "Off",
            attempted_command: String::from("StopMoving")
        }
    );
    assert_eq!(0, mill_fsm.data.revs);
    assert_eq!(0, mill_fsm.data.linear_move);
    assert_eq!("Off", mill_fsm.get_state_name());
}

#[test]
fn mill_reports_negative_move_in_rejection() {
    let mut mill_fsm = setup();

    let response = mill_fsm.handle_command(MillCommand::Move(-50));

    assert_eq!(
        response,
        MillResponse::InvalidTransition {
            current_state: "Off",
            attempted_command: String::from("Move(-50)")
        }
    );
}
