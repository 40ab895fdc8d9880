use fsm::machines::lathe::{Lathe, LatheCommand, LatheData, LatheResponse, LatheWrapper, Off};

#[test]
fn lathe_off_to_spinning_transition() {
    let data = Box::new(LatheData::default());
    let lathe = Lathe::<Off>::new(data);

    let spinning_lathe = lathe.start_spinning(1500);

    assert_eq!(spinning_lathe.lathe_data.revs, 1500);
}

#[test]
fn spinning_to_feeding_transition() {
    let data = Box::new(LatheData::default());
    let lathe = Lathe::<Off>::new(data).start_spinning(1000);

    let feeding_lathe = lathe.feed(250);

    assert_eq!(feeding_lathe.lathe_data.feed, 250);
    assert_eq!(feeding_lathe.lathe_data.revs, 1000);
}

#[test]
fn feeding_to_spinning_transition() {
    let data = Box::new(LatheData::default());
    let lathe = Lathe::<Off>::new(data).start_spinning(1200).feed(300);

    let spinning_lathe = lathe.stop_feed();

    assert_eq!(spinning_lathe.lathe_data.feed, 0);
    assert_eq!(spinning_lathe.lathe_data.revs, 1200);
}

#[test]
fn emergency_stop_from_feeding() {
    let data = Box::new(LatheData::default());
    let lathe = Lathe::<Off>::new(data).start_spinning(1000).feed(200);

    let notaus_lathe = lathe.notaus();
    let off_lathe = notaus_lathe.acknowledge();

    assert_eq!(off_lathe.lathe_data.revs, 0);
    assert_eq!(off_lathe.lathe_data.feed, 0);
}

#[test]
fn wrapper_rejects_feed_when_off() {
    let wrapper = LatheWrapper::new(Box::new(LatheData::default()));

    let (wrapper, response) = wrapper.handle_cmd(LatheCommand::Feed(200));

    assert_eq!(
        response,
        LatheResponse::InvalidTransition {
            current_state: "Off",
            attempted_command: String::from("Feed(200)")
        }
    );
    match wrapper {
        LatheWrapper::Off(lathe) => {
            assert_eq!(lathe.lathe_data.revs, 0);
            assert_eq!(lathe.lathe_data.feed, 0);
        }
        _ => panic!("rejection must leave the wrapper in its previous state"),
    }
}

#[test]
fn wrapper_notaus_then_acknowledge_from_spinning() {
    let wrapper = LatheWrapper::new(Box::new(LatheData::default()));
    let (wrapper, _) = wrapper.handle_cmd(LatheCommand::StartSpinning(900));

    let (wrapper, response) = wrapper.handle_cmd(LatheCommand::Notaus);
    assert_eq!(response, LatheResponse::Status { state: "Notaus" });

    let (wrapper, response) = wrapper.handle_cmd(LatheCommand::Acknowledge);
    assert_eq!(response, LatheResponse::Status { state: "Off" });
    match wrapper {
        LatheWrapper::Off(lathe) => {
            assert_eq!(lathe.lathe_data.revs, 0);
            assert_eq!(lathe.lathe_data.feed, 0);
        }
        _ => panic!("acknowledge must reach the Off state"),
    }
}

#[test]
fn wrapper_rejects_notaus_command_in_notaus_state() {
    let wrapper = LatheWrapper::new(Box::new(LatheData::default()));
    let (wrapper, _) = wrapper.handle_cmd(LatheCommand::Notaus);

    let (_, response) = wrapper.handle_cmd(LatheCommand::Notaus);

    assert_eq!(
        response,
        LatheResponse::InvalidTransition {
            current_state: "Notaus",
            attempted_command: String::from("Notaus")
        }
    );
}
