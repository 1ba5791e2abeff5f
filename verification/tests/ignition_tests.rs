//! Tests of the ignition controller decode layer and the kernel ABI types.

use thermal_core::abi::Priority;
use thermal_core::ignition::{
    Counters, Ignition, IgnitionError, LinkEvents, Port, PortState, Request, SystemPowerState,
    Target, TransceiverEvents, TransceiverSelect, PORT_MAX,
};

/// Builds a port state word from its register bytes.
fn state_word(bytes: [u8; 6]) -> PortState {
    let mut word: u64 = 0;
    let mut i: usize = 0;
    while i < 6 {
        word |= (bytes[i] as u64) << (8 * i);
        i += 1;
    }
    PortState(word)
}

fn snapshot(states: Vec<PortState>) -> Ignition {
    let count = states.len();
    Ignition::new(
        states,
        vec![Counters::default(); count],
        vec![TransceiverEvents { controller: 0x3f, target_link0: 0x01, target_link1: 0x00 }; count],
    )
}

// Register bytes: [controller status, link status, system type,
// system status, system faults, request status].
const PRESENT_ON: [u8; 6] = [0x01, 0x03, 0x42, 0x05, 0x02, 0x00];
const ABSENT: [u8; 6] = [0x00, 0x00, 0x00, 0x00, 0x00, 0x00];
const PRESENT_BUSY: [u8; 6] = [0x01, 0x03, 0x42, 0x00, 0x00, 0x01];

#[test]
fn port_decodes_target_and_receiver() {
    let ignition = snapshot(vec![state_word(PRESENT_ON)]);
    let port = ignition.port(0).unwrap();
    assert!(port.receiver_status.aligned);
    assert!(port.receiver_status.locked);
    assert!(!port.receiver_status.polarity_inverted);
    let target = port.target.unwrap();
    assert_eq!(target.id.0, 0x42);
    assert_eq!(target.power_state, SystemPowerState::On);
    assert!(!target.power_reset_in_progress);
    assert!(target.controller0_present);
    assert!(!target.controller1_present);
    assert!(!target.faults.power_a3);
    assert!(target.faults.power_a2);
    assert!(!target.faults.rot);
    assert!(!target.faults.sp);
}

#[test]
fn absent_port_has_no_target() {
    let ignition = snapshot(vec![state_word(ABSENT)]);
    let port = ignition.port(0).unwrap();
    assert_eq!(port.target, None);
    assert_eq!(ignition.target(0), Ok(None));
}

#[test]
fn power_state_decode_priorities() {
    // An abort overrides an in-flight request; a request overrides the
    // steady states.
    assert_eq!(SystemPowerState::from_status(0x08, 0x01), SystemPowerState::Aborted);
    assert_eq!(SystemPowerState::from_status(0x00, 0x01), SystemPowerState::PoweringOn);
    assert_eq!(SystemPowerState::from_status(0x00, 0x02), SystemPowerState::PoweringOff);
    assert_eq!(SystemPowerState::from_status(0x04, 0x00), SystemPowerState::On);
    assert_eq!(SystemPowerState::from_status(0x00, 0x00), SystemPowerState::Off);
}

#[test]
fn request_in_progress_depends_on_power_state() {
    let mut bytes = PRESENT_ON;
    bytes[5] = 0x04; // reset in progress
    let target = Target::from_state(state_word(bytes));
    assert!(target.power_reset_in_progress);
    assert!(target.request_in_progress());
    let steady = Target::from_state(state_word(PRESENT_ON));
    assert!(!steady.request_in_progress());
}

#[test]
fn port_count_and_invalid_port() {
    let ignition = snapshot(vec![state_word(PRESENT_ON), state_word(ABSENT)]);
    assert_eq!(ignition.port_count(), Ok(2));
    assert_eq!(ignition.port(2), Err(IgnitionError::InvalidPort));
    assert_eq!(ignition.target(2), Err(IgnitionError::InvalidPort));
    assert_eq!(ignition.counters(2), Err(IgnitionError::InvalidPort));
    assert_eq!(
        ignition.link_events(2, TransceiverSelect::Controller),
        Err(IgnitionError::InvalidPort)
    );
}

#[test]
fn presence_summary_sets_one_bit_per_present_port() {
    let ignition = snapshot(vec![
        state_word(PRESENT_ON),
        state_word(ABSENT),
        state_word(PRESENT_BUSY),
    ]);
    assert_eq!(ignition.presence_summary(), Ok(0b101));
}

#[test]
fn send_request_validates_port_and_target() {
    let ignition = snapshot(vec![
        state_word(PRESENT_ON),
        state_word(ABSENT),
        state_word(PRESENT_BUSY),
    ]);
    assert_eq!(ignition.send_request(0, Request::SystemPowerReset), Ok(()));
    assert_eq!(
        ignition.send_request(1, Request::SystemPowerOn),
        Err(IgnitionError::NoTargetPresent)
    );
    assert_eq!(
        ignition.send_request(2, Request::SystemPowerOff),
        Err(IgnitionError::RequestInProgress)
    );
    assert_eq!(
        ignition.send_request(3, Request::SystemPowerOff),
        Err(IgnitionError::InvalidPort)
    );
}

#[test]
fn request_codes() {
    assert_eq!(Request::SystemPowerOff.code(), 1);
    assert_eq!(Request::SystemPowerOn.code(), 2);
    assert_eq!(Request::SystemPowerReset.code(), 3);
}

#[test]
fn link_events_decode_and_clear() {
    let mut ignition = snapshot(vec![state_word(PRESENT_ON)]);
    let all = ignition.link_events(0, TransceiverSelect::Controller).unwrap();
    assert_eq!(
        all,
        LinkEvents {
            encoding_error: true,
            decoding_error: true,
            ordered_set_invalid: true,
            message_version_invalid: true,
            message_type_invalid: true,
            message_checksum_invalid: true,
        }
    );
    let link0 = ignition.link_events(0, TransceiverSelect::TargetLink0).unwrap();
    assert!(link0.encoding_error);
    assert!(!link0.decoding_error);

    assert_eq!(ignition.clear_link_events(0, TransceiverSelect::Controller), Ok(()));
    let cleared = ignition.link_events(0, TransceiverSelect::Controller).unwrap();
    assert_eq!(cleared, LinkEvents::from_u8(0));
    // The other transceivers' events are untouched.
    let link0_after = ignition.link_events(0, TransceiverSelect::TargetLink0).unwrap();
    assert_eq!(link0_after, link0);
    assert_eq!(
        ignition.clear_link_events(1, TransceiverSelect::Controller),
        Err(IgnitionError::InvalidPort)
    );
}

#[test]
fn targets_pads_to_port_max() {
    let ignition = snapshot(vec![state_word(PRESENT_ON), state_word(ABSENT)]);
    let targets = ignition.targets().unwrap();
    assert_eq!(targets.len(), PORT_MAX as usize);
    assert!(targets[0].is_some());
    assert_eq!(targets[0].unwrap().id.0, 0x42);
    assert_eq!(targets[1], None);
    for slot in &targets[2..] {
        assert_eq!(*slot, None);
    }
}

#[test]
fn counters_are_returned_per_port() {
    let states = vec![state_word(PRESENT_ON)];
    let counters = vec![Counters {
        status_received: 4,
        hello_sent: 3,
        request_sent: 2,
        message_dropped: 1,
    }];
    let events = vec![TransceiverEvents::default()];
    let ignition = Ignition::new(states, counters, events);
    assert_eq!(
        ignition.counters(0),
        Ok(Counters { status_received: 4, hello_sent: 3, request_sent: 2, message_dropped: 1 })
    );
}

#[test]
fn decoded_port_struct_shape() {
    let port = Port::from_state(state_word(ABSENT));
    assert_eq!(port.target, None);
    assert!(!port.receiver_status.aligned);
}

#[test]
fn priority_ordering_is_inverted() {
    assert!(Priority(0).is_more_important_than(Priority(1)));
    assert!(!Priority(1).is_more_important_than(Priority(0)));
    assert!(!Priority(3).is_more_important_than(Priority(3)));
}
