//! Decode layer for the platform's ignition controller.
//!
//! The controller exposes, for each of up to `PORT_MAX` ports, a 64-bit
//! state word laid out as the register bytes below, together with message
//! counters and per-transceiver link-event summaries.  An `Ignition` value
//! is a snapshot of that data as last read from the controller; its methods
//! decode the raw bytes into typed values and validate requests against
//! them, exactly as the controller itself would.

use vstd::prelude::*;

verus! {

/// Most ports a controller can expose; the presence vector is capped at
/// this many bits by the mainboard controller.  The number actually
/// configured is learned through `port_count`.
pub const PORT_MAX: u8 = 40;

// Byte offsets of the controller registers inside a port's state word.
/// Controller status register: presence of a target.
pub const ADDR_CONTROLLER_STATUS: u64 = 0;
/// Controller receiver status register.
pub const ADDR_CONTROLLER_LINK_STATUS: u64 = 1;
/// Type identifier of the attached system.
pub const ADDR_TARGET_SYSTEM_TYPE: u64 = 2;
/// Status bits of the attached system.
pub const ADDR_TARGET_SYSTEM_STATUS: u64 = 3;
/// Fault bits of the attached system.
pub const ADDR_TARGET_SYSTEM_FAULTS: u64 = 4;
/// Bits describing a power request in progress.
pub const ADDR_TARGET_REQUEST_STATUS: u64 = 5;

// Bits of the controller status register.
/// A target is attached to this port.
pub const BIT_TARGET_PRESENT: u8 = 0x01;

// Bits of the controller link status register.
pub const BIT_RECEIVER_ALIGNED: u8 = 0x01;
pub const BIT_RECEIVER_LOCKED: u8 = 0x02;
pub const BIT_POLARITY_INVERTED: u8 = 0x04;

// Bits of the target system status register.
pub const BIT_CONTROLLER0_DETECTED: u8 = 0x01;
pub const BIT_CONTROLLER1_DETECTED: u8 = 0x02;
pub const BIT_SYSTEM_POWER_ENABLED: u8 = 0x04;
pub const BIT_SYSTEM_POWER_ABORT: u8 = 0x08;

// Bits of the target request status register.
pub const BIT_POWER_ON_IN_PROGRESS: u8 = 0x01;
pub const BIT_POWER_OFF_IN_PROGRESS: u8 = 0x02;
pub const BIT_SYSTEM_RESET_IN_PROGRESS: u8 = 0x04;

// Bits of the target system faults register.
pub const BIT_POWER_FAULT_A3: u8 = 0x01;
pub const BIT_POWER_FAULT_A2: u8 = 0x02;
pub const BIT_SP_FAULT: u8 = 0x04;
pub const BIT_ROT_FAULT: u8 = 0x08;
pub const BIT_RESERVED1: u8 = 0x10;
pub const BIT_RESERVED2: u8 = 0x20;

// Bits of a link events summary byte.
pub const BIT_ENCODING_ERROR: u8 = 0x01;
pub const BIT_DECODING_ERROR: u8 = 0x02;
pub const BIT_ORDERED_SET_INVALID: u8 = 0x04;
pub const BIT_MESSAGE_VERSION_INVALID: u8 = 0x08;
pub const BIT_MESSAGE_TYPE_INVALID: u8 = 0x10;
pub const BIT_MESSAGE_CHECKSUM_INVALID: u8 = 0x20;

/// Errors answered to users of the ignition controller.
#[derive(Copy, Clone, Debug, PartialEq, Eq, Structural)]
pub enum IgnitionError {
    /// The controller server restarted.
    ServerDied,
    /// The controller's logic could not be reached.
    FpgaError,
    /// The port index is at or past the configured port count.
    InvalidPort,
    /// A value failed to decode.
    InvalidValue,
    /// The port has no target attached.
    NoTargetPresent,
    /// A power request is already in flight on this port.
    RequestInProgress,
}

/// The raw 64-bit state word of one port.
#[derive(Copy, Clone, Debug, Default, PartialEq, Eq, Structural)]
pub struct PortState(pub u64);

/// Status of the controller's own receiver.
#[derive(Copy, Clone, Debug, PartialEq, Eq, Structural)]
pub struct ReceiverStatus {
    pub aligned: bool,
    pub locked: bool,
    pub polarity_inverted: bool,
}

/// Power state of an attached system.
#[derive(Copy, Clone, Debug, PartialEq, Eq, Structural)]
pub enum SystemPowerState {
    Off,
    On,
    Aborted,
    PoweringOff,
    PoweringOn,
}

/// Fault flags reported by an attached system.
#[derive(Copy, Clone, Debug, PartialEq, Eq, Structural)]
pub struct SystemFaults {
    pub power_a3: bool,
    pub power_a2: bool,
    pub rot: bool,
    pub sp: bool,
    pub reserved1: bool,
    pub reserved2: bool,
}

/// Type identifier of an attached system.
#[derive(Copy, Clone, Debug, Default, PartialEq, Eq, Structural)]
pub struct SystemId(pub u8);

/// Decoded state of a system attached to a port.
#[derive(Copy, Clone, Debug, PartialEq, Eq, Structural)]
pub struct Target {
    pub id: SystemId,
    pub power_state: SystemPowerState,
    pub power_reset_in_progress: bool,
    pub faults: SystemFaults,
    pub controller0_present: bool,
    pub controller1_present: bool,
}

/// Decoded state of one controller port.
#[derive(Copy, Clone, Debug, PartialEq, Eq, Structural)]
pub struct Port {
    pub receiver_status: ReceiverStatus,
    pub target: Option<Target>,
}

/// A power request sent to a target.
#[derive(Copy, Clone, Debug, PartialEq, Eq, Structural)]
pub enum Request {
    SystemPowerOff,
    SystemPowerOn,
    SystemPowerReset,
}

impl Request {
    /// The wire encoding of this request.
    pub fn code(self) -> (code: u8)
        ensures
            code == (match self {
                Request::SystemPowerOff => 1u8,
                Request::SystemPowerOn => 2u8,
                Request::SystemPowerReset => 3u8,
            }),
    {
        match self {
            Request::SystemPowerOff => 1,
            Request::SystemPowerOn => 2,
            Request::SystemPowerReset => 3,
        }
    }
}

/// Message counters of one port.
#[derive(Copy, Clone, Debug, Default, PartialEq, Eq, Structural)]
pub struct Counters {
    pub status_received: u8,
    pub hello_sent: u8,
    pub request_sent: u8,
    pub message_dropped: u8,
}

/// Link events observed by one transceiver since they were last cleared.
#[derive(Copy, Clone, Debug, PartialEq, Eq, Structural)]
pub struct LinkEvents {
    pub encoding_error: bool,
    pub decoding_error: bool,
    pub ordered_set_invalid: bool,
    pub message_version_invalid: bool,
    pub message_type_invalid: bool,
    pub message_checksum_invalid: bool,
}

/// Each controller-target link is observed by the controller's own
/// transceiver and by both of the target's; this selects one of the three
/// event sets kept per port.
#[derive(Copy, Clone, Debug, PartialEq, Eq, Structural)]
pub enum TransceiverSelect {
    Controller,
    TargetLink0,
    TargetLink1,
}

/// Raw link-event summary bytes of one port, one per transceiver.
#[derive(Copy, Clone, Debug, Default, PartialEq, Eq, Structural)]
pub struct TransceiverEvents {
    pub controller: u8,
    pub target_link0: u8,
    pub target_link1: u8,
}

/// Byte `index` of a port state word.
pub open spec fn spec_byte_of(word: u64, index: u64) -> u8 {
    ((word >> (8 * index)) & 0xff) as u8
}

/// Whether `mask` is set in a register byte.
pub open spec fn bit_set(byte: u8, mask: u8) -> bool {
    byte & mask != 0
}

/// Decoded receiver status of a link status byte.
pub open spec fn spec_receiver_status(byte: u8) -> ReceiverStatus {
    ReceiverStatus {
        aligned: bit_set(byte, BIT_RECEIVER_ALIGNED),
        locked: bit_set(byte, BIT_RECEIVER_LOCKED),
        polarity_inverted: bit_set(byte, BIT_POLARITY_INVERTED),
    }
}

/// Decoded power state: an abort overrides everything, a request in
/// progress overrides the steady states.
pub open spec fn spec_power_state(system_status: u8, request_status: u8) -> SystemPowerState {
    if bit_set(system_status, BIT_SYSTEM_POWER_ABORT) {
        SystemPowerState::Aborted
    } else if bit_set(request_status, BIT_POWER_ON_IN_PROGRESS) {
        SystemPowerState::PoweringOn
    } else if bit_set(request_status, BIT_POWER_OFF_IN_PROGRESS) {
        SystemPowerState::PoweringOff
    } else if bit_set(system_status, BIT_SYSTEM_POWER_ENABLED) {
        SystemPowerState::On
    } else {
        SystemPowerState::Off
    }
}

/// Decoded fault flags of a faults byte.
pub open spec fn spec_system_faults(byte: u8) -> SystemFaults {
    SystemFaults {
        power_a3: bit_set(byte, BIT_POWER_FAULT_A3),
        power_a2: bit_set(byte, BIT_POWER_FAULT_A2),
        rot: bit_set(byte, BIT_ROT_FAULT),
        sp: bit_set(byte, BIT_SP_FAULT),
        reserved1: bit_set(byte, BIT_RESERVED1),
        reserved2: bit_set(byte, BIT_RESERVED2),
    }
}

/// Decoded link events of a summary byte.
pub open spec fn spec_link_events(byte: u8) -> LinkEvents {
    LinkEvents {
        encoding_error: bit_set(byte, BIT_ENCODING_ERROR),
        decoding_error: bit_set(byte, BIT_DECODING_ERROR),
        ordered_set_invalid: bit_set(byte, BIT_ORDERED_SET_INVALID),
        message_version_invalid: bit_set(byte, BIT_MESSAGE_VERSION_INVALID),
        message_type_invalid: bit_set(byte, BIT_MESSAGE_TYPE_INVALID),
        message_checksum_invalid: bit_set(byte, BIT_MESSAGE_CHECKSUM_INVALID),
    }
}

/// A target is attached to a port with this state word.
pub open spec fn spec_target_present(state: PortState) -> bool {
    bit_set(spec_byte_of(state.0, ADDR_CONTROLLER_STATUS), BIT_TARGET_PRESENT)
}

/// Decoded target of a state word.
pub open spec fn spec_target(state: PortState) -> Target {
    let system_status = spec_byte_of(state.0, ADDR_TARGET_SYSTEM_STATUS);
    let request_status = spec_byte_of(state.0, ADDR_TARGET_REQUEST_STATUS);
    Target {
        id: SystemId(spec_byte_of(state.0, ADDR_TARGET_SYSTEM_TYPE)),
        power_state: spec_power_state(system_status, request_status),
        power_reset_in_progress: bit_set(request_status, BIT_SYSTEM_RESET_IN_PROGRESS),
        faults: spec_system_faults(spec_byte_of(state.0, ADDR_TARGET_SYSTEM_FAULTS)),
        controller0_present: bit_set(system_status, BIT_CONTROLLER0_DETECTED),
        controller1_present: bit_set(system_status, BIT_CONTROLLER1_DETECTED),
    }
}

/// Decoded port of a state word.
pub open spec fn spec_port(state: PortState) -> Port {
    Port {
        receiver_status: spec_receiver_status(
            spec_byte_of(state.0, ADDR_CONTROLLER_LINK_STATUS),
        ),
        target: if spec_target_present(state) {
            Some(spec_target(state))
        } else {
            None
        },
    }
}

/// A power request may be sent on a state word exactly when a target is
/// present and none of its request bits is in flight.  This checks the raw
/// bits rather than the decoded power state, because an aborted system
/// still reports its in-flight request bits.
pub open spec fn spec_request_accepted(state: PortState) -> bool {
    let request_status = spec_byte_of(state.0, ADDR_TARGET_REQUEST_STATUS);
    &&& spec_target_present(state)
    &&& !bit_set(request_status, BIT_SYSTEM_RESET_IN_PROGRESS)
    &&& !bit_set(request_status, BIT_POWER_OFF_IN_PROGRESS)
    &&& !bit_set(request_status, BIT_POWER_ON_IN_PROGRESS)
}

/// The presence vector over the first `n` state words: bit `i` is set
/// exactly when a target is attached on port `i`.
pub open spec fn presence_bits(states: Seq<PortState>, n: int) -> u64
    decreases n,
{
    if n <= 0 {
        0u64
    } else {
        presence_bits(states, n - 1) | (if spec_target_present(states[n - 1]) {
            1u64 << ((n - 1) as u64)
        } else {
            0u64
        })
    }
}

/// Extracts byte `index` of a port state word.
fn byte_of(word: u64, index: u64) -> (byte: u8)
    requires
        index < 8,
    ensures
        byte == spec_byte_of(word, index),
{
    ((word >> (8 * index)) & 0xff) as u8
}

impl ReceiverStatus {
    /// Decodes a controller link status byte.
    pub fn from_byte(byte: u8) -> (status: ReceiverStatus)
        ensures
            status == spec_receiver_status(byte),
    {
        ReceiverStatus {
            aligned: byte & BIT_RECEIVER_ALIGNED != 0,
            locked: byte & BIT_RECEIVER_LOCKED != 0,
            polarity_inverted: byte & BIT_POLARITY_INVERTED != 0,
        }
    }
}

impl SystemPowerState {
    /// Decodes the power state from the system and request status bytes.
    pub fn from_status(system_status: u8, request_status: u8) -> (state: SystemPowerState)
        ensures
            state == spec_power_state(system_status, request_status),
    {
        if system_status & BIT_SYSTEM_POWER_ABORT != 0 {
            SystemPowerState::Aborted
        } else if request_status & BIT_POWER_ON_IN_PROGRESS != 0 {
            SystemPowerState::PoweringOn
        } else if request_status & BIT_POWER_OFF_IN_PROGRESS != 0 {
            SystemPowerState::PoweringOff
        } else if system_status & BIT_SYSTEM_POWER_ENABLED != 0 {
            SystemPowerState::On
        } else {
            SystemPowerState::Off
        }
    }
}

impl SystemFaults {
    /// Decodes a target system faults byte.
    pub fn from_byte(byte: u8) -> (faults: SystemFaults)
        ensures
            faults == spec_system_faults(byte),
    {
        SystemFaults {
            power_a3: byte & BIT_POWER_FAULT_A3 != 0,
            power_a2: byte & BIT_POWER_FAULT_A2 != 0,
            rot: byte & BIT_ROT_FAULT != 0,
            sp: byte & BIT_SP_FAULT != 0,
            reserved1: byte & BIT_RESERVED1 != 0,
            reserved2: byte & BIT_RESERVED2 != 0,
        }
    }
}

impl LinkEvents {
    /// Decodes a link events summary byte.
    pub fn from_u8(byte: u8) -> (events: LinkEvents)
        ensures
            events == spec_link_events(byte),
    {
        LinkEvents {
            encoding_error: byte & BIT_ENCODING_ERROR != 0,
            decoding_error: byte & BIT_DECODING_ERROR != 0,
            ordered_set_invalid: byte & BIT_ORDERED_SET_INVALID != 0,
            message_version_invalid: byte & BIT_MESSAGE_VERSION_INVALID != 0,
            message_type_invalid: byte & BIT_MESSAGE_TYPE_INVALID != 0,
            message_checksum_invalid: byte & BIT_MESSAGE_CHECKSUM_INVALID != 0,
        }
    }
}

impl Target {
    /// Decodes the target half of a port state word.
    pub fn from_state(state: PortState) -> (target: Target)
        ensures
            target == spec_target(state),
    {
        let system_status = byte_of(state.0, ADDR_TARGET_SYSTEM_STATUS);
        let request_status = byte_of(state.0, ADDR_TARGET_REQUEST_STATUS);
        Target {
            id: SystemId(byte_of(state.0, ADDR_TARGET_SYSTEM_TYPE)),
            power_state: SystemPowerState::from_status(system_status, request_status),
            power_reset_in_progress: request_status & BIT_SYSTEM_RESET_IN_PROGRESS != 0,
            faults: SystemFaults::from_byte(byte_of(state.0, ADDR_TARGET_SYSTEM_FAULTS)),
            controller0_present: system_status & BIT_CONTROLLER0_DETECTED != 0,
            controller1_present: system_status & BIT_CONTROLLER1_DETECTED != 0,
        }
    }

    /// Whether a power request is already being executed by this target.
    pub fn request_in_progress(&self) -> (in_progress: bool)
        ensures
            in_progress == (self.power_reset_in_progress || self.power_state
                == SystemPowerState::PoweringOff || self.power_state
                == SystemPowerState::PoweringOn),
    {
        self.power_reset_in_progress || self.power_state == SystemPowerState::PoweringOff
            || self.power_state == SystemPowerState::PoweringOn
    }
}

impl Port {
    /// Decodes a port state word.
    pub fn from_state(state: PortState) -> (port: Port)
        ensures
            port == spec_port(state),
    {
        let target_present = byte_of(state.0, ADDR_CONTROLLER_STATUS) & BIT_TARGET_PRESENT != 0;
        Port {
            receiver_status: ReceiverStatus::from_byte(
                byte_of(state.0, ADDR_CONTROLLER_LINK_STATUS),
            ),
            target: if target_present {
                Some(Target::from_state(state))
            } else {
                None
            },
        }
    }
}

/// A snapshot of the ignition controller: the state word, counters and
/// link-event bytes of each configured port, as last read from it.
pub struct Ignition {
    /// State word of each port.
    pub port_states: Vec<PortState>,
    /// Message counters of each port.
    pub port_counters: Vec<Counters>,
    /// Raw link-event bytes of each port.
    pub port_link_events: Vec<TransceiverEvents>,
}

impl Ignition {
    /// The snapshot invariant: one record of each kind per port, at most
    /// `PORT_MAX` ports.
    pub open spec fn wf(self) -> bool {
        &&& self.port_states@.len() <= PORT_MAX
        &&& self.port_counters@.len() == self.port_states@.len()
        &&& self.port_link_events@.len() == self.port_states@.len()
    }

    /// Number of configured ports.
    pub open spec fn spec_port_count(self) -> u8 {
        self.port_states@.len() as u8
    }

    /// Builds a snapshot from the controller's raw data.
    pub fn new(
        port_states: Vec<PortState>,
        port_counters: Vec<Counters>,
        port_link_events: Vec<TransceiverEvents>,
    ) -> (ignition: Ignition)
        requires
            port_states@.len() <= PORT_MAX,
            port_counters@.len() == port_states@.len(),
            port_link_events@.len() == port_states@.len(),
        ensures
            ignition == (Ignition { port_states, port_counters, port_link_events }),
            ignition.wf(),
    {
        Ignition { port_states, port_counters, port_link_events }
    }

    /// Number of configured ports.
    pub fn port_count(&self) -> (count: Result<u8, IgnitionError>)
        requires
            self.wf(),
        ensures
            count == Ok::<u8, IgnitionError>(self.spec_port_count()),
    {
        Ok(self.port_states.len() as u8)
    }

    /// The presence vector: bit `i` set exactly when port `i` has a target
    /// attached.
    pub fn presence_summary(&self) -> (summary: Result<u64, IgnitionError>)
        requires
            self.wf(),
        ensures
            summary == Ok::<u64, IgnitionError>(
                presence_bits(self.port_states@, self.port_states@.len() as int),
            ),
    {
        let mut summary: u64 = 0;
        let mut i: usize = 0;
        while i < self.port_states.len()
            invariant
                i <= self.port_states@.len(),
                self.port_states@.len() <= PORT_MAX,
                summary == presence_bits(self.port_states@, i as int),
            decreases self.port_states@.len() - i,
        {
            let state = self.port_states[i];
            let present = byte_of(state.0, ADDR_CONTROLLER_STATUS) & BIT_TARGET_PRESENT != 0;
            if present {
                summary = summary | (1u64 << (i as u64));
            } else {
                proof {
                    assert(summary | 0u64 == summary) by (bit_vector);
                }
            }
            i = i + 1;
        }
        Ok(summary)
    }

    /// The decoded state of one port.
    pub fn port(&self, port: u8) -> (result: Result<Port, IgnitionError>)
        requires
            self.wf(),
        ensures
            result == (if port < self.spec_port_count() {
                Ok::<Port, IgnitionError>(spec_port(self.port_states@[port as int]))
            } else {
                Err::<Port, IgnitionError>(IgnitionError::InvalidPort)
            }),
    {
        if (port as usize) < self.port_states.len() {
            Ok(Port::from_state(self.port_states[port as usize]))
        } else {
            Err(IgnitionError::InvalidPort)
        }
    }

    /// The decoded target of one port, if one is attached.
    pub fn target(&self, port: u8) -> (result: Result<Option<Target>, IgnitionError>)
        requires
            self.wf(),
        ensures
            result == (if port < self.spec_port_count() {
                Ok::<Option<Target>, IgnitionError>(spec_port(self.port_states@[port as int]).target)
            } else {
                Err::<Option<Target>, IgnitionError>(IgnitionError::InvalidPort)
            }),
    {
        match self.port(port) {
            Ok(decoded) => Ok(decoded.target),
            Err(error) => Err(error),
        }
    }

    /// Validates a power request against one port's state: the port must
    /// exist, have a target attached, and have no request in flight.  The
    /// request itself travels on the wire unchanged (see `Request::code`),
    /// so acceptance depends on the port alone.
    #[allow(unused_variables)]
    pub fn send_request(&self, port: u8, request: Request) -> (result: Result<(), IgnitionError>)
        requires
            self.wf(),
        ensures
            result == (if port >= self.spec_port_count() {
                Err::<(), IgnitionError>(IgnitionError::InvalidPort)
            } else if !spec_target_present(self.port_states@[port as int]) {
                Err::<(), IgnitionError>(IgnitionError::NoTargetPresent)
            } else if !spec_request_accepted(self.port_states@[port as int]) {
                Err::<(), IgnitionError>(IgnitionError::RequestInProgress)
            } else {
                Ok::<(), IgnitionError>(())
            }),
    {
        if (port as usize) >= self.port_states.len() {
            return Err(IgnitionError::InvalidPort);
        }
        let state = self.port_states[port as usize];
        if byte_of(state.0, ADDR_CONTROLLER_STATUS) & BIT_TARGET_PRESENT == 0 {
            return Err(IgnitionError::NoTargetPresent);
        }
        let request_status = byte_of(state.0, ADDR_TARGET_REQUEST_STATUS);
        if request_status & BIT_SYSTEM_RESET_IN_PROGRESS != 0 || request_status
            & BIT_POWER_OFF_IN_PROGRESS != 0 || request_status & BIT_POWER_ON_IN_PROGRESS != 0 {
            return Err(IgnitionError::RequestInProgress);
        }
        Ok(())
    }

    /// The message counters of one port.
    pub fn counters(&self, port: u8) -> (result: Result<Counters, IgnitionError>)
        requires
            self.wf(),
        ensures
            result == (if port < self.spec_port_count() {
                Ok::<Counters, IgnitionError>(self.port_counters@[port as int])
            } else {
                Err::<Counters, IgnitionError>(IgnitionError::InvalidPort)
            }),
    {
        if (port as usize) < self.port_counters.len() {
            Ok(self.port_counters[port as usize])
        } else {
            Err(IgnitionError::InvalidPort)
        }
    }

    /// The summary byte one transceiver selection reads.
    pub open spec fn spec_event_byte(events: TransceiverEvents, txr: TransceiverSelect) -> u8 {
        match txr {
            TransceiverSelect::Controller => events.controller,
            TransceiverSelect::TargetLink0 => events.target_link0,
            TransceiverSelect::TargetLink1 => events.target_link1,
        }
    }

    /// The link events observed by one transceiver of one port.
    pub fn link_events(&self, port: u8, txr: TransceiverSelect) -> (result: Result<
        LinkEvents,
        IgnitionError,
    >)
        requires
            self.wf(),
        ensures
            result == (if port < self.spec_port_count() {
                Ok::<LinkEvents, IgnitionError>(
                    spec_link_events(
                        Ignition::spec_event_byte(self.port_link_events@[port as int], txr),
                    ),
                )
            } else {
                Err::<LinkEvents, IgnitionError>(IgnitionError::InvalidPort)
            }),
    {
        if (port as usize) < self.port_link_events.len() {
            let events = self.port_link_events[port as usize];
            let byte = match txr {
                TransceiverSelect::Controller => events.controller,
                TransceiverSelect::TargetLink0 => events.target_link0,
                TransceiverSelect::TargetLink1 => events.target_link1,
            };
            Ok(LinkEvents::from_u8(byte))
        } else {
            Err(IgnitionError::InvalidPort)
        }
    }

    /// Clears the events recorded for one transceiver of one port.
    pub fn clear_link_events(&mut self, port: u8, txr: TransceiverSelect) -> (result: Result<
        (),
        IgnitionError,
    >)
        requires
            old(self).wf(),
        ensures
            final(self).wf(),
            final(self).port_states == old(self).port_states,
            final(self).port_counters == old(self).port_counters,
            result == (if port < old(self).spec_port_count() {
                Ok::<(), IgnitionError>(())
            } else {
                Err::<(), IgnitionError>(IgnitionError::InvalidPort)
            }),
            result is Ok ==> {
                &&& final(self).port_link_events@.len() == old(self).port_link_events@.len()
                &&& forall|i: int|
                    0 <= i < old(self).port_link_events@.len() && i != port as int
                        ==> #[trigger] final(self).port_link_events@[i] == old(
                        self,
                    ).port_link_events@[i]
                &&& final(self).port_link_events@[port as int] == (Ignition::spec_cleared(
                    old(self).port_link_events@[port as int],
                    txr,
                ))
            },
            result is Err ==> final(self).port_link_events == old(self).port_link_events,
    {
        if (port as usize) < self.port_link_events.len() {
            let mut events = self.port_link_events[port as usize];
            match txr {
                TransceiverSelect::Controller => {
                    events.controller = 0;
                },
                TransceiverSelect::TargetLink0 => {
                    events.target_link0 = 0;
                },
                TransceiverSelect::TargetLink1 => {
                    events.target_link1 = 0;
                },
            }
            self.port_link_events.set(port as usize, events);
            Ok(())
        } else {
            Err(IgnitionError::InvalidPort)
        }
    }

    /// One port's event bytes with the selected transceiver's byte cleared.
    pub open spec fn spec_cleared(
        events: TransceiverEvents,
        txr: TransceiverSelect,
    ) -> TransceiverEvents {
        match txr {
            TransceiverSelect::Controller => TransceiverEvents { controller: 0, ..events },
            TransceiverSelect::TargetLink0 => TransceiverEvents { target_link0: 0, ..events },
            TransceiverSelect::TargetLink1 => TransceiverEvents { target_link1: 0, ..events },
        }
    }

    /// The targets of every port: one slot per possible port, `None` past
    /// the configured count or where no target is attached.
    pub fn targets(&self) -> (result: Result<Vec<Option<Target>>, IgnitionError>)
        requires
            self.wf(),
        ensures
            result matches Ok(targets) && targets@.len() == PORT_MAX && forall|i: int|
                0 <= i < PORT_MAX ==> #[trigger] targets@[i] == (if i
                    < self.port_states@.len() {
                    spec_port(self.port_states@[i]).target
                } else {
                    None::<Target>
                }),
    {
        let mut targets: Vec<Option<Target>> = Vec::new();
        let mut i: usize = 0;
        while i < self.port_states.len()
            invariant
                i <= self.port_states@.len(),
                self.port_states@.len() <= PORT_MAX,
                targets@.len() == i,
                forall|k: int|
                    0 <= k < i ==> #[trigger] targets@[k] == spec_port(
                        self.port_states@[k],
                    ).target,
            decreases self.port_states@.len() - i,
        {
            let port = Port::from_state(self.port_states[i]);
            targets.push(port.target);
            i = i + 1;
        }
        while i < PORT_MAX as usize
            invariant
                self.port_states@.len() <= i <= PORT_MAX,
                targets@.len() == i,
                forall|k: int|
                    0 <= k < i ==> #[trigger] targets@[k] == (if k < self.port_states@.len() {
                        spec_port(self.port_states@[k]).target
                    } else {
                        None::<Target>
                    }),
            decreases PORT_MAX - i,
        {
            targets.push(None);
            i = i + 1;
        }
        Ok(targets)
    }
}

} // verus!
