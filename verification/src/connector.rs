use vstd::prelude::*;
use crate::error::{DeviceError, DeviceErrorView};
use crate::specifier::{ProtocolSpecifier, ServiceSpecView, specifier_from_name};

verus! {

/// What discovery reports of one candidate device: its reported name
/// and its stable address. Ownership transfers once to the connector
/// and is consumed exactly once by the handshake.
#[derive(Debug)]
pub struct DeviceDescriptor {
    pub name: String,
    pub address: String,
}

/// The mathematical value of a [`DeviceDescriptor`].
pub struct DeviceDescriptorView {
    pub name: Seq<char>,
    pub address: Seq<char>,
}

impl View for DeviceDescriptor {
    type V = DeviceDescriptorView;

    open spec fn view(&self) -> DeviceDescriptorView {
        DeviceDescriptorView { name: self.name@, address: self.address@ }
    }
}

/// Phase one of the one-shot connection handshake: holds the
/// un-specialized descriptor of one discovered device. `connect`
/// consumes it, transitioning to phase two.
#[derive(Debug)]
pub struct HardwareConnector {
    descriptor: DeviceDescriptor,
}

impl View for HardwareConnector {
    type V = DeviceDescriptorView;

    closed spec fn view(&self) -> DeviceDescriptorView {
        self.descriptor@
    }
}

impl HardwareConnector {
    /// Wraps one discovered device for the handshake.
    pub fn new(descriptor: DeviceDescriptor) -> (connector: HardwareConnector)
        ensures
            connector@ == descriptor@,
    {
        HardwareConnector { descriptor }
    }

    /// The best-guess specifier for this device, built from its
    /// reported name alone: one exact name pattern and no services.
    /// An outer registry uses it to pre-filter candidate protocols
    /// before committing to a connection attempt; exact protocol
    /// resolution is deferred to phase two.
    pub fn specifier(&self) -> (specifier: ProtocolSpecifier)
        ensures
            specifier@.name_patterns == seq![self@.name],
            specifier@.services == Seq::<ServiceSpecView>::empty(),
    {
        specifier_from_name(&self.descriptor.name)
    }

    /// Consumes the descriptor — exactly once — and transitions to
    /// phase two, the specializer that drives the session startup.
    pub fn connect(self) -> (specializer: HardwareSpecializer)
        ensures
            specializer@ == self@,
    {
        HardwareSpecializer { descriptor: self.descriptor }
    }
}

/// Phase two of the handshake: picks the protocol specifier to use,
/// starts the session's dispatch loop bound to the device, and waits
/// for the loop's one startup signal.
#[derive(Debug)]
pub struct HardwareSpecializer {
    descriptor: DeviceDescriptor,
}

impl View for HardwareSpecializer {
    type V = DeviceDescriptorView;

    closed spec fn view(&self) -> DeviceDescriptorView {
        self.descriptor@
    }
}

/// The one startup signal the session's dispatch loop sends over its
/// dedicated single-use channel: the physical connection either came
/// up or failed.
#[derive(Debug, Clone, Copy, PartialEq, Eq, Structural)]
pub enum SessionEvent {
    Connected,
    Disconnected,
}

/// The identity of a live session: the connected device's reported
/// name and stable address.
#[derive(Debug)]
pub struct SessionInfo {
    pub name: String,
    pub address: String,
}

impl HardwareSpecializer {
    /// Picks the specifier to use for the session: the first
    /// candidate. Callers guarantee at least one candidate before
    /// invoking specialization — an empty candidate list is a fatal
    /// internal error, not a recoverable one, and is excluded here.
    pub fn choose_specifier<'a>(&self, candidates: &'a Vec<ProtocolSpecifier>) -> (chosen: &'a ProtocolSpecifier)
        requires
            candidates@.len() > 0,
        ensures
            chosen == &candidates@[0],
    {
        &candidates[0]
    }

    /// Resolves the handshake once the startup signal arrives:
    /// a connected session yields the live session's identity; a
    /// disconnection during startup yields the typed connection
    /// failure, and the caller must retry via a fresh discovery
    /// cycle.
    pub fn session_outcome(self, event: SessionEvent) -> (outcome: Result<SessionInfo, DeviceError>)
        ensures
            event == SessionEvent::Connected ==> (outcome matches Ok(info) && info.name@ == self@.name
                && info.address@ == self@.address),
            event == SessionEvent::Disconnected ==> (outcome matches Err(error) && error@
                == DeviceErrorView::ConnectionFailed("could not connect to the device"@)),
    {
        match event {
            SessionEvent::Connected => Ok(SessionInfo {
                name: self.descriptor.name,
                address: self.descriptor.address,
            }),
            SessionEvent::Disconnected => Err(DeviceError::ConnectionFailed(String::from_str(
                "could not connect to the device",
            ))),
        }
    }
}

} // verus!
