use vstd::prelude::*;
use crate::endpoint::{Endpoint, EndpointView};

verus! {

/// The error taxonomy of the engine.
///
/// - `CapabilityUnavailable`: the host lacks scanning support,
///   reported once at scan start.
/// - `ConnectionFailed`: the platform connect or the handshake
///   failed; terminal for that connect attempt.
/// - `DeviceCommunication`: a platform I/O failure during a
///   read/write/subscribe/unsubscribe, carrying the platform's
///   diagnostic text; reported to that command's completion only.
/// - `UnknownEndpoint`: a command targeted an endpoint absent from
///   the session's endpoint map; reported to that command's
///   completion only.
#[derive(Debug)]
pub enum DeviceError {
    CapabilityUnavailable,
    ConnectionFailed(String),
    DeviceCommunication(String),
    UnknownEndpoint(Endpoint),
}

/// The mathematical value of a [`DeviceError`].
pub enum DeviceErrorView {
    CapabilityUnavailable,
    ConnectionFailed(Seq<char>),
    DeviceCommunication(Seq<char>),
    UnknownEndpoint(EndpointView),
}

impl View for DeviceError {
    type V = DeviceErrorView;

    open spec fn view(&self) -> DeviceErrorView {
        match self {
            DeviceError::CapabilityUnavailable => DeviceErrorView::CapabilityUnavailable,
            DeviceError::ConnectionFailed(msg) => DeviceErrorView::ConnectionFailed(msg@),
            DeviceError::DeviceCommunication(msg) => DeviceErrorView::DeviceCommunication(msg@),
            DeviceError::UnknownEndpoint(endpoint) => DeviceErrorView::UnknownEndpoint(endpoint@),
        }
    }
}

} // verus!
