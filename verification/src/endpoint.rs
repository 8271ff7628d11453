use vstd::prelude::*;

verus! {

/// A logical named channel a caller addresses, independent of the
/// physical characteristic backing it. The enumeration is open:
/// besides the two well-known channels, a protocol table may name
/// arbitrary device-specific endpoints.
#[derive(Debug)]
pub enum Endpoint {
    Tx,
    Rx,
    Named(String),
}

/// The mathematical value of an [`Endpoint`].
pub enum EndpointView {
    Tx,
    Rx,
    Named(Seq<char>),
}

impl View for Endpoint {
    type V = EndpointView;

    open spec fn view(&self) -> EndpointView {
        match self {
            Endpoint::Tx => EndpointView::Tx,
            Endpoint::Rx => EndpointView::Rx,
            Endpoint::Named(name) => EndpointView::Named(name@),
        }
    }
}

impl Clone for Endpoint {
    fn clone(&self) -> (other: Self)
        ensures
            other@ == self@,
    {
        match self {
            Endpoint::Tx => Endpoint::Tx,
            Endpoint::Rx => Endpoint::Rx,
            Endpoint::Named(name) => Endpoint::Named(name.clone()),
        }
    }
}

impl PartialEq for Endpoint {
    fn eq(&self, other: &Self) -> bool {
        match (self, other) {
            (Endpoint::Tx, Endpoint::Tx) => true,
            (Endpoint::Rx, Endpoint::Rx) => true,
            (Endpoint::Named(a), Endpoint::Named(b)) => *a == *b,
            _ => false,
        }
    }
}

impl vstd::std_specs::cmp::PartialEqSpecImpl for Endpoint {
    open spec fn obeys_eq_spec() -> bool {
        true
    }

    open spec fn eq_spec(&self, other: &Self) -> bool {
        self@ == other@
    }
}

/// Identifier of the vendor's proprietary motor characteristic, which
/// is always remapped onto the canonical `Tx` endpoint.
pub open spec fn motor_characteristic_id() -> Seq<char> {
    "00001401-0000-1000-8000-00805f9b34fb"@
}

/// Identifier of the vendor's proprietary solenoid characteristic,
/// which is always remapped onto the canonical `Rx` endpoint.
pub open spec fn solenoid_characteristic_id() -> Seq<char> {
    "00001402-0000-1000-8000-00805f9b34fb"@
}

/// The endpoint a characteristic is filed under: the two hard-coded
/// vendor characteristic identifiers always resolve to `Tx` and `Rx`
/// respectively, overriding whatever endpoint name the protocol table
/// assigned them; every other characteristic keeps its assigned
/// endpoint.
pub open spec fn overridden_endpoint(assigned: EndpointView, characteristic_id: Seq<char>) -> EndpointView {
    if characteristic_id == motor_characteristic_id() {
        EndpointView::Tx
    } else if characteristic_id == solenoid_characteristic_id() {
        EndpointView::Rx
    } else {
        assigned
    }
}

/// Applies the fixed identifier-override table to one characteristic:
/// the vendor's motor and solenoid identifiers land on `Tx` and `Rx`,
/// anything else keeps the endpoint the protocol table assigned.
pub fn endpoint_for_characteristic(assigned: Endpoint, characteristic_id: &String) -> (endpoint: Endpoint)
    ensures
        endpoint@ == overridden_endpoint(assigned@, characteristic_id@),
{
    let motor = String::from_str("00001401-0000-1000-8000-00805f9b34fb");
    let solenoid = String::from_str("00001402-0000-1000-8000-00805f9b34fb");
    if *characteristic_id == motor {
        Endpoint::Tx
    } else if *characteristic_id == solenoid {
        Endpoint::Rx
    } else {
        assigned
    }
}

} // verus!
