use vstd::prelude::*;
use crate::endpoint::{Endpoint, EndpointView};

verus! {

/// One characteristic a protocol table references: the logical
/// endpoint it serves and the characteristic identifier under which
/// it is resolved on the live device.
#[derive(Debug)]
pub struct CharacteristicSpec {
    pub endpoint: Endpoint,
    pub id: String,
}

/// The mathematical value of a [`CharacteristicSpec`].
pub struct CharacteristicSpecView {
    pub endpoint: EndpointView,
    pub id: Seq<char>,
}

impl View for CharacteristicSpec {
    type V = CharacteristicSpecView;

    open spec fn view(&self) -> CharacteristicSpecView {
        CharacteristicSpecView { endpoint: self.endpoint@, id: self.id@ }
    }
}

/// One service of a protocol table: its identifier and the
/// characteristics expected under it.
#[derive(Debug)]
pub struct ServiceSpec {
    pub id: String,
    pub characteristics: Vec<CharacteristicSpec>,
}

/// The mathematical value of a [`ServiceSpec`].
pub struct ServiceSpecView {
    pub id: Seq<char>,
    pub characteristics: Seq<CharacteristicSpecView>,
}

impl View for ServiceSpec {
    type V = ServiceSpecView;

    open spec fn view(&self) -> ServiceSpecView {
        ServiceSpecView {
            id: self.id@,
            characteristics: self.characteristics@.map_values(|c: CharacteristicSpec| c@),
        }
    }
}

/// A protocol description: the device-name patterns it accepts (exact
/// name, or name prefix when the pattern ends in the wildcard marker)
/// and its service table. Immutable, supplied externally.
#[derive(Debug)]
pub struct ProtocolSpecifier {
    pub name_patterns: Vec<String>,
    pub services: Vec<ServiceSpec>,
}

/// The mathematical value of a [`ProtocolSpecifier`].
pub struct ProtocolSpecifierView {
    pub name_patterns: Seq<Seq<char>>,
    pub services: Seq<ServiceSpecView>,
}

impl View for ProtocolSpecifier {
    type V = ProtocolSpecifierView;

    open spec fn view(&self) -> ProtocolSpecifierView {
        ProtocolSpecifierView {
            name_patterns: self.name_patterns@.map_values(|p: String| p@),
            services: self.services@.map_values(|s: ServiceSpec| s@),
        }
    }
}

/// The views of a catalog of specifiers.
pub open spec fn catalog_views(catalog: Seq<ProtocolSpecifier>) -> Seq<ProtocolSpecifierView> {
    catalog.map_values(|s: ProtocolSpecifier| s@)
}

/// The best-guess specifier built for a freshly discovered device:
/// it accepts exactly the device's reported name and references no
/// services, deferring exact protocol resolution to the handshake.
pub fn specifier_from_name(name: &String) -> (specifier: ProtocolSpecifier)
    ensures
        specifier@.name_patterns =~= seq![name@],
        specifier@.services =~= Seq::<ServiceSpecView>::empty(),
{
    let mut name_patterns: Vec<String> = Vec::new();
    name_patterns.push(name.clone());
    ProtocolSpecifier { name_patterns, services: Vec::new() }
}

} // verus!
