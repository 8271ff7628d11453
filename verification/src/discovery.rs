use vstd::prelude::*;
use vstd::string::*;
use crate::error::{DeviceError, DeviceErrorView};
use crate::specifier::{ProtocolSpecifier, ProtocolSpecifierView, ServiceSpecView, catalog_views};

verus! {

/// One entry of the scan filter set handed to the platform: match a
/// device by its exact name, or by a prefix of its name.
#[derive(Debug)]
pub enum ScanFilter {
    Name(String),
    NamePrefix(String),
}

/// The mathematical value of a [`ScanFilter`].
pub enum ScanFilterView {
    Name(Seq<char>),
    NamePrefix(Seq<char>),
}

impl View for ScanFilter {
    type V = ScanFilterView;

    open spec fn view(&self) -> ScanFilterView {
        match self {
            ScanFilter::Name(name) => ScanFilterView::Name(name@),
            ScanFilter::NamePrefix(prefix) => ScanFilterView::NamePrefix(prefix@),
        }
    }
}

/// What one scan attempt is asked to look for: the name filters and
/// the allowlist of services the platform must expose after a
/// connection, as a union across every known specifier.
#[derive(Debug)]
pub struct ScanOptions {
    pub filters: Vec<ScanFilter>,
    pub optional_services: Vec<String>,
}

/// The views of a sequence of filters.
pub open spec fn filter_views(filters: Seq<ScanFilter>) -> Seq<ScanFilterView> {
    filters.map_values(|f: ScanFilter| f@)
}

/// The views of a sequence of identifier strings.
pub open spec fn string_views(strings: Seq<String>) -> Seq<Seq<char>> {
    strings.map_values(|s: String| s@)
}

/// The filter one name pattern produces: a pattern ending in the
/// wildcard marker gives a prefix filter with the marker stripped;
/// any other pattern gives an exact-name filter.
pub open spec fn pattern_filter(pattern: Seq<char>) -> ScanFilterView {
    if pattern.len() > 0 && pattern.last() == '*' {
        ScanFilterView::NamePrefix(pattern.drop_last())
    } else {
        ScanFilterView::Name(pattern)
    }
}

/// The filters one specifier contributes: one per name pattern, in
/// order.
pub open spec fn specifier_filters(specifier: ProtocolSpecifierView) -> Seq<ScanFilterView> {
    specifier.name_patterns.map_values(|p: Seq<char>| pattern_filter(p))
}

/// The allowlisted services one specifier contributes: one per
/// referenced service identifier, in order.
pub open spec fn specifier_services(specifier: ProtocolSpecifierView) -> Seq<Seq<char>> {
    specifier.services.map_values(|s: ServiceSpecView| s.id)
}

/// The filter set of a whole catalog: the union (in catalog order) of
/// every specifier's filters.
pub open spec fn catalog_filters(catalog: Seq<ProtocolSpecifierView>) -> Seq<ScanFilterView>
    decreases catalog.len(),
{
    if catalog.len() == 0 {
        Seq::empty()
    } else {
        catalog_filters(catalog.drop_last()) + specifier_filters(catalog.last())
    }
}

/// The service allowlist of a whole catalog: the union (in catalog
/// order) of every specifier's referenced service identifiers.
pub open spec fn catalog_services(catalog: Seq<ProtocolSpecifierView>) -> Seq<Seq<char>>
    decreases catalog.len(),
{
    if catalog.len() == 0 {
        Seq::empty()
    } else {
        catalog_services(catalog.drop_last()) + specifier_services(catalog.last())
    }
}

/// The scan filter set contains one entry per name pattern of the
/// catalog, and the allowlist one service per referenced service
/// identifier.
pub proof fn lemma_scan_set_cardinality(catalog: Seq<ProtocolSpecifierView>)
    ensures
        catalog_filters(catalog).len() == total_patterns(catalog),
        catalog_services(catalog).len() == total_services(catalog),
    decreases catalog.len(),
{
    if catalog.len() > 0 {
        lemma_scan_set_cardinality(catalog.drop_last());
    }
}

/// The number of name patterns across a catalog.
pub open spec fn total_patterns(catalog: Seq<ProtocolSpecifierView>) -> nat
    decreases catalog.len(),
{
    if catalog.len() == 0 {
        0
    } else {
        total_patterns(catalog.drop_last()) + catalog.last().name_patterns.len()
    }
}

/// The number of referenced service identifiers across a catalog.
pub open spec fn total_services(catalog: Seq<ProtocolSpecifierView>) -> nat
    decreases catalog.len(),
{
    if catalog.len() == 0 {
        0
    } else {
        total_services(catalog.drop_last()) + catalog.last().services.len()
    }
}

/// Builds the filter one name pattern asks for.
pub fn filter_for_pattern(pattern: &String) -> (filter: ScanFilter)
    ensures
        filter@ == pattern_filter(pattern@),
{
    let s: &str = pattern.as_str();
    let n: usize = s.unicode_len();
    if n > 0 && s.get_char(n - 1) == '*' {
        let stripped: &str = s.substring_char(0, n - 1);
        ScanFilter::NamePrefix(String::from_str(stripped))
    } else {
        ScanFilter::Name(pattern.clone())
    }
}

/// Builds the scan filter set and service allowlist for a catalog of
/// known specifiers. Filters are a union across all specifiers, so a
/// single scan can surface devices of any known protocol family.
pub fn build_scan_options(catalog: &Vec<ProtocolSpecifier>) -> (options: ScanOptions)
    ensures
        filter_views(options.filters@) == catalog_filters(catalog_views(catalog@)),
        string_views(options.optional_services@) == catalog_services(catalog_views(catalog@)),
{
    let ghost cviews = catalog_views(catalog@);
    let mut filters: Vec<ScanFilter> = Vec::new();
    let mut optional_services: Vec<String> = Vec::new();
    let mut i: usize = 0;
    while i < catalog.len()
        invariant
            i <= catalog.len(),
            cviews == catalog_views(catalog@),
            cviews.len() == catalog.len(),
            forall|k: int| 0 <= k < catalog.len() ==> cviews[k] == #[trigger] catalog@[k]@,
            filter_views(filters@) == catalog_filters(cviews.take(i as int)),
            string_views(optional_services@) == catalog_services(cviews.take(i as int)),
        decreases catalog.len() - i,
    {
        let entry = &catalog[i];
        let ghost done_filters = catalog_filters(cviews.take(i as int));
        let ghost done_services = catalog_services(cviews.take(i as int));
        let ghost pviews = cviews[i as int].name_patterns;
        let mut j: usize = 0;
        while j < entry.name_patterns.len()
            invariant
                j <= entry.name_patterns.len(),
                pviews == entry@.name_patterns,
                pviews.len() == entry.name_patterns.len(),
                filter_views(filters@) == done_filters + pviews.take(j as int).map_values(
                    |p: Seq<char>| pattern_filter(p),
                ),
            decreases entry.name_patterns.len() - j,
        {
            let filter = filter_for_pattern(&entry.name_patterns[j]);
            proof {
                assert(pviews[j as int] == entry.name_patterns@[j as int]@);
                pviews.lemma_map_take_succ(|p: Seq<char>| pattern_filter(p), j as int);
                assert(filter_views(filters@.push(filter)) =~= filter_views(filters@).push(
                    filter@,
                ));
                assert(done_filters + pviews.take(j as int).map_values(
                    |p: Seq<char>| pattern_filter(p),
                ).push(filter@) =~= done_filters + pviews.take(j + 1 as int).map_values(
                    |p: Seq<char>| pattern_filter(p),
                ));
            }
            filters.push(filter);
            j += 1;
        }
        let ghost sviews = cviews[i as int].services;
        let mut k: usize = 0;
        while k < entry.services.len()
            invariant
                k <= entry.services.len(),
                sviews == entry@.services,
                sviews.len() == entry.services.len(),
                string_views(optional_services@) == done_services + sviews.take(k as int).map_values(
                    |s: ServiceSpecView| s.id,
                ),
            decreases entry.services.len() - k,
        {
            let id = entry.services[k].id.clone();
            proof {
                assert(sviews[k as int] == entry.services@[k as int]@);
                sviews.lemma_map_take_succ(|s: ServiceSpecView| s.id, k as int);
                assert(string_views(optional_services@.push(id)) =~= string_views(
                    optional_services@,
                ).push(id@));
                assert(done_services + sviews.take(k as int).map_values(
                    |s: ServiceSpecView| s.id,
                ).push(id@) =~= done_services + sviews.take(k + 1 as int).map_values(
                    |s: ServiceSpecView| s.id,
                ));
            }
            optional_services.push(id);
            k += 1;
        }
        proof {
            assert(pviews.take(pviews.len() as int) =~= pviews);
            assert(sviews.take(sviews.len() as int) =~= sviews);
            assert(cviews.take(i + 1 as int).drop_last() =~= cviews.take(i as int));
            assert(cviews.take(i + 1 as int).last() == cviews[i as int]);
            assert(filter_views(filters@) == catalog_filters(cviews.take(i + 1 as int)));
            assert(string_views(optional_services@) == catalog_services(cviews.take(i + 1 as int)));
        }
        i += 1;
    }
    proof {
        assert(cviews.take(catalog.len() as int) =~= cviews);
    }
    ScanOptions { filters, optional_services }
}

/// What one scan attempt's platform device request produced: a chosen
/// device (whose reported name the platform may lack), or a
/// platform-level scan error such as a user cancellation.
#[derive(Debug)]
pub enum ScanOutcome {
    Chosen { name: Option<String>, address: String },
    Failed,
}

/// The mathematical value of a [`ScanOutcome`].
pub enum ScanOutcomeView {
    Chosen { name: Option<Seq<char>>, address: Seq<char> },
    Failed,
}

impl View for ScanOutcome {
    type V = ScanOutcomeView;

    open spec fn view(&self) -> ScanOutcomeView {
        match self {
            ScanOutcome::Chosen { name: Some(name), address } => ScanOutcomeView::Chosen {
                name: Some(name@),
                address: address@,
            },
            ScanOutcome::Chosen { name: None, address } => ScanOutcomeView::Chosen {
                name: None,
                address: address@,
            },
            ScanOutcome::Failed => ScanOutcomeView::Failed,
        }
    }
}

/// A discovery signal delivered to the outer registry.
#[derive(Debug)]
pub enum DiscoveryEvent {
    DeviceFound { name: String, address: String },
    ScanningFinished,
}

/// The mathematical value of a [`DiscoveryEvent`].
pub enum DiscoveryEventView {
    DeviceFound { name: Seq<char>, address: Seq<char> },
    ScanningFinished,
}

impl View for DiscoveryEvent {
    type V = DiscoveryEventView;

    open spec fn view(&self) -> DiscoveryEventView {
        match self {
            DiscoveryEvent::DeviceFound { name, address } => DiscoveryEventView::DeviceFound {
                name: name@,
                address: address@,
            },
            DiscoveryEvent::ScanningFinished => DiscoveryEventView::ScanningFinished,
        }
    }
}

/// The views of a sequence of discovery events.
pub open spec fn discovery_views(events: Seq<DiscoveryEvent>) -> Seq<DiscoveryEventView> {
    events.map_values(|e: DiscoveryEvent| e@)
}

/// The signals one scan attempt emits for a given platform outcome: a
/// named device yields a found-device signal; a nameless device or a
/// platform-level error is folded into a zero-result scan. Every
/// attempt terminates with exactly one scan-finished signal.
pub open spec fn outcome_events(outcome: ScanOutcomeView) -> Seq<DiscoveryEventView> {
    match outcome {
        ScanOutcomeView::Chosen { name: Some(name), address } => seq![
            DiscoveryEventView::DeviceFound { name, address },
            DiscoveryEventView::ScanningFinished,
        ],
        ScanOutcomeView::Chosen { name: None, address } => seq![
            DiscoveryEventView::ScanningFinished,
        ],
        ScanOutcomeView::Failed => seq![DiscoveryEventView::ScanningFinished],
    }
}

/// Turns the platform outcome of one scan attempt into the discovery
/// signals to deliver, in order.
pub fn scan_events(outcome: ScanOutcome) -> (events: Vec<DiscoveryEvent>)
    ensures
        discovery_views(events@) == outcome_events(outcome@),
{
    let ghost oview = outcome@;
    let mut events: Vec<DiscoveryEvent> = Vec::new();
    match outcome {
        ScanOutcome::Chosen { name: Some(name), address } => {
            events.push(DiscoveryEvent::DeviceFound { name, address });
        },
        ScanOutcome::Chosen { name: None, address: _ } => {},
        ScanOutcome::Failed => {},
    }
    events.push(DiscoveryEvent::ScanningFinished);
    proof {
        assert(discovery_views(events@) =~= outcome_events(oview));
    }
    events
}

/// Whether scanning is supported at all on the current host: a static
/// capability check, not scan state. The platform's own availability
/// is only known at scan time, so the static answer is always yes.
pub fn can_scan() -> (supported: bool)
    ensures
        supported,
{
    true
}

/// The acknowledgement a scan start returns: capability absence is a
/// terminal, reported failure for that scan attempt; otherwise the
/// start is acknowledged at once and the scan proceeds best-effort.
pub fn scan_start_decision(bluetooth_available: bool) -> (r: Result<(), DeviceError>)
    ensures
        bluetooth_available ==> r is Ok,
        !bluetooth_available ==> (r matches Err(e) && e@ == DeviceErrorView::CapabilityUnavailable),
{
    if bluetooth_available {
        Ok(())
    } else {
        Err(DeviceError::CapabilityUnavailable)
    }
}

} // verus!
