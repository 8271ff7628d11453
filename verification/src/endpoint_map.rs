use vstd::prelude::*;
use crate::endpoint::{Endpoint, EndpointView, endpoint_for_characteristic, overridden_endpoint};
use crate::specifier::{CharacteristicSpecView, ServiceSpec, ServiceSpecView};

verus! {

/// One characteristic the live device exposes under a resolved
/// service: its identifier, and the opaque handle the platform gave
/// it (an index into the shell's table of platform objects).
#[derive(Debug)]
pub struct DeviceCharacteristic {
    pub id: String,
    pub handle: u64,
}

/// The mathematical value of a [`DeviceCharacteristic`].
pub struct DeviceCharacteristicView {
    pub id: Seq<char>,
    pub handle: u64,
}

impl View for DeviceCharacteristic {
    type V = DeviceCharacteristicView;

    open spec fn view(&self) -> DeviceCharacteristicView {
        DeviceCharacteristicView { id: self.id@, handle: self.handle }
    }
}

/// One service the live device exposes: its identifier and the
/// characteristics found under it.
#[derive(Debug)]
pub struct DeviceService {
    pub id: String,
    pub characteristics: Vec<DeviceCharacteristic>,
}

/// The mathematical value of a [`DeviceService`].
pub struct DeviceServiceView {
    pub id: Seq<char>,
    pub characteristics: Seq<DeviceCharacteristicView>,
}

impl View for DeviceService {
    type V = DeviceServiceView;

    open spec fn view(&self) -> DeviceServiceView {
        DeviceServiceView {
            id: self.id@,
            characteristics: self.characteristics@.map_values(|c: DeviceCharacteristic| c@),
        }
    }
}

/// The views of the services a live device exposes.
pub open spec fn device_views(device: Seq<DeviceService>) -> Seq<DeviceServiceView> {
    device.map_values(|s: DeviceService| s@)
}

/// Index of the first device service with the given identifier.
pub open spec fn find_service(device: Seq<DeviceServiceView>, id: Seq<char>) -> Option<int>
    decreases device.len(),
{
    if device.len() == 0 {
        None
    } else if device.first().id == id {
        Some(0)
    } else {
        match find_service(device.drop_first(), id) {
            None => None,
            Some(i) => Some(i + 1),
        }
    }
}

/// Handle of the first characteristic with the given identifier.
pub open spec fn find_handle(characteristics: Seq<DeviceCharacteristicView>, id: Seq<char>) -> Option<u64>
    decreases characteristics.len(),
{
    if characteristics.len() == 0 {
        None
    } else if characteristics.first().id == id {
        Some(characteristics.first().handle)
    } else {
        find_handle(characteristics.drop_first(), id)
    }
}

/// The resolved binding from logical endpoint to the characteristic
/// handle backing it, for one live session. Built once during
/// session startup, immutable and read concurrently afterwards; its
/// value is the finite map in which a later binding overrides an
/// earlier one.
#[derive(Debug)]
pub struct EndpointMap {
    entries: Vec<(Endpoint, u64)>,
}

/// The views of a binding sequence.
pub open spec fn entry_views(entries: Seq<(Endpoint, u64)>) -> Seq<(EndpointView, u64)> {
    entries.map_values(|e: (Endpoint, u64)| (e.0@, e.1))
}

/// The map a binding sequence describes: later entries override
/// earlier ones.
pub open spec fn map_of_entries(entries: Seq<(EndpointView, u64)>) -> Map<EndpointView, u64>
    decreases entries.len(),
{
    if entries.len() == 0 {
        Map::empty()
    } else {
        map_of_entries(entries.drop_last()).insert(entries.last().0, entries.last().1)
    }
}

/// Appending one binding inserts it into the described map.
pub proof fn lemma_map_of_entries_push(entries: Seq<(EndpointView, u64)>, entry: (EndpointView, u64))
    ensures
        map_of_entries(entries.push(entry)) == map_of_entries(entries).insert(entry.0, entry.1),
{
    assert(entries.push(entry).drop_last() =~= entries);
    assert(entries.push(entry).last() == entry);
}

/// At a key none of the entries from position `i` on binds, the
/// described map agrees with the map of the first `i` entries.
proof fn lemma_entries_agree(entries: Seq<(EndpointView, u64)>, key: EndpointView, i: int)
    requires
        0 <= i <= entries.len(),
        forall|j: int| i <= j < entries.len() ==> entries[j].0 != key,
    ensures
        map_of_entries(entries).contains_key(key) == map_of_entries(entries.take(i)).contains_key(key),
        map_of_entries(entries).contains_key(key) ==> map_of_entries(entries)[key] == map_of_entries(
            entries.take(i),
        )[key],
    decreases entries.len() - i,
{
    if i == entries.len() {
        assert(entries.take(i) =~= entries);
    } else {
        let prefix = entries.drop_last();
        assert(entries[entries.len() - 1].0 != key);
        lemma_entries_agree(prefix, key, i);
        assert(prefix.take(i) =~= entries.take(i));
    }
}

impl View for EndpointMap {
    type V = Map<EndpointView, u64>;

    closed spec fn view(&self) -> Map<EndpointView, u64> {
        map_of_entries(entry_views(self.entries@))
    }
}

impl EndpointMap {
    /// An empty binding.
    pub fn new() -> (map: EndpointMap)
        ensures
            map@ == Map::<EndpointView, u64>::empty(),
    {
        EndpointMap { entries: Vec::new() }
    }

    /// Binds an endpoint to a handle, overriding any earlier binding
    /// of the same endpoint.
    pub fn insert(&mut self, endpoint: Endpoint, handle: u64)
        ensures
            final(self)@ == old(self)@.insert(endpoint@, handle),
    {
        let ghost before = entry_views(self.entries@);
        self.entries.push((endpoint, handle));
        proof {
            assert(entry_views(self.entries@) =~= before.push((endpoint@, handle)));
            lemma_map_of_entries_push(before, (endpoint@, handle));
        }
    }

    /// Looks up the handle an endpoint is bound to.
    pub fn get(&self, endpoint: &Endpoint) -> (r: Option<u64>)
        ensures
            match r {
                Some(handle) => self@.contains_key(endpoint@) && self@[endpoint@] == handle,
                None => !self@.contains_key(endpoint@),
            },
    {
        let ghost views = entry_views(self.entries@);
        let mut i: usize = self.entries.len();
        while i > 0
            invariant
                i <= self.entries.len(),
                views == entry_views(self.entries@),
                views.len() == self.entries.len(),
                forall|j: int| i <= j < views.len() ==> views[j].0 != endpoint@,
            decreases i,
    {
            let pair = &self.entries[i - 1];
            proof {
                assert(views[i - 1] == (self.entries@[i - 1].0@, self.entries@[i - 1].1));
            }
            if pair.0 == *endpoint {
                proof {
                    lemma_entries_agree(views, endpoint@, i as int);
                    assert(views.take(i as int).drop_last() =~= views.take(i - 1));
                    assert(views.take(i as int).last() == views[i - 1]);
                }
                return Some(pair.1);
            }
            i -= 1;
        }
        proof {
            lemma_entries_agree(views, endpoint@, 0);
            assert(views.take(0) =~= Seq::<(EndpointView, u64)>::empty());
        }
        None
    }
}

/// The bindings one protocol service contributes once its device
/// service is resolved: each characteristic the device also exposes
/// is filed, in table order, under its assigned endpoint after the
/// vendor override; a characteristic the device lacks is silently
/// skipped.
pub open spec fn service_entries(
    characteristics: Seq<CharacteristicSpecView>,
    service: DeviceServiceView,
) -> Seq<(EndpointView, u64)>
    decreases characteristics.len(),
{
    if characteristics.len() == 0 {
        Seq::empty()
    } else {
        service_entries(characteristics.drop_last(), service) + (
        match find_handle(service.characteristics, characteristics.last().id) {
            None => Seq::empty(),
            Some(handle) => seq![
                (overridden_endpoint(characteristics.last().endpoint, characteristics.last().id), handle),
            ],
        })
    }
}

/// The bindings a whole protocol table resolves to on a live device,
/// in resolution order: a service the device lacks contributes
/// nothing — and raises no error.
pub open spec fn resolved_entries(
    services: Seq<ServiceSpecView>,
    device: Seq<DeviceServiceView>,
) -> Seq<(EndpointView, u64)>
    decreases services.len(),
{
    if services.len() == 0 {
        Seq::empty()
    } else {
        resolved_entries(services.drop_last(), device) + (
        match find_service(device, services.last().id) {
            None => Seq::empty(),
            Some(i) => service_entries(services.last().characteristics, device[i]),
        })
    }
}

/// Index of the first device service with the given identifier, or
/// nothing when the device lacks the service.
fn find_service_index(device: &Vec<DeviceService>, id: &String) -> (r: Option<usize>)
    ensures
        match r {
            Some(i) => find_service(device_views(device@), id@) == Some(i as int) && i < device.len(),
            None => find_service(device_views(device@), id@) is None,
        },
{
    let ghost views = device_views(device@);
    proof {
        assert(views.skip(0) =~= views);
    }
    let mut i: usize = 0;
    while i < device.len()
        invariant
            i <= device.len(),
            views == device_views(device@),
            views.len() == device.len(),
            find_service(views, id@) == match find_service(views.skip(i as int), id@) {
                None => None::<int>,
                Some(k) => Some(k + i),
            },
        decreases device.len() - i,
    {
        proof {
            assert(views.skip(i as int).first() == views[i as int]);
            assert(views[i as int] == device@[i as int]@);
        }
        if device[i].id == *id {
            return Some(i);
        }
        proof {
            assert(views.skip(i as int).drop_first() =~= views.skip(i + 1));
        }
        i += 1;
    }
    proof {
        assert(views.skip(device.len() as int) =~= Seq::<DeviceServiceView>::empty());
    }
    None
}

/// Handle of the first characteristic with the given identifier under
/// a device service, or nothing when the service lacks it.
fn find_handle_for(service: &DeviceService, id: &String) -> (r: Option<u64>)
    ensures
        r == find_handle(service@.characteristics, id@),
{
    let ghost views = service@.characteristics;
    proof {
        assert(views.skip(0) =~= views);
    }
    let mut i: usize = 0;
    while i < service.characteristics.len()
        invariant
            i <= service.characteristics.len(),
            views == service@.characteristics,
            views.len() == service.characteristics.len(),
            find_handle(views, id@) == find_handle(views.skip(i as int), id@),
        decreases service.characteristics.len() - i,
    {
        proof {
            assert(views.skip(i as int).first() == views[i as int]);
            assert(views[i as int] == service.characteristics@[i as int]@);
        }
        let c = &service.characteristics[i];
        if c.id == *id {
            return Some(c.handle);
        }
        proof {
            assert(views.skip(i as int).drop_first() =~= views.skip(i + 1));
        }
        i += 1;
    }
    proof {
        assert(views.skip(service.characteristics.len() as int) =~= Seq::<
            DeviceCharacteristicView,
        >::empty());
    }
    None
}

/// Builds the endpoint map for one session by resolving every service
/// of the chosen protocol table on the live device: services or
/// characteristics the device lacks are silently skipped, and the two
/// hard-coded vendor characteristic identifiers land on `Tx` and `Rx`
/// whatever endpoint the table assigned them. Callers that later
/// target a missing endpoint fail at dispatch time instead.
pub fn build_endpoint_map(services: &Vec<ServiceSpec>, device: &Vec<DeviceService>) -> (map: EndpointMap)
    ensures
        map@ == map_of_entries(
            resolved_entries(
                services@.map_values(|s: ServiceSpec| s@),
                device_views(device@),
            ),
        ),
{
    let ghost sviews = services@.map_values(|s: ServiceSpec| s@);
    let ghost dviews = device_views(device@);
    let mut map = EndpointMap::new();
    let ghost entries = Seq::<(EndpointView, u64)>::empty();
    proof {
        assert(resolved_entries(sviews.take(0), dviews) =~= entries);
    }
    let mut i: usize = 0;
    while i < services.len()
        invariant
            i <= services.len(),
            sviews == services@.map_values(|s: ServiceSpec| s@),
            dviews == device_views(device@),
            sviews.len() == services.len(),
            map@ == map_of_entries(resolved_entries(sviews.take(i as int), dviews)),
        decreases services.len() - i,
    {
        let entry = &services[i];
        proof {
            assert(sviews[i as int] == services@[i as int]@);
        }
        let ghost done = resolved_entries(sviews.take(i as int), dviews);
        if let Some(si) = find_service_index(device, &entry.id) {
            let ghost cviews = sviews[i as int].characteristics;
            let ghost dsvc = dviews[si as int];
            let mut j: usize = 0;
            while j < entry.characteristics.len()
                invariant
                    j <= entry.characteristics.len(),
                    cviews == entry@.characteristics,
                    cviews.len() == entry.characteristics.len(),
                    dviews == device_views(device@),
                    si < device.len(),
                    dsvc == dviews[si as int],
                    map@ == map_of_entries(done + service_entries(cviews.take(j as int), dsvc)),
                decreases entry.characteristics.len() - j,
            {
                let c = &entry.characteristics[j];
                proof {
                    assert(cviews[j as int] == entry.characteristics@[j as int]@);
                    assert(dsvc == device@[si as int]@);
                }
                let ghost sofar = done + service_entries(cviews.take(j as int), dsvc);
                if let Some(handle) = find_handle_for(&device[si], &c.id) {
                    let target = endpoint_for_characteristic(c.endpoint.clone(), &c.id);
                    map.insert(target, handle);
                    proof {
                        lemma_map_of_entries_push(sofar, (target@, handle));
                        assert(cviews.take(j + 1 as int).drop_last() =~= cviews.take(j as int));
                        assert(cviews.take(j + 1 as int).last() == cviews[j as int]);
                        assert(done + service_entries(cviews.take(j + 1 as int), dsvc) =~= sofar.push(
                            (target@, handle),
                        ));
                    }
                } else {
                    proof {
                        assert(cviews.take(j + 1 as int).drop_last() =~= cviews.take(j as int));
                        assert(cviews.take(j + 1 as int).last() == cviews[j as int]);
                        assert(done + service_entries(cviews.take(j + 1 as int), dsvc) =~= sofar);
                    }
                }
                j += 1;
            }
            proof {
                assert(cviews.take(entry.characteristics.len() as int) =~= cviews);
                assert(sviews.take(i + 1 as int).drop_last() =~= sviews.take(i as int));
                assert(sviews.take(i + 1 as int).last() == sviews[i as int]);
                assert(resolved_entries(sviews.take(i + 1 as int), dviews) == done + service_entries(
                    cviews,
                    dsvc,
                ));
            }
        } else {
            proof {
                assert(sviews.take(i + 1 as int).drop_last() =~= sviews.take(i as int));
                assert(sviews.take(i + 1 as int).last() == sviews[i as int]);
                assert(resolved_entries(sviews.take(i + 1 as int), dviews) =~= done);
            }
        }
        i += 1;
    }
    proof {
        assert(sviews.take(services.len() as int) =~= sviews);
    }
    map
}

} // verus!
