//! The device registry: the latest device snapshot and the user's selection.
use vstd::prelude::*;
use crate::adb::CommandError;
use crate::device::{device_views, listed_devices, parse_devices, Device, DeviceView};

verus! {

/// The serial appears among `devices`.
pub open spec fn lists_serial(devices: Seq<DeviceView>, serial: Seq<char>) -> bool {
    exists|i: int| 0 <= i < devices.len() && devices[i].serial == serial
}

/// No two of `devices` share a serial.
pub open spec fn serials_distinct(devices: Seq<DeviceView>) -> bool {
    forall|i: int, j: int|
        0 <= i < j < devices.len() ==> devices[i].serial != devices[j].serial
}

/// `devices` without the later entries of a serial that appeared before.
pub open spec fn distinct_devices(devices: Seq<DeviceView>) -> Seq<DeviceView>
    decreases devices.len(),
{
    if devices.len() == 0 {
        seq![]
    } else {
        let before = distinct_devices(devices.drop_last());
        if lists_serial(before, devices.last().serial) {
            before
        } else {
            before.push(devices.last())
        }
    }
}

pub struct RegistryView {
    pub devices: Seq<DeviceView>,
    pub selected: Option<Seq<char>>,
}

/// The snapshot after one poll: a listing that was read replaces the devices whole; a
/// failed poll leaves everything as it was. The selection is never touched.
pub open spec fn refreshed(v: RegistryView, listing: Option<Seq<char>>) -> RegistryView {
    match listing {
        Some(out) => RegistryView {
            devices: distinct_devices(listed_devices(out)),
            selected: v.selected,
        },
        None => v,
    }
}

/// How many of `devices` report the status `device`, that is, are online.
pub open spec fn online_count(devices: Seq<DeviceView>) -> nat
    decreases devices.len(),
{
    if devices.len() == 0 {
        0
    } else {
        online_count(devices.drop_last()) + if devices.last().status == "device"@ {
            1nat
        } else {
            0nat
        }
    }
}

/// The registry after the user selects `serial`.
pub open spec fn with_selection(v: RegistryView, serial: Seq<char>) -> RegistryView {
    RegistryView { devices: v.devices, selected: Some(serial) }
}

/// The selection names a device of the current snapshot.
pub open spec fn selection_valid(v: RegistryView) -> bool {
    match v.selected {
        Some(s) => lists_serial(v.devices, s),
        None => false,
    }
}

/// The view of a poll's outcome: the listing it read, if any.
pub open spec fn listing_of(outcome: Result<String, CommandError>) -> Option<Seq<char>> {
    match outcome {
        Ok(out) => Some(out@),
        Err(_) => None,
    }
}

/// The application's shared device state: the device snapshot, published whole, and the
/// selected serial, which is a weak reference that a later snapshot may no longer list.
pub struct AppState {
    devices: Vec<Device>,
    selected_device: Option<String>,
}

impl View for AppState {
    type V = RegistryView;

    closed spec fn view(&self) -> RegistryView {
        RegistryView {
            devices: device_views(self.devices@),
            selected: match self.selected_device {
                Some(s) => Some(s@),
                None => None,
            },
        }
    }
}

impl Device {
    /// A field-by-field copy.
    pub fn duplicate(&self) -> (r: Device)
        ensures
            r@ == self@,
    {
        Device {
            serial: self.serial.clone(),
            status: self.status.clone(),
            model: self.model.clone(),
        }
    }
}

/// Whether some device of `devices` has the serial `serial`.
fn find_serial(devices: &Vec<Device>, serial: &String) -> (r: bool)
    ensures
        r == lists_serial(device_views(devices@), serial@),
{
    let mut i: usize = 0;
    while i < devices.len()
        invariant
            i <= devices.len(),
            forall|k: int| 0 <= k < i ==> devices@[k].serial@ != serial@,
        decreases devices.len() - i,
    {
        if devices[i].serial == *serial {
            assert(device_views(devices@)[i as int].serial == serial@);
            return true;
        }
        i = i + 1;
    }
    assert forall|k: int|
        0 <= k < device_views(devices@).len() implies device_views(devices@)[k].serial
        != serial@ by {
        assert(device_views(devices@)[k] == devices@[k]@);
    }
    false
}

/// `devices` with each serial kept at its first entry only.
pub fn dedup_devices(devices: &Vec<Device>) -> (r: Vec<Device>)
    ensures
        device_views(r@) == distinct_devices(device_views(devices@)),
        serials_distinct(device_views(r@)),
{
    let ghost all = device_views(devices@);
    let mut r: Vec<Device> = Vec::new();
    let mut i: usize = 0;
    proof {
        assert(all.take(0) =~= Seq::<DeviceView>::empty());
        assert(device_views(r@) =~= Seq::<DeviceView>::empty());
    }
    while i < devices.len()
        invariant
            all == device_views(devices@),
            i <= devices.len(),
            device_views(r@) == distinct_devices(all.take(i as int)),
            serials_distinct(device_views(r@)),
        decreases devices.len() - i,
    {
        let d = &devices[i];
        assert(all.take(i + 1).drop_last() =~= all.take(i as int));
        assert(all.take(i + 1).last() == d@);
        if !find_serial(&r, &d.serial) {
            let ghost old_r = r@;
            r.push(d.duplicate());
            assert(device_views(r@) =~= device_views(old_r).push(d@));
            assert forall|a: int, b: int|
                0 <= a < b < device_views(r@).len() implies device_views(r@)[a].serial
                != device_views(r@)[b].serial by {
                if b == device_views(r@).len() - 1 {
                    assert(device_views(r@)[a] == device_views(old_r)[a]);
                }
            }
        }
        i = i + 1;
    }
    assert(all.take(devices.len() as int) =~= all);
    r
}

impl AppState {
    /// Serials are unique in the snapshot.
    pub open spec fn wf(&self) -> bool {
        serials_distinct(self@.devices)
    }

    /// No devices and no selection.
    pub fn new() -> (r: AppState)
        ensures
            r.wf(),
            r@.devices == Seq::<DeviceView>::empty(),
            r@.selected == Option::<Seq<char>>::None,
    {
        let r = AppState { devices: Vec::new(), selected_device: None };
        assert(r@.devices =~= Seq::<DeviceView>::empty());
        r
    }

    /// The current snapshot.
    pub fn devices(&self) -> (r: &Vec<Device>)
        ensures
            device_views(r@) == self@.devices,
    {
        &self.devices
    }

    /// How many devices of the snapshot are online.
    pub fn online_devices(&self) -> (r: usize)
        ensures
            r == online_count(self@.devices),
    {
        let ghost all = self@.devices;
        let online = String::from_str("device");
        let mut n: usize = 0;
        let mut i: usize = 0;
        proof {
            assert(all.take(0) =~= Seq::<DeviceView>::empty());
        }
        while i < self.devices.len()
            invariant
                all == self@.devices,
                online@ == "device"@,
                i <= self.devices.len(),
                n == online_count(all.take(i as int)),
                n <= i,
            decreases self.devices.len() - i,
        {
            assert(all.take(i + 1).drop_last() =~= all.take(i as int));
            assert(all.take(i + 1).last() == self.devices@[i as int]@);
            if self.devices[i].status == online {
                n = n + 1;
            }
            i = i + 1;
        }
        assert(all.take(self.devices.len() as int) =~= all);
        n
    }

    /// The selected serial, whether or not the snapshot still lists it.
    pub fn selected_device(&self) -> (r: Option<String>)
        ensures
            match r {
                Some(s) => self@.selected == Some(s@),
                None => self@.selected is None,
            },
    {
        match &self.selected_device {
            Some(s) => Some(s.clone()),
            None => None,
        }
    }

    /// Replaces the snapshot whole by `devices`, each serial kept once.
    pub fn publish(&mut self, devices: &Vec<Device>)
        ensures
            final(self).wf(),
            final(self)@.devices == distinct_devices(device_views(devices@)),
            final(self)@.selected == old(self)@.selected,
    {
        self.devices = dedup_devices(devices);
    }

    /// One poll of the device listing: a listing that was read is parsed and published; a
    /// failed poll keeps the previous snapshot.
    pub fn refresh(&mut self, outcome: Result<String, CommandError>)
        requires
            old(self).wf(),
        ensures
            final(self).wf(),
            final(self)@ == refreshed(old(self)@, listing_of(outcome)),
    {
        match outcome {
            Ok(out) => {
                let parsed = parse_devices(out.as_str());
                self.publish(&parsed);
            },
            Err(_) => {},
        }
    }

    /// Selects the device with serial `serial`, visible to the next read.
    pub fn select(&mut self, serial: &str)
        ensures
            final(self)@ == with_selection(old(self)@, serial@),
    {
        self.selected_device = Some(String::from_str(serial));
    }

    /// Drops the selection.
    pub fn clear(&mut self)
        ensures
            final(self)@ == (RegistryView { devices: old(self)@.devices, selected: None }),
    {
        self.selected_device = None;
    }

    /// The serial to send a command to: the selection, checked against the current
    /// snapshot just before dispatch.
    pub fn target(&self) -> (r: Result<String, CommandError>)
        ensures
            match r {
                Ok(s) => selection_valid(self@) && self@.selected == Some(s@),
                Err(e) => !selection_valid(self@) && e is SelectionStale,
            },
    {
        match &self.selected_device {
            Some(s) => {
                if find_serial(&self.devices, s) {
                    Ok(s.clone())
                } else {
                    Err(CommandError::SelectionStale)
                }
            },
            None => Err(CommandError::SelectionStale),
        }
    }
}

/// Keeping each serial once lists no serial that was not listed before.
pub proof fn lemma_distinct_lists_only(devices: Seq<DeviceView>, serial: Seq<char>)
    ensures
        lists_serial(distinct_devices(devices), serial) ==> lists_serial(devices, serial),
    decreases devices.len(),
{
    if devices.len() > 0 {
        let init = devices.drop_last();
        lemma_distinct_lists_only(init, serial);
        let d = distinct_devices(devices);
        if lists_serial(d, serial) {
            let i = choose|i: int| 0 <= i < d.len() && d[i].serial == serial;
            if lists_serial(distinct_devices(init), serial) {
                let j = choose|j: int| 0 <= j < init.len() && init[j].serial == serial;
                assert(devices[j] == init[j]);
            } else {
                assert(i == d.len() - 1);
                assert(devices[devices.len() - 1].serial == serial);
            }
        }
    }
}

/// A poll replaces the snapshot whole: what a reader sees after it is either the previous
/// snapshot or the newly listed one, never a mixture, and so has one of their two lengths.
pub proof fn lemma_refresh_whole(v: RegistryView, listing: Option<Seq<char>>)
    ensures
        refreshed(v, listing).devices == v.devices || (listing is Some
            && refreshed(v, listing).devices == distinct_devices(listed_devices(listing->0))),
        refreshed(v, listing).devices.len() == v.devices.len() || (listing is Some
            && refreshed(v, listing).devices.len() == distinct_devices(
            listed_devices(listing->0),
        ).len()),
{
}

/// Selecting a serial and then reading a listing that omits it leaves no valid selection:
/// every command is refused before dispatch.
pub proof fn lemma_stale_selection(v: RegistryView, serial: Seq<char>, listing: Seq<char>)
    requires
        !lists_serial(listed_devices(listing), serial),
    ensures
        !selection_valid(refreshed(with_selection(v, serial), Some(listing))),
{
    lemma_distinct_lists_only(listed_devices(listing), serial);
}

} // verus!
