//! Settings of input devices: which settings a new device gets, and which
//! devices have theirs already.

use vstd::prelude::*;
use crate::input::InputState;
use crate::state::Pinnacle;

verus! {

/// What kind of device an input device is.
#[derive(Clone, Copy, Debug, PartialEq, Eq, Structural)]
pub enum DeviceKind {
    Keyboard,
    Mouse,
    Touchpad,
    Tablet,
    Switch,
    Unknown,
}

/// An input device, as far as the settings read it.
#[derive(Clone, Copy, Debug, PartialEq, Eq, Structural)]
pub struct Device {
    /// Identifies the device for as long as it is plugged in.
    pub id: u64,
    pub kind: DeviceKind,
    pub vendor: u32,
    pub product: u32,
}

/// Tells to which devices a setting applies.
#[derive(Clone, Copy, Debug, PartialEq, Eq, Structural)]
pub enum DeviceFilter {
    /// Every device.
    Any,
    /// The devices of one kind.
    Kind(DeviceKind),
    /// The devices of one vendor and product.
    Product { vendor: u32, product: u32 },
}

impl DeviceFilter {
    /// Whether the setting applies to `device`.
    pub open spec fn matches(&self, device: Device) -> bool {
        match *self {
            DeviceFilter::Any => true,
            DeviceFilter::Kind(kind) => device.kind == kind,
            DeviceFilter::Product { vendor, product } => device.vendor == vendor && device.product
                == product,
        }
    }

    /// Tells whether the setting applies to `device`.
    pub fn matches_device(&self, device: &Device) -> (r: bool)
        ensures
            r == self.matches(*device),
    {
        match *self {
            DeviceFilter::Any => true,
            DeviceFilter::Kind(kind) => device.kind == kind,
            DeviceFilter::Product { vendor, product } => device.vendor == vendor && device.product
                == product,
        }
    }
}

/// A setting and the devices that it is for.
#[derive(Clone, Copy, Debug, PartialEq, Eq, Structural)]
pub struct DeviceSettingEntry {
    pub filter: DeviceFilter,
    /// Names the function that applies the setting to a device.
    pub setting: u64,
}

/// The entries of one category of settings, in the order in which they were
/// added.
#[derive(Debug)]
pub struct SettingCategory {
    pub category: u32,
    pub entries: Vec<DeviceSettingEntry>,
}

/// A setting that a device is to get.
#[derive(Clone, Copy, Debug, PartialEq, Eq, Structural)]
pub struct AppliedSetting {
    pub category: u32,
    pub setting: u64,
}

/// What the input backend reports.
#[derive(Clone, Copy, Debug, PartialEq, Eq, Structural)]
pub enum InputEvent {
    DeviceAdded { device: Device },
    DeviceRemoved { device: Device },
    /// Anything that is not about a device coming or going.
    Other,
}

/// The entry that decides for `device`: of the entries whose filter matches
/// it, the one added last. `None` where no filter matches.
pub open spec fn pick(entries: Seq<DeviceSettingEntry>, device: Device) -> Option<int>
    decreases entries.len(),
{
    if entries.len() == 0 {
        None
    } else if entries.last().filter.matches(device) {
        Some(entries.len() - 1)
    } else {
        pick(entries.drop_last(), device)
    }
}

/// A category, as its number and its entries.
pub open spec fn shape_of() -> spec_fn(SettingCategory) -> (u32, Seq<DeviceSettingEntry>) {
    |c: SettingCategory| (c.category, c.entries@)
}

/// The categories, each as its number and its entries.
pub open spec fn shapes(categories: Seq<SettingCategory>) -> Seq<(u32, Seq<DeviceSettingEntry>)> {
    categories.map_values(shape_of())
}

/// The settings that `device` gets: one of each category that has an entry
/// for it, in the order of the categories.
pub open spec fn selected(
    categories: Seq<(u32, Seq<DeviceSettingEntry>)>,
    device: Device,
) -> Seq<AppliedSetting>
    decreases categories.len(),
{
    if categories.len() == 0 {
        Seq::empty()
    } else {
        let first = selected(categories.drop_last(), device);
        let last = categories.last();
        match pick(last.1, device) {
            Some(k) => first.push(AppliedSetting { category: last.0, setting: last.1[k].setting }),
            None => first,
        }
    }
}

/// Whether a device with this identity is among `devices`.
pub open spec fn configured(devices: Seq<Device>, id: u64) -> bool {
    exists|i: int| 0 <= i < devices.len() && (#[trigger] devices[i]).id == id
}

/// Tells the devices with another identity than `id` from those with it.
pub open spec fn other_than(id: u64) -> spec_fn(Device) -> bool {
    |d: Device| d.id != id
}

/// The devices that have their settings, after `event`.
pub open spec fn devices_after(devices: Seq<Device>, event: InputEvent) -> Seq<Device> {
    match event {
        InputEvent::DeviceAdded { device } => if configured(devices, device.id) {
            devices
        } else {
            devices.push(device)
        },
        InputEvent::DeviceRemoved { device } => devices.filter(other_than(device.id)),
        InputEvent::Other => devices,
    }
}

/// The settings to apply on `event`: those selected for a device that is
/// added and has none yet, and nothing otherwise.
pub open spec fn settings_on(
    categories: Seq<(u32, Seq<DeviceSettingEntry>)>,
    devices: Seq<Device>,
    event: InputEvent,
) -> Seq<AppliedSetting> {
    match event {
        InputEvent::DeviceAdded { device } => if configured(devices, device.id) {
            Seq::empty()
        } else {
            selected(categories, device)
        },
        _ => Seq::empty(),
    }
}

/// The entry that decides is the last one whose filter matches: its filter
/// matches, and the filter of no entry after it does. Where none decides, no
/// filter matches.
pub proof fn lemma_pick_is_last_match(entries: Seq<DeviceSettingEntry>, device: Device)
    ensures
        match pick(entries, device) {
            Some(k) => {
                &&& 0 <= k < entries.len()
                &&& entries[k].filter.matches(device)
                &&& forall|j: int| k < j < entries.len() ==> !(#[trigger] entries[j]).filter.matches(device)
            },
            None => forall|j: int|
                0 <= j < entries.len() ==> !(#[trigger] entries[j]).filter.matches(device),
        },
    decreases entries.len(),
{
    if entries.len() > 0 && !entries.last().filter.matches(device) {
        let init = entries.drop_last();
        lemma_pick_is_last_match(init, device);
        assert forall|j: int| 0 <= j < init.len() implies init[j] == entries[j] by {}
        match pick(init, device) {
            Some(k) => {
                assert forall|j: int| k < j < entries.len() implies !(#[trigger] entries[j]).filter.matches(
                    device,
                ) by {
                    if j < init.len() {
                        assert(init[j] == entries[j]);
                    }
                }
            },
            None => {
                assert forall|j: int| 0 <= j < entries.len() implies !(#[trigger] entries[j]).filter.matches(
                    device,
                ) by {
                    if j < init.len() {
                        assert(init[j] == entries[j]);
                    }
                }
            },
        }
    }
}

/// Of two entries of one category whose filters both match a device, the one
/// added later wins over the one added earlier: the entry that decides is the
/// later one or one added after it, never the earlier one. It is the later one
/// where no entry after it matches.
pub proof fn lemma_later_entry_wins(
    entries: Seq<DeviceSettingEntry>,
    device: Device,
    earlier: int,
    later: int,
)
    requires
        0 <= earlier < later < entries.len(),
        entries[earlier].filter.matches(device),
        entries[later].filter.matches(device),
    ensures
        pick(entries, device) is Some,
        pick(entries, device)->0 >= later,
        pick(entries, device)->0 != earlier,
        (forall|j: int| later < j < entries.len() ==> !(#[trigger] entries[j]).filter.matches(device))
            ==> pick(entries, device) == Some(later),
{
    lemma_pick_is_last_match(entries, device);
}

/// An entry that was added last decides for every device that its filter
/// matches, whatever the entries before it.
pub proof fn lemma_added_entry_decides(
    entries: Seq<DeviceSettingEntry>,
    entry: DeviceSettingEntry,
    device: Device,
)
    requires
        entry.filter.matches(device),
    ensures
        pick(entries.push(entry), device) == Some(entries.len() as int),
{
}

/// A device gets its settings once: when it is added a second time, nothing
/// is applied and the devices on record stay as they are.
pub proof fn lemma_device_added_twice(
    categories: Seq<(u32, Seq<DeviceSettingEntry>)>,
    devices: Seq<Device>,
    device: Device,
)
    ensures
        ({
            let event = InputEvent::DeviceAdded { device };
            let once = devices_after(devices, event);
            &&& configured(once, device.id)
            &&& settings_on(categories, once, event) == Seq::<AppliedSetting>::empty()
            &&& devices_after(once, event) == once
        }),
{
    let event = InputEvent::DeviceAdded { device };
    let once = devices_after(devices, event);
    if !configured(devices, device.id) {
        assert(once[devices.len() as int].id == device.id);
    }
}

/// A device that was removed is no longer on record, so that it gets its
/// settings again when it comes back.
pub proof fn lemma_removed_device_is_forgotten(devices: Seq<Device>, device: Device)
    ensures
        !configured(devices_after(devices, InputEvent::DeviceRemoved { device }), device.id),
{
    let rest = devices.filter(other_than(device.id));
    if configured(rest, device.id) {
        let i = choose|i: int| 0 <= i < rest.len() && (#[trigger] rest[i]).id == device.id;
        assert(rest.contains(rest[i]));
        devices.lemma_filter_contains_rev(other_than(device.id), rest[i]);
    }
}

/// Finds the entry that decides for `device`, scanning from the entry added
/// last to the one added first.
pub fn pick_entry(entries: &Vec<DeviceSettingEntry>, device: &Device) -> (r: Option<usize>)
    ensures
        match r {
            Some(k) => k < entries.len() && pick(entries@, *device) == Some(k as int),
            None => pick(entries@, *device) is None,
        },
{
    let mut k: usize = entries.len();
    proof {
        assert(entries@.take(k as int) =~= entries@);
    }
    while k > 0
        invariant
            k <= entries.len(),
            pick(entries@, *device) == pick(entries@.take(k as int), *device),
        decreases k,
    {
        proof {
            assert(entries@.take(k as int).drop_last() =~= entries@.take(k - 1));
        }
        if entries[k - 1].filter.matches_device(device) {
            return Some(k - 1);
        }
        k = k - 1;
    }
    None
}

/// Tells whether a device with this identity is among `devices`.
pub fn is_configured(devices: &Vec<Device>, id: u64) -> (r: bool)
    ensures
        r == configured(devices@, id),
{
    let mut i: usize = 0;
    while i < devices.len()
        invariant
            i <= devices.len(),
            forall|j: int| 0 <= j < i ==> (#[trigger] devices@[j]).id != id,
        decreases devices.len() - i,
    {
        if devices[i].id == id {
            return true;
        }
        i = i + 1;
    }
    false
}

/// Whether `i` is the place of the first category with this number.
pub open spec fn category_at(categories: Seq<SettingCategory>, category: u32, i: int) -> bool {
    &&& 0 <= i < categories.len()
    &&& categories[i].category == category
    &&& forall|j: int| 0 <= j < i ==> (#[trigger] categories[j]).category != category
}

/// Whether there is a category with this number.
pub open spec fn has_category(categories: Seq<SettingCategory>, category: u32) -> bool {
    exists|i: int| 0 <= i < categories.len() && (#[trigger] categories[i]).category == category
}

/// The entries of the category with this number; none where there is no such
/// category.
pub open spec fn entries_of(categories: Seq<SettingCategory>, category: u32) -> Seq<
    DeviceSettingEntry,
> {
    if has_category(categories, category) {
        categories[choose|i: int| category_at(categories, category, i)].entries@
    } else {
        Seq::empty()
    }
}

/// The categories with the entries of one category replaced by `entries`.
/// The category keeps its place; a category that is new goes last.
pub open spec fn with_entries(
    categories: Seq<SettingCategory>,
    category: u32,
    entries: Seq<DeviceSettingEntry>,
) -> Seq<(u32, Seq<DeviceSettingEntry>)> {
    if has_category(categories, category) {
        shapes(categories).update(
            choose|i: int| category_at(categories, category, i),
            (category, entries),
        )
    } else {
        shapes(categories).push((category, entries))
    }
}

/// The first category with a number is unique.
pub proof fn lemma_category_at(categories: Seq<SettingCategory>, category: u32, i: int)
    requires
        category_at(categories, category, i),
    ensures
        has_category(categories, category),
        (choose|k: int| category_at(categories, category, k)) == i,
{
    let k = choose|k: int| category_at(categories, category, k);
    assert(category_at(categories, category, k));
    if k < i {
        assert(categories[k].category != category);
    }
    if i < k {
        assert(categories[i].category != category);
    }
}

/// Finds the category with this number.
pub fn find_category(categories: &Vec<SettingCategory>, category: u32) -> (r: Option<usize>)
    ensures
        match r {
            Some(i) => category_at(categories@, category, i as int),
            None => !has_category(categories@, category),
        },
{
    let mut i: usize = 0;
    while i < categories.len()
        invariant
            i <= categories.len(),
            forall|j: int| 0 <= j < i ==> (#[trigger] categories@[j]).category != category,
        decreases categories.len() - i,
    {
        if categories[i].category == category {
            return Some(i);
        }
        i = i + 1;
    }
    None
}

impl InputState {
    /// Replaces the entries of a category by `entries`, all of them: nothing
    /// of the old list stays. A category that is new goes behind the others.
    pub fn set_libinput_settings(&mut self, category: u32, entries: Vec<DeviceSettingEntry>)
        ensures
            shapes(final(self).libinput_settings@) == with_entries(
                old(self).libinput_settings@,
                category,
                entries@,
            ),
            final(self).libinput_devices == old(self).libinput_devices,
            final(self).keybinds == old(self).keybinds,
            final(self).mousebinds == old(self).mousebinds,
            final(self).reload_keybind == old(self).reload_keybind,
            final(self).kill_keybind == old(self).kill_keybind,
    {
        let ghost before = self.libinput_settings@;
        match find_category(&self.libinput_settings, category) {
            Some(i) => {
                proof {
                    lemma_category_at(before, category, i as int);
                }
                self.libinput_settings[i].entries = entries;
                proof {
                    assert(shapes(self.libinput_settings@) =~= shapes(before).update(
                        i as int,
                        (category, entries@),
                    ));
                }
            },
            None => {
                self.libinput_settings.push(SettingCategory { category, entries });
                proof {
                    assert(shapes(self.libinput_settings@) =~= shapes(before).push(
                        (category, entries@),
                    ));
                }
            },
        }
    }

    /// Adds an entry to a category, behind the entries that the category has:
    /// where its filter and an older one match the same device, the new entry
    /// decides.
    pub fn add_libinput_setting(&mut self, category: u32, filter: DeviceFilter, setting: u64)
        ensures
            shapes(final(self).libinput_settings@) == with_entries(
                old(self).libinput_settings@,
                category,
                entries_of(old(self).libinput_settings@, category).push(
                    DeviceSettingEntry { filter, setting },
                ),
            ),
            final(self).libinput_devices == old(self).libinput_devices,
            final(self).keybinds == old(self).keybinds,
            final(self).mousebinds == old(self).mousebinds,
            final(self).reload_keybind == old(self).reload_keybind,
            final(self).kill_keybind == old(self).kill_keybind,
    {
        let ghost before = self.libinput_settings@;
        let entry = DeviceSettingEntry { filter, setting };
        match find_category(&self.libinput_settings, category) {
            Some(i) => {
                proof {
                    lemma_category_at(before, category, i as int);
                }
                self.libinput_settings[i].entries.push(entry);
                proof {
                    assert(shapes(self.libinput_settings@) =~= shapes(before).update(
                        i as int,
                        (category, before[i as int].entries@.push(entry)),
                    ));
                }
            },
            None => {
                let mut entries: Vec<DeviceSettingEntry> = Vec::new();
                entries.push(entry);
                self.libinput_settings.push(SettingCategory { category, entries });
                proof {
                    assert(entries@ =~= Seq::<DeviceSettingEntry>::empty().push(entry));
                    assert(shapes(self.libinput_settings@) =~= shapes(before).push(
                        (category, entries@),
                    ));
                }
            },
        }
    }
}

impl Pinnacle {
    /// Applies the current device settings to a new device, and forgets a
    /// device that is removed.
    ///
    /// A device that is added and has its settings already gets nothing. Any
    /// other device that is added gets, of each category, the setting of the
    /// entry added last among those whose filter matches it; the settings are
    /// returned in the order of the categories, for the caller to apply, and
    /// the device is recorded. A device that is removed is no longer recorded.
    pub fn apply_libinput_settings(&mut self, event: &InputEvent) -> (r: Vec<AppliedSetting>)
        ensures
            r@ == settings_on(
                shapes(old(self).input_state.libinput_settings@),
                old(self).input_state.libinput_devices@,
                *event,
            ),
            final(self).input_state.libinput_devices@ == devices_after(
                old(self).input_state.libinput_devices@,
                *event,
            ),
            final(self).unchanged_but_devices(*old(self)),
    {
        let device = match event {
            InputEvent::DeviceAdded { device } => *device,
            InputEvent::DeviceRemoved { device } => {
                let ghost before = self.input_state.libinput_devices@;
                let mut rest: Vec<Device> = Vec::new();
                let mut i: usize = 0;
                proof {
                    reveal(Seq::filter);
                    assert(before.take(0).filter(other_than(device.id)) =~= Seq::empty());
                }
                while i < self.input_state.libinput_devices.len()
                    invariant
                        i <= before.len(),
                        self.input_state.libinput_devices@ == before,
                        rest@ == before.take(i as int).filter(other_than(device.id)),
                    decreases before.len() - i,
                {
                    proof {
                        crate::sequences::lemma_filter_step(before, other_than(device.id), i as int);
                    }
                    if self.input_state.libinput_devices[i].id != device.id {
                        rest.push(self.input_state.libinput_devices[i]);
                    }
                    i = i + 1;
                }
                proof {
                    assert(before.take(before.len() as int) =~= before);
                }
                self.input_state.libinput_devices = rest;
                return Vec::new();
            },
            InputEvent::Other => {
                return Vec::new();
            },
        };
        if is_configured(&self.input_state.libinput_devices, device.id) {
            return Vec::new();
        }
        let mut applied: Vec<AppliedSetting> = Vec::new();
        let mut c: usize = 0;
        while c < self.input_state.libinput_settings.len()
            invariant
                c <= self.input_state.libinput_settings.len(),
                *self == *old(self),
                applied@ == selected(
                    shapes(self.input_state.libinput_settings@).take(c as int),
                    device,
                ),
            decreases self.input_state.libinput_settings.len() - c,
        {
            proof {
                assert(shapes(self.input_state.libinput_settings@).take(c + 1).drop_last()
                    =~= shapes(self.input_state.libinput_settings@).take(c as int));
            }
            let category = &self.input_state.libinput_settings[c];
            match pick_entry(&category.entries, &device) {
                Some(k) => {
                    applied.push(
                        AppliedSetting { category: category.category, setting: category.entries[k].setting },
                    );
                },
                None => {},
            }
            c = c + 1;
        }
        proof {
            assert(shapes(self.input_state.libinput_settings@).take(c as int) =~= shapes(
                self.input_state.libinput_settings@,
            ));
        }
        self.input_state.libinput_devices.push(device);
        applied
    }
}

} // verus!
