//! Which displays are attached, which windows are on them, and what becomes of both.

pub mod finding;
pub mod indices;
pub mod restoring;
pub mod windows;

use crate::geometry;
use crate::geometry::Rect;
use crate::operation::Operation;
use crate::placement;
use crate::sequences;
use crate::text;
use crate::window_manager::Monitor;
use crate::window_manager::MonitorView;
use crate::window_manager::WindowManager;
use crate::window_manager::WindowManagerView;
use crate::window_manager::WorkspaceView;
use std::collections::HashMap;
use vstd::prelude::*;

verus! {

/// What the system knows about displays and windows.
pub struct MacosApi;

/// Some monitor goes by this serial number.
pub open spec fn has_serial(monitors: Seq<MonitorView>, serial: Seq<char>) -> bool {
    exists|i: int| 0 <= i < monitors.len() && (#[trigger] monitors[i]).serial_number_id == serial
}

/// The index that is preferred for a display among the first `n` preferences: the last one
/// that names it counts.
pub open spec fn preferred_index(
    preferences: Seq<(usize, Seq<char>)>,
    n: int,
    serial: Seq<char>,
) -> Option<usize>
    decreases n,
{
    if n <= 0 {
        None
    } else if preferences[n - 1].1 == serial {
        Some(preferences[n - 1].0)
    } else {
        preferred_index(preferences, n - 1, serial)
    }
}

/// What stands at an index whose monitor is not attached, while monitors are being put in
/// their places.
pub open spec fn placeholder_monitor() -> MonitorView {
    MonitorView {
        id: 0,
        device: "PLACEHOLDER"@,
        serial_number_id: "PLACEHOLDER"@,
        size: geometry::zero_rect(),
        work_area_size: geometry::zero_rect(),
        work_area_offset: None,
        window_based_work_area_offset: None,
        window_based_work_area_offset_limit: 0,
        workspaces: Seq::empty(),
        focused_workspace: 0,
        last_focused_workspace: None,
        container_padding: None,
        workspace_padding: None,
        wallpaper: None,
        floating_layer_behaviour: None,
        window_hiding_position: geometry::DEFAULT_HIDING_POSITION,
    }
}

impl Monitor {
    /// What stands at an index whose monitor is not attached.
    pub fn placeholder() -> (monitor: Self)
        ensures
            monitor.deep_view() == placeholder_monitor(),
    {
        let monitor = Monitor {
            id: 0,
            device: "PLACEHOLDER".to_owned(),
            serial_number_id: "PLACEHOLDER".to_owned(),
            size: Rect::default(),
            work_area_size: Rect::default(),
            work_area_offset: None,
            window_based_work_area_offset: None,
            window_based_work_area_offset_limit: 0,
            workspaces: Vec::new(),
            focused_workspace: 0,
            last_focused_workspace: None,
            container_padding: None,
            workspace_padding: None,
            wallpaper: None,
            floating_layer_behaviour: None,
            window_hiding_position: geometry::DEFAULT_HIDING_POSITION,
        };
        assert(monitor.workspaces.deep_view() =~= Seq::<WorkspaceView>::empty());
        monitor
    }
}

/// The monitors with placeholders added until there is one at index `p`.
pub open spec fn padded(monitors: Seq<MonitorView>, p: usize) -> Seq<MonitorView>
    decreases p + 1 - monitors.len(),
{
    if p < monitors.len() {
        monitors
    } else {
        padded(monitors.push(placeholder_monitor()), p)
    }
}

/// The monitors with a display that has just been found: it takes the index that is preferred
/// for it, from a placeholder or by moving the others along, or goes to the end.
pub open spec fn with_device(
    monitors: Seq<MonitorView>,
    preferences: Seq<(usize, Seq<char>)>,
    device: MonitorView,
) -> Seq<MonitorView> {
    if has_serial(monitors, device.serial_number_id) {
        monitors
    } else {
        match preferred_index(preferences, preferences.len() as int, device.serial_number_id) {
            Some(p) => {
                let places = padded(monitors, p);
                if places[p as int].serial_number_id == "PLACEHOLDER"@ {
                    places.update(p as int, device)
                } else {
                    places.insert(p as int, device)
                }
            },
            None => monitors.push(device),
        }
    }
}

/// The monitors with the first `n` displays that were found.
pub open spec fn with_devices(
    monitors: Seq<MonitorView>,
    preferences: Seq<(usize, Seq<char>)>,
    devices: Seq<MonitorView>,
    n: int,
) -> Seq<MonitorView>
    decreases n,
{
    if n <= 0 {
        monitors
    } else {
        with_device(
            with_devices(monitors, preferences, devices, n - 1),
            preferences,
            devices[n - 1],
        )
    }
}

/// The monitor is not a placeholder.
pub open spec fn is_real() -> spec_fn(MonitorView) -> bool {
    |monitor: MonitorView| monitor.serial_number_id != "PLACEHOLDER"@
}

/// The monitors once all displays that were found are among them.
pub open spec fn loaded_monitors(
    monitors: Seq<MonitorView>,
    preferences: Seq<(usize, Seq<char>)>,
    devices: Seq<MonitorView>,
) -> Seq<MonitorView> {
    with_devices(monitors, preferences, devices, devices.len() as int).filter(is_real())
}

/// Where the first monitor with this serial number stands, counting from `from`.
pub open spec fn first_with_serial(
    monitors: Seq<MonitorView>,
    serial: Seq<char>,
    from: int,
) -> Option<usize>
    decreases monitors.len() - from,
{
    if from < 0 || from >= monitors.len() {
        None
    } else if monitors[from].serial_number_id == serial {
        Some(from as usize)
    } else {
        first_with_serial(monitors, serial, from + 1)
    }
}

/// Which monitor each index that the user may name stands for, and the largest such index.
pub struct IndexMapView {
    pub map: Map<usize, usize>,
    pub largest: Option<usize>,
}

/// The index map with one more index.
pub open spec fn with_index(indices: IndexMapView, index: usize, monitor: usize) -> IndexMapView {
    IndexMapView {
        map: indices.map.insert(index, monitor),
        largest: match indices.largest {
            Some(largest) => if largest < index {
                Some(index)
            } else {
                Some(largest)
            },
            None => Some(index),
        },
    }
}

/// The indices that the first `n` preferences give to monitors that are there.
pub open spec fn preferred_indices(
    monitors: Seq<MonitorView>,
    preferences: Seq<(usize, Seq<char>)>,
    n: int,
) -> IndexMapView
    decreases n,
{
    if n <= 0 {
        IndexMapView { map: Map::empty(), largest: None }
    } else {
        let earlier = preferred_indices(monitors, preferences, n - 1);
        match first_with_serial(monitors, preferences[n - 1].1, 0) {
            Some(m) => with_index(earlier, preferences[n - 1].0, m),
            None => earlier,
        }
    }
}

/// The monitors that the first `n` preferences give an index to.
pub open spec fn preferred_monitors(
    monitors: Seq<MonitorView>,
    preferences: Seq<(usize, Seq<char>)>,
    n: int,
) -> Seq<usize>
    decreases n,
{
    if n <= 0 {
        Seq::empty()
    } else {
        let earlier = preferred_monitors(monitors, preferences, n - 1);
        match first_with_serial(monitors, preferences[n - 1].1, 0) {
            Some(m) => earlier.push(m),
            None => earlier,
        }
    }
}

/// The indices below `n` that stand for no monitor yet, in order.
pub open spec fn free_indices(map: Map<usize, usize>, n: int) -> Seq<usize>
    decreases n,
{
    if n <= 0 {
        Seq::empty()
    } else {
        let earlier = free_indices(map, n - 1);
        if map.contains_key((n - 1) as usize) {
            earlier
        } else {
            earlier.push((n - 1) as usize)
        }
    }
}

/// The monitors below `n` that are not listed, in order.
pub open spec fn unlisted(listed: Seq<usize>, n: int) -> Seq<usize>
    decreases n,
{
    if n <= 0 {
        Seq::empty()
    } else {
        let earlier = unlisted(listed, n - 1);
        if listed.contains((n - 1) as usize) {
            earlier
        } else {
            earlier.push((n - 1) as usize)
        }
    }
}

/// The index map once the first `n` of the remaining monitors have got a free index each; a
/// monitor for which none is left takes the largest index there is.
pub open spec fn with_remaining(
    indices: IndexMapView,
    free: Seq<usize>,
    remaining: Seq<usize>,
    n: int,
) -> IndexMapView
    decreases n,
{
    if n <= 0 {
        indices
    } else {
        let earlier = with_remaining(indices, free, remaining, n - 1);
        if n - 1 < free.len() {
            with_index(earlier, free[n - 1], remaining[n - 1])
        } else {
            match earlier.largest {
                Some(largest) => with_index(earlier, largest, remaining[n - 1]),
                None => earlier,
            }
        }
    }
}

/// How far the indices go that the remaining monitors can get.
pub open spec fn index_limit(preferred: IndexMapView, monitors: nat) -> int {
    match preferred.largest {
        Some(largest) => if largest > monitors {
            largest as int
        } else {
            monitors as int
        },
        None => monitors as int,
    }
}

/// Which monitor each index stands for: the preferred indices, and the free ones in order for
/// the remaining monitors.
pub open spec fn index_map(
    monitors: Seq<MonitorView>,
    preferences: Seq<(usize, Seq<char>)>,
) -> IndexMapView {
    let n = preferences.len() as int;
    let preferred = preferred_indices(monitors, preferences, n);
    let free = free_indices(preferred.map, index_limit(preferred, monitors.len()));
    let remaining = unlisted(
        preferred_monitors(monitors, preferences, n),
        monitors.len() as int,
    );
    with_remaining(preferred, free, remaining, remaining.len() as int)
}

/// The state once the displays that were found are among the monitors.
pub open spec fn with_displays(wm: WindowManagerView, devices: Seq<MonitorView>) -> WindowManagerView {
    let monitors = loaded_monitors(wm.monitors, wm.display_index_preferences, devices);
    WindowManagerView {
        monitors,
        monitor_usr_idx_map: index_map(monitors, wm.display_index_preferences).map,
        ..wm
    }
}

fn contains_serial(monitors: &Vec<Monitor>, serial: &str) -> (found: bool)
    ensures
        found == has_serial(monitors.deep_view(), serial@),
{
    let mut i: usize = 0;
    while i < monitors.len()
        invariant
            i <= monitors.len(),
            forall|k: int|
                0 <= k < i ==> (#[trigger] monitors.deep_view()[k]).serial_number_id != serial@,
        decreases monitors.len() - i,
    {
        assert(monitors.deep_view()[i as int] == monitors[i as int].deep_view());
        if text::same_text(monitors[i].serial_number_id.as_str(), serial) {
            assert(monitors.deep_view()[i as int].serial_number_id == serial@);
            return true;
        }
        i += 1;
    }
    false
}

fn find_preference(preferences: &Vec<(usize, String)>, serial: &str) -> (index: Option<usize>)
    ensures
        index == preferred_index(preferences.deep_view(), preferences.len() as int, serial@),
{
    let mut i: usize = preferences.len();
    while i > 0
        invariant
            i <= preferences.len(),
            preferred_index(preferences.deep_view(), preferences.len() as int, serial@)
                == preferred_index(preferences.deep_view(), i as int, serial@),
        decreases i,
    {
        assert(preferences.deep_view()[i - 1] == preferences[i - 1].deep_view());
        if text::same_text(preferences[i - 1].1.as_str(), serial) {
            return Some(preferences[i - 1].0);
        }
        i -= 1;
    }
    None
}

fn pad(monitors: &mut Vec<Monitor>, p: usize)
    ensures
        final(monitors).deep_view() == padded(old(monitors).deep_view(), p),
        p < final(monitors).len(),
{
    while p >= monitors.len()
        invariant
            padded(old(monitors).deep_view(), p) == padded(monitors.deep_view(), p),
        decreases p + 1 - monitors.len(),
    {
        let ghost before = monitors.deep_view();
        monitors.push(Monitor::placeholder());
        assert(monitors.deep_view() =~= before.push(placeholder_monitor()));
    }
}

fn add_device(monitors: &mut Vec<Monitor>, preferences: &Vec<(usize, String)>, device: &Monitor)
    ensures
        final(monitors).deep_view() == with_device(
            old(monitors).deep_view(),
            preferences.deep_view(),
            device.deep_view(),
        ),
{
    let serial: &str = device.serial_number_id.as_str();
    if contains_serial(&*monitors, serial) {
        return;
    }
    let ghost before = monitors.deep_view();
    match find_preference(preferences, serial) {
        Some(p) => {
            pad(monitors, p);
            let ghost places = monitors.deep_view();
            assert(places[p as int] == monitors[p as int].deep_view());
            if text::same_text(monitors[p].serial_number_id.as_str(), "PLACEHOLDER") {
                monitors.set(p, device.clone());
                assert(monitors.deep_view() =~= places.update(p as int, device.deep_view()));
            } else {
                monitors.insert(p, device.clone());
                assert(monitors.deep_view() =~= places.insert(p as int, device.deep_view()));
            }
        },
        None => {
            monitors.push(device.clone());
            assert(monitors.deep_view() =~= before.push(device.deep_view()));
        },
    }
}

fn drop_placeholders(monitors: &mut Vec<Monitor>)
    ensures
        final(monitors).deep_view() == old(monitors).deep_view().filter(is_real()),
{
    let ghost all = monitors.deep_view();
    let ghost keep = is_real();
    let ghost mut seen: int = 0;
    let mut i: usize = 0;
    proof {
        reveal(Seq::filter);
        assert(all.take(0).filter(keep) + all.skip(0) =~= all);
    }
    while i < monitors.len()
        invariant
            0 <= seen <= all.len(),
            i == all.take(seen).filter(keep).len(),
            keep == is_real(),
            monitors.deep_view() == all.take(seen).filter(keep) + all.skip(seen),
        decreases all.len() - seen,
    {
        let ghost kept = all.take(seen).filter(keep);
        let ghost current = monitors.deep_view();
        assert(current[i as int] == all[seen]);
        assert(monitors[i as int].deep_view() == all[seen]);
        proof {
            sequences::lemma_filter_step(all, keep, seen);
        }
        if !text::same_text(monitors[i].serial_number_id.as_str(), "PLACEHOLDER") {
            i += 1;
            assert(kept.push(all[seen]) + all.skip(seen + 1) =~= kept + all.skip(seen));
        } else {
            let _ = monitors.remove(i);
            assert(monitors.deep_view() =~= current.remove(i as int));
            assert(current.remove(i as int) =~= kept + all.skip(seen + 1));
        }
        proof {
            seen = seen + 1;
        }
    }
    proof {
        assert(seen == all.len());
        assert(all.take(seen) =~= all);
        assert(monitors.deep_view() =~= all.filter(keep));
    }
}

fn find_serial(monitors: &Vec<Monitor>, serial: &str) -> (at: Option<usize>)
    ensures
        at == first_with_serial(monitors.deep_view(), serial@, 0),
{
    let mut i: usize = 0;
    while i < monitors.len()
        invariant
            i <= monitors.len(),
            first_with_serial(monitors.deep_view(), serial@, 0) == first_with_serial(
                monitors.deep_view(),
                serial@,
                i as int,
            ),
        decreases monitors.len() - i,
    {
        assert(monitors.deep_view()[i as int] == monitors[i as int].deep_view());
        if text::same_text(monitors[i].serial_number_id.as_str(), serial) {
            return Some(i);
        }
        i += 1;
    }
    None
}

struct IndexMap {
    map: HashMap<usize, usize>,
    largest: Option<usize>,
}

impl View for IndexMap {
    type V = IndexMapView;

    closed spec fn view(&self) -> IndexMapView {
        IndexMapView { map: self.map@, largest: self.largest }
    }
}

impl IndexMap {
    fn put(&mut self, index: usize, monitor: usize)
        ensures
            final(self)@ == with_index(old(self)@, index, monitor),
    {
        broadcast use vstd::std_specs::hash::group_hash_axioms;

        let ghost before = self.map@;
        self.map.insert(index, monitor);
        assert(self.map@ =~= before.insert(index, monitor));
        self.largest = match self.largest {
            Some(largest) => if largest < index {
                Some(index)
            } else {
                Some(largest)
            },
            None => Some(index),
        };
    }
}

fn lists(listed: &Vec<usize>, n: usize) -> (found: bool)
    ensures
        found == listed@.contains(n),
{
    let mut i: usize = 0;
    while i < listed.len()
        invariant
            i <= listed.len(),
            forall|k: int| 0 <= k < i ==> #[trigger] listed@[k] != n,
        decreases listed.len() - i,
    {
        if listed[i] == n {
            assert(listed@[i as int] == n);
            return true;
        }
        i += 1;
    }
    false
}

fn prefer(monitors: &Vec<Monitor>, preferences: &Vec<(usize, String)>) -> (preferred: (
    IndexMap,
    Vec<usize>,
))
    ensures
        preferred.0@ == preferred_indices(
            monitors.deep_view(),
            preferences.deep_view(),
            preferences.len() as int,
        ),
        preferred.1@ == preferred_monitors(
            monitors.deep_view(),
            preferences.deep_view(),
            preferences.len() as int,
        ),
{
    let mut indices = IndexMap { map: HashMap::new(), largest: None };
    let mut listed: Vec<usize> = Vec::new();
    assert(indices@.map =~= Map::<usize, usize>::empty());
    let mut i: usize = 0;
    while i < preferences.len()
        invariant
            i <= preferences.len(),
            indices@ == preferred_indices(
                monitors.deep_view(),
                preferences.deep_view(),
                i as int,
            ),
            listed@ == preferred_monitors(
                monitors.deep_view(),
                preferences.deep_view(),
                i as int,
            ),
        decreases preferences.len() - i,
    {
        assert(preferences.deep_view()[i as int] == preferences[i as int].deep_view());
        if let Some(m) = find_serial(monitors, preferences[i].1.as_str()) {
            indices.put(preferences[i].0, m);
            listed.push(m);
        }
        i += 1;
    }
    (indices, listed)
}

fn rebuild_index_map(monitors: &Vec<Monitor>, preferences: &Vec<(usize, String)>) -> (map: HashMap<
    usize,
    usize,
>)
    ensures
        map@ == index_map(monitors.deep_view(), preferences.deep_view()).map,
{
    broadcast use vstd::std_specs::hash::group_hash_axioms;

    let (preferred, listed) = prefer(monitors, preferences);
    let mut limit: usize = monitors.len();
    if let Some(largest) = preferred.largest {
        if largest > limit {
            limit = largest;
        }
    }
    assert(limit == index_limit(preferred@, monitors.len() as nat));
    let mut free: Vec<usize> = Vec::new();
    let mut i: usize = 0;
    while i < limit
        invariant
            i <= limit,
            free@ == free_indices(preferred@.map, i as int),
        decreases limit - i,
    {
        if !preferred.map.contains_key(&i) {
            free.push(i);
        }
        i += 1;
    }
    let mut remaining: Vec<usize> = Vec::new();
    let mut m: usize = 0;
    while m < monitors.len()
        invariant
            m <= monitors.len(),
            remaining@ == unlisted(listed@, m as int),
        decreases monitors.len() - m,
    {
        if !lists(&listed, m) {
            remaining.push(m);
        }
        m += 1;
    }
    let ghost start = preferred@;
    let mut indices = preferred;
    let mut k: usize = 0;
    while k < remaining.len()
        invariant
            k <= remaining.len(),
            indices@ == with_remaining(start, free@, remaining@, k as int),
        decreases remaining.len() - k,
    {
        if k < free.len() {
            indices.put(free[k], remaining[k]);
        } else if let Some(largest) = indices.largest {
            indices.put(largest, remaining[k]);
        }
        k += 1;
    }
    indices.map
}

impl MacosApi {
    /// Takes in the displays that were found: those that are not among the monitors yet are
    /// put in the places that are preferred for them, and every monitor gets an index.
    pub fn load_monitor_information(wm: &mut WindowManager, all_devices: &Vec<Monitor>)
        ensures
            final(wm).deep_view() == with_displays(old(wm).deep_view(), all_devices.deep_view()),
    {
        let ghost before = wm.deep_view();
        let mut i: usize = 0;
        while i < all_devices.len()
            invariant
                i <= all_devices.len(),
                wm.deep_view() == (WindowManagerView {
                    monitors: with_devices(
                        before.monitors,
                        before.display_index_preferences,
                        all_devices.deep_view(),
                        i as int,
                    ),
                    ..before
                }),
            decreases all_devices.len() - i,
        {
            assert(all_devices.deep_view()[i as int] == all_devices[i as int].deep_view());
            add_device(&mut wm.monitors, &wm.display_index_preferences, &all_devices[i]);
            i += 1;
        }
        drop_placeholders(&mut wm.monitors);
        wm.monitor_usr_idx_map = rebuild_index_map(&wm.monitors, &wm.display_index_preferences);
    }
}

/// What is known about a monitor from its hardware.
#[derive(Debug)]
pub struct MonitorInfo {
    pub serial_number: u32,
    pub alphanumeric_serial_number: String,
    pub product_name: String,
}

/// The value of a [`MonitorInfo`].
pub struct MonitorInfoView {
    pub serial_number: u32,
    pub alphanumeric_serial_number: Seq<char>,
    pub product_name: Seq<char>,
}

impl DeepView for MonitorInfo {
    type V = MonitorInfoView;

    open spec fn deep_view(&self) -> MonitorInfoView {
        MonitorInfoView {
            serial_number: self.serial_number,
            alphanumeric_serial_number: self.alphanumeric_serial_number@,
            product_name: self.product_name@,
        }
    }
}

/// A display that is connected.
#[derive(Clone, Copy, Debug, PartialEq, Eq, Structural)]
pub struct Display {
    pub id: u32,
    pub serial_number: u32,
    pub bounds: Rect,
}

/// A screen that windows can be on.
#[derive(Debug)]
pub struct Screen {
    /// The display that the screen is on, where it says so.
    pub display_id: Option<u32>,
    pub name: String,
    /// The part of it that windows can cover.
    pub visible_frame: Rect,
}

/// The value of a [`Screen`].
pub struct ScreenView {
    pub display_id: Option<u32>,
    pub name: Seq<char>,
    pub visible_frame: Rect,
}

impl DeepView for Screen {
    type V = ScreenView;

    open spec fn deep_view(&self) -> ScreenView {
        ScreenView {
            display_id: self.display_id,
            name: self.name@,
            visible_frame: self.visible_frame,
        }
    }
}

/// A monitor that is attached.
#[derive(Debug)]
pub struct Attached {
    pub id: u32,
    pub device: String,
    pub serial_number_id: String,
    pub size: Rect,
    pub work_area_size: Rect,
}

/// The value of an [`Attached`] monitor.
pub struct AttachedView {
    pub id: u32,
    pub device: Seq<char>,
    pub serial_number_id: Seq<char>,
    pub size: Rect,
    pub work_area_size: Rect,
}

impl DeepView for Attached {
    type V = AttachedView;

    open spec fn deep_view(&self) -> AttachedView {
        AttachedView {
            id: self.id,
            device: self.device@,
            serial_number_id: self.serial_number_id@,
            size: self.size,
            work_area_size: self.work_area_size,
        }
    }
}

/// The product name and the serial number that the hardware gives for a serial number, among
/// the first `n` monitors that answered: the last one counts.
pub open spec fn hardware_names(infos: Seq<MonitorInfoView>, n: int, serial: u32) -> Option<
    (Seq<char>, Seq<char>),
>
    decreases n,
{
    if n <= 0 {
        None
    } else if infos[n - 1].serial_number == serial {
        Some((infos[n - 1].product_name, infos[n - 1].alphanumeric_serial_number))
    } else {
        hardware_names(infos, n - 1, serial)
    }
}

/// The name of the last of the first `n` screens that is on this display.
pub open spec fn screen_name(screens: Seq<ScreenView>, n: int, display_id: u32) -> Option<Seq<char>>
    decreases n,
{
    if n <= 0 {
        None
    } else if screens[n - 1].display_id == Some(display_id) {
        Some(screens[n - 1].name)
    } else {
        screen_name(screens, n - 1, display_id)
    }
}

/// The name of the screen of a display with this serial number, among the first `n` displays:
/// the last one that has a screen counts.
pub open spec fn network_name(
    displays: Seq<Display>,
    screens: Seq<ScreenView>,
    n: int,
    serial: u32,
) -> Option<Seq<char>>
    decreases n,
{
    if n <= 0 {
        None
    } else {
        let name = screen_name(screens, screens.len() as int, displays[n - 1].id);
        if displays[n - 1].serial_number == serial && name is Some {
            name
        } else {
            network_name(displays, screens, n - 1, serial)
        }
    }
}

/// The names of a display: those that its hardware gives, or else, for a display over the
/// network, which has no hardware, the name of its screen and its bare serial number.
pub open spec fn display_names(
    displays: Seq<Display>,
    screens: Seq<ScreenView>,
    infos: Seq<MonitorInfoView>,
    serial: u32,
) -> Option<(Seq<char>, Seq<char>)> {
    match hardware_names(infos, infos.len() as int, serial) {
        Some(names) => Some(names),
        None => match network_name(displays, screens, displays.len() as int, serial) {
            Some(name) => Some((name, text::decimal_digits(serial as nat))),
            None => None,
        },
    }
}

/// One display, once for each of the first `n` screens that is on it.
pub open spec fn attached_screens(
    display: Display,
    names: (Seq<char>, Seq<char>),
    screens: Seq<ScreenView>,
    n: int,
) -> Seq<AttachedView>
    decreases n,
{
    if n <= 0 {
        Seq::empty()
    } else {
        let earlier = attached_screens(display, names, screens, n - 1);
        if screens[n - 1].display_id == Some(display.id) {
            earlier.push(
                AttachedView {
                    id: display.id,
                    device: names.0,
                    serial_number_id: names.1,
                    size: display.bounds,
                    work_area_size: screens[n - 1].visible_frame,
                },
            )
        } else {
            earlier
        }
    }
}

/// The monitors that the first `n` displays are. A display without names is left out.
pub open spec fn attached_displays(
    displays: Seq<Display>,
    screens: Seq<ScreenView>,
    infos: Seq<MonitorInfoView>,
    n: int,
) -> Seq<AttachedView>
    decreases n,
{
    if n <= 0 {
        Seq::empty()
    } else {
        attached_displays(displays, screens, infos, n - 1) + match display_names(
            displays,
            screens,
            infos,
            displays[n - 1].serial_number,
        ) {
            Some(names) => attached_screens(
                displays[n - 1],
                names,
                screens,
                screens.len() as int,
            ),
            None => Seq::empty(),
        }
    }
}

fn find_hardware(infos: &Vec<MonitorInfo>, serial: u32) -> (names: Option<(String, String)>)
    ensures
        names.deep_view() == hardware_names(infos.deep_view(), infos.len() as int, serial),
{
    let mut i: usize = infos.len();
    while i > 0
        invariant
            i <= infos.len(),
            hardware_names(infos.deep_view(), infos.len() as int, serial) == hardware_names(
                infos.deep_view(),
                i as int,
                serial,
            ),
        decreases i,
    {
        assert(infos.deep_view()[i - 1] == infos[i - 1].deep_view());
        if infos[i - 1].serial_number == serial {
            let names = (
                infos[i - 1].product_name.clone(),
                infos[i - 1].alphanumeric_serial_number.clone(),
            );
            return Some(names);
        }
        i -= 1;
    }
    None
}

fn is_on(screen: &Screen, display_id: u32) -> (on: bool)
    ensures
        on == (screen.display_id == Some(display_id)),
{
    match screen.display_id {
        Some(id) => id == display_id,
        None => false,
    }
}

fn find_screen(screens: &Vec<Screen>, display_id: u32) -> (name: Option<String>)
    ensures
        name.deep_view() == screen_name(screens.deep_view(), screens.len() as int, display_id),
{
    let mut i: usize = screens.len();
    while i > 0
        invariant
            i <= screens.len(),
            screen_name(screens.deep_view(), screens.len() as int, display_id) == screen_name(
                screens.deep_view(),
                i as int,
                display_id,
            ),
        decreases i,
    {
        assert(screens.deep_view()[i - 1] == screens[i - 1].deep_view());
        if is_on(&screens[i - 1], display_id) {
            return Some(screens[i - 1].name.clone());
        }
        i -= 1;
    }
    None
}

fn find_network(displays: &Vec<Display>, screens: &Vec<Screen>, serial: u32) -> (name: Option<
    String,
>)
    ensures
        name.deep_view() == network_name(
            displays@,
            screens.deep_view(),
            displays.len() as int,
            serial,
        ),
{
    let mut i: usize = displays.len();
    while i > 0
        invariant
            i <= displays.len(),
            network_name(displays@, screens.deep_view(), displays.len() as int, serial)
                == network_name(displays@, screens.deep_view(), i as int, serial),
        decreases i,
    {
        if displays[i - 1].serial_number == serial {
            let name = find_screen(screens, displays[i - 1].id);
            if name.is_some() {
                return name;
            }
        }
        i -= 1;
    }
    None
}

fn name_display(
    displays: &Vec<Display>,
    screens: &Vec<Screen>,
    infos: &Vec<MonitorInfo>,
    serial: u32,
) -> (names: Option<(String, String)>)
    ensures
        names.deep_view() == display_names(
            displays@,
            screens.deep_view(),
            infos.deep_view(),
            serial,
        ),
{
    match find_hardware(infos, serial) {
        Some(names) => Some(names),
        None => match find_network(displays, screens, serial) {
            Some(name) => Some((name, text::decimal(serial as usize))),
            None => None,
        },
    }
}

fn attach_screens(
    attached: &mut Vec<Attached>,
    display: Display,
    names: &(String, String),
    screens: &Vec<Screen>,
)
    ensures
        final(attached).deep_view() == old(attached).deep_view() + attached_screens(
            display,
            names.deep_view(),
            screens.deep_view(),
            screens.len() as int,
        ),
{
    let ghost before = attached.deep_view();
    let mut i: usize = 0;
    while i < screens.len()
        invariant
            i <= screens.len(),
            attached.deep_view() =~= before + attached_screens(
                display,
                names.deep_view(),
                screens.deep_view(),
                i as int,
            ),
        decreases screens.len() - i,
    {
        assert(screens.deep_view()[i as int] == screens[i as int].deep_view());
        let ghost now = attached.deep_view();
        if is_on(&screens[i], display.id) {
            let monitor = Attached {
                id: display.id,
                device: names.0.clone(),
                serial_number_id: names.1.clone(),
                size: display.bounds,
                work_area_size: screens[i].visible_frame,
            };
            let ghost added = monitor.deep_view();
            attached.push(monitor);
            assert(attached.deep_view() =~= now.push(added));
        }
        i += 1;
    }
}

impl MacosApi {
    /// Which monitors are attached: for every display that is connected, the screens that are
    /// on it, under the names that its hardware gives.
    pub fn latest_monitor_information(
        displays: &Vec<Display>,
        screens: &Vec<Screen>,
        infos: &Vec<MonitorInfo>,
    ) -> (attached: Vec<Attached>)
        ensures
            attached.deep_view() == attached_displays(
                displays@,
                screens.deep_view(),
                infos.deep_view(),
                displays.len() as int,
            ),
    {
        let mut attached: Vec<Attached> = Vec::new();
        assert(attached.deep_view() =~= Seq::<AttachedView>::empty());
        let mut i: usize = 0;
        while i < displays.len()
            invariant
                i <= displays.len(),
                attached.deep_view() == attached_displays(
                    displays@,
                    screens.deep_view(),
                    infos.deep_view(),
                    i as int,
                ),
            decreases displays.len() - i,
        {
            let ghost before = attached.deep_view();
            match name_display(displays, screens, infos, displays[i].serial_number) {
                Some(names) => {
                    attach_screens(&mut attached, displays[i], &names, screens);
                },
                None => {
                    assert(before + Seq::<AttachedView>::empty() =~= before);
                },
            }
            i += 1;
        }
        attached
    }
}

/// The monitors with the size of a display brought up to date.
pub open spec fn resized(monitors: Seq<MonitorView>, device: AttachedView) -> Seq<MonitorView> {
    monitors.map_values(
        |monitor: MonitorView|
            if monitor.id == device.id {
                MonitorView {
                    size: device.size,
                    work_area_size: device.work_area_size,
                    ..monitor
                }
            } else {
                monitor
            },
    )
}

impl MacosApi {
    /// Brings the sizes of the monitors up to date with one display. The focused workspace is
    /// laid out again after each of them.
    pub fn update_monitor_work_areas(wm: &mut WindowManager, device: &Attached) -> (operation:
        Operation)
        ensures
            final(wm).deep_view() == (WindowManagerView {
                monitors: resized(old(wm).deep_view().monitors, device.deep_view()),
                ..old(wm).deep_view()
            }),
            operation == Operation::UpdateFocusedWorkspace(
                old(wm).deep_view().mouse_follows_focus,
                true,
            ),
    {
        let ghost before = wm.deep_view();
        let ghost all = resized(before.monitors, device.deep_view());
        let mut i: usize = 0;
        while i < wm.monitors.len()
            invariant
                i <= wm.monitors.len(),
                wm.monitors.len() == before.monitors.len(),
                all == resized(before.monitors, device.deep_view()),
                wm.deep_view() == (WindowManagerView {
                    monitors: wm.deep_view().monitors,
                    ..before
                }),
                wm.deep_view().monitors =~= all.take(i as int) + before.monitors.skip(i as int),
            decreases wm.monitors.len() - i,
        {
            assert(wm.deep_view().monitors[i as int] == before.monitors[i as int]);
            assert(wm.monitors[i as int].deep_view() == before.monitors[i as int]);
            let ghost now = wm.deep_view();
            if wm.monitors[i].id == device.id {
                let monitor = wm.monitor_mut(i);
                monitor.size = device.size;
                monitor.work_area_size = device.work_area_size;
            }
            assert(wm.deep_view().monitors =~= now.monitors.update(i as int, all[i as int]));
            i += 1;
        }
        assert(wm.deep_view().monitors =~= all);
        Operation::UpdateFocusedWorkspace(wm.mouse_follows_focus, true)
    }

    /// Where the cursor goes to be in the middle of a rectangle.
    pub fn center_cursor_in_rect(rect: &Rect) -> (point: (i32, i32))
        ensures
            point.0 == geometry::clamped(placement::middle(*rect).0),
            point.1 == geometry::clamped(placement::middle(*rect).1),
    {
        let half_width: i32 = rect.right / 2;
        let half_height: i32 = rect.bottom / 2;
        assert(half_width == geometry::quotient(rect.right as int, 2));
        assert(half_height == geometry::quotient(rect.bottom as int, 2));
        (
            geometry::clamp(rect.left as i64 + half_width as i64),
            geometry::clamp(rect.top as i64 + half_height as i64),
        )
    }
}

} // verus!
