//! What becomes of displays and windows that are found at the start.

use crate::eligibility;
use crate::geometry::Rect;
use crate::macos_api::AttachedView;
use crate::macos_api::Display;
use crate::macos_api::MonitorInfoView;
use crate::macos_api::ScreenView;
use crate::macos_api::windows::FoundWindowView;
use crate::macos_api::windows;
use crate::macos_api;
use crate::process_command::going;
use crate::sequences;
use crate::session::SessionStateView;
use crate::session;
use crate::text;
use crate::window_manager::ContainerView;
use crate::window_manager::MonitorView;
use crate::window_manager::WindowManagerView;
use crate::window_manager::WorkspaceView;
use vstd::prelude::*;

verus! {

/// One rectangle lies inside another, edges and all.
pub open spec fn is_inside(inner: Rect, outer: Rect) -> bool {
    &&& outer.left <= inner.left
    &&& outer.top <= inner.top
    &&& inner.left + inner.right <= outer.left + outer.right
    &&& inner.top + inner.bottom <= outer.top + outer.bottom
}

proof fn lemma_around(monitors: Seq<MonitorView>, rect: Rect, n: int, m: usize)
    requires
        0 <= n <= monitors.len() <= usize::MAX,
    ensures
        windows::monitors_around(monitors, rect, n).contains(m) <==> m < n && is_inside(
            rect,
            monitors[m as int].size,
        ),
    decreases n,
{
    if n > 0 {
        lemma_around(monitors, rect, n - 1, m);
        let earlier = windows::monitors_around(monitors, rect, n - 1);
        let all = windows::monitors_around(monitors, rect, n);
        if earlier.contains(m) {
            let i = choose|i: int| 0 <= i < earlier.len() && earlier[i] == m;
            assert(all[i] == m);
        }
        if m == n - 1 && is_inside(rect, monitors[m as int].size) {
            assert(all[earlier.len() as int] == m);
        }
        if all.contains(m) {
            let i = choose|i: int| 0 <= i < all.len() && all[i] == m;
            if i < earlier.len() {
                assert(earlier[i] == m);
            }
        }
    }
}

/// Of the windows that were found, each that is managed is chosen for every monitor that it lies
/// inside of, and no other is.
pub proof fn law_managed_windows_are_chosen_where_they_are(
    wm: WindowManagerView,
    found: Seq<FoundWindowView>,
    n: int,
    m: usize,
    i: usize,
)
    requires
        0 <= n <= found.len() <= usize::MAX,
        wm.monitors.len() <= usize::MAX,
    ensures
        windows::chosen_windows(wm, found, n).contains((m, i)) <==> {
            &&& i < n
            &&& m < wm.monitors.len()
            &&& is_inside(found[i as int].rect, wm.monitors[m as int].size)
            &&& eligibility::managed(
                wm.rules,
                None,
                found[i as int].is_valid,
                found[i as int].attributes,
                eligibility::no_findings(),
            )
        },
    decreases n,
{
    if n > 0 {
        law_managed_windows_are_chosen_where_they_are(wm, found, n - 1, m, i);
        let earlier = windows::chosen_windows(wm, found, n - 1);
        let all = windows::chosen_windows(wm, found, n);
        let count = wm.monitors.len() as int;
        let around = windows::monitors_around(wm.monitors, found[n - 1].rect, count);
        lemma_around(wm.monitors, found[n - 1].rect, count, m);
        if earlier.contains((m, i)) {
            let k = choose|k: int| 0 <= k < earlier.len() && earlier[k] == (m, i);
            assert(all[k] == (m, i));
        }
        if windows::is_managed(wm.rules, found[n - 1]) {
            let added = around.map_values(|m: usize| (m, (n - 1) as usize));
            if i == n - 1 && around.contains(m) {
                let k = choose|k: int| 0 <= k < around.len() && around[k] == m;
                assert(added[k] == (m, i));
                assert(all[earlier.len() + k] == (m, i));
            }
            if all.contains((m, i)) {
                let k = choose|k: int| 0 <= k < all.len() && all[k] == (m, i);
                if k < earlier.len() {
                    assert(earlier[k] == (m, i));
                } else {
                    assert(added[k - earlier.len()] == (m, i));
                    assert(around[k - earlier.len()] == m);
                }
            }
        }
    }
}

/// A window goes to the place that it claims in an earlier session, if that workspace is there, and
/// otherwise to the workspace that the monitor it is on shows, with no slot of its own.
pub proof fn law_windows_go_where_they_were_or_are(
    wm: WindowManagerView,
    earlier: Option<SessionStateView>,
    m: usize,
    i: usize,
    found: FoundWindowView,
)
    requires
        m < wm.monitors.len(),
    ensures
        ({
            let claim = windows::claim_of(wm, earlier, m, i, found);
            let exe: Seq<char> = if found.attributes.exe is Some {
                found.attributes.exe->0
            } else {
                Seq::empty()
            };
            let title: Seq<char> = if found.attributes.title is Some {
                found.attributes.title->0
            } else {
                Seq::empty()
            };
            let place = if earlier is Some {
                session::claimed_place(earlier->0, found.window.id, exe, title)
            } else {
                None
            };
            &&& claim.found == i
            &&& match place {
                Some((pm, pw, slot)) => if pm < wm.monitors.len() && pw
                    < wm.monitors[pm as int].workspaces.len() {
                    claim.target == (pm, pw) && claim.slot == Some(slot)
                } else {
                    claim.target == (m, wm.monitors[m as int].focused_workspace) && claim.slot
                        is None
                },
                None => claim.target == (m, wm.monitors[m as int].focused_workspace) && claim.slot
                    is None,
            }
        }),
{
}

/// A container that is added to a workspace stands in its slot, or at the end where it has none or
/// there are fewer; the others stay in their order around it, and the focus stays with the container
/// that has it.
pub proof fn law_a_container_is_added_in_its_slot(
    workspace: WorkspaceView,
    slot: Option<usize>,
    container: ContainerView,
)
    requires
        workspace.containers.len() < usize::MAX,
    ensures
        ({
            let now = workspace.with_container(slot, container);
            let n = workspace.containers.len() as int;
            let at = if slot is Some && slot->0 < n {
                slot->0 as int
            } else {
                n
            };
            &&& now.containers.len() == n + 1
            &&& now.containers[at] == container
            &&& forall|i: int|
                0 <= i < at ==> #[trigger] now.containers[i] == workspace.containers[i]
            &&& forall|i: int|
                at <= i < n ==> #[trigger] now.containers[i + 1] == workspace.containers[i]
            &&& workspace.focused_container < n ==> now.containers[now.focused_container as int]
                == workspace.containers[workspace.focused_container as int]
                && now.focused_container == if workspace.focused_container < at {
                workspace.focused_container as int
            } else {
                workspace.focused_container + 1
            }
            &&& workspace.focused_container >= n ==> now.focused_container
                == workspace.focused_container
            &&& now == (WorkspaceView {
                containers: now.containers,
                focused_container: now.focused_container,
                resize_dimensions: now.resize_dimensions,
                ..workspace
            })
        }),
{
    let now = workspace.with_container(slot, container);
    let n = workspace.containers.len() as int;
    let at = workspace.landing(slot);
    assert forall|i: int| at <= i < n implies #[trigger] now.containers[i + 1]
        == workspace.containers[i] by {
        assert(workspace.containers.insert(at, container)[i + 1] == workspace.containers[i]);
    }
}

/// The size that is remembered of each container stays with it when another is added, which has
/// none.
pub proof fn law_sizes_stay_with_their_containers(
    workspace: WorkspaceView,
    slot: Option<usize>,
    container: ContainerView,
    i: int,
)
    requires
        0 <= i < workspace.resize_dimensions.len() <= workspace.containers.len(),
        workspace.containers.len() < usize::MAX,
    ensures
        ({
            let now = workspace.with_container(slot, container);
            let at = if slot is Some && slot->0 < workspace.containers.len() {
                slot->0 as int
            } else {
                workspace.containers.len() as int
            };
            &&& now.resize_dimensions[if i < at {
                i
            } else {
                i + 1
            }] == workspace.resize_dimensions[i]
            &&& at < workspace.resize_dimensions.len() ==> now.resize_dimensions[at] is None
        }),
{
}

/// A container goes to the workspace it is for and to no other, and nowhere if that is not there.
pub proof fn law_a_container_goes_to_one_workspace(
    wm: WindowManagerView,
    m: usize,
    w: usize,
    slot: Option<usize>,
    container: ContainerView,
)
    ensures
        ({
            let after = windows::with_container(wm, (m, w), slot, container);
            if m < wm.monitors.len() && w < wm.monitors[m as int].workspaces.len() {
                let before = wm.monitors[m as int];
                let now = after.monitors[m as int];
                &&& after == (WindowManagerView { monitors: after.monitors, ..wm })
                &&& going::differ_only_at(after.monitors, wm.monitors, m as int)
                &&& now == (MonitorView { workspaces: now.workspaces, ..before })
                &&& now.workspaces.len() == before.workspaces.len()
                &&& now.workspaces[w as int] == before.workspaces[w as int].with_container(
                    slot,
                    container,
                )
                &&& forall|i: int|
                    0 <= i < before.workspaces.len() && i != w ==> #[trigger] now.workspaces[i]
                        == before.workspaces[i]
            } else {
                after == wm
            }
        }),
{
}

/// The hardware names a display by the last answer that gives its serial number.
pub open spec fn is_last_answer(infos: Seq<MonitorInfoView>, n: int, serial: u32, i: int) -> bool {
    &&& 0 <= i < n
    &&& infos[i].serial_number == serial
    &&& forall|j: int| i < j < n ==> (#[trigger] infos[j]).serial_number != serial
}

proof fn lemma_hardware_names(infos: Seq<MonitorInfoView>, n: int, serial: u32)
    requires
        0 <= n <= infos.len(),
    ensures
        match macos_api::hardware_names(infos, n, serial) {
            Some((name, number)) => exists|i: int| #[trigger]
                is_last_answer(infos, n, serial, i) && infos[i].product_name == name
                    && infos[i].alphanumeric_serial_number == number,
            None => forall|i: int|
                0 <= i < n ==> (#[trigger] infos[i]).serial_number != serial,
        },
    decreases n,
{
    if n > 0 {
        lemma_hardware_names(infos, n - 1, serial);
        if infos[n - 1].serial_number == serial {
            assert(is_last_answer(infos, n, serial, n - 1));
        } else if let Some((name, number)) = macos_api::hardware_names(infos, n - 1, serial) {
            let i = choose|i: int| #[trigger]
                is_last_answer(infos, n - 1, serial, i) && infos[i].product_name == name
                    && infos[i].alphanumeric_serial_number == number;
            assert(is_last_answer(infos, n, serial, i));
        }
    }
}

/// A display goes by the product name and the serial number that its hardware gives; where none
/// answers for it, it goes by the name of a screen of a display with its number, and by that number
/// in decimal.
pub proof fn law_displays_are_named_by_their_hardware(
    displays: Seq<Display>,
    screens: Seq<ScreenView>,
    infos: Seq<MonitorInfoView>,
    serial: u32,
    i: int,
)
    ensures
        is_last_answer(infos, infos.len() as int, serial, i) ==> macos_api::display_names(
            displays,
            screens,
            infos,
            serial,
        ) == Some((infos[i].product_name, infos[i].alphanumeric_serial_number)),
        (forall|j: int|
            0 <= j < infos.len() ==> (#[trigger] infos[j]).serial_number != serial)
            ==> match macos_api::display_names(displays, screens, infos, serial) {
            Some((name, number)) => {
                &&& number == text::decimal_digits(serial as nat)
                &&& exists|d: int, s: int| #[trigger]
                    is_screen_of(displays, screens, d, s) && displays[d].serial_number == serial
                        && screens[s].name == name
            },
            None => forall|d: int, s: int| #[trigger]
                is_screen_of(displays, screens, d, s) ==> displays[d].serial_number != serial,
        },
{
    lemma_hardware_names(infos, infos.len() as int, serial);
    if is_last_answer(infos, infos.len() as int, serial, i) {
        let (name, number) = macos_api::hardware_names(infos, infos.len() as int, serial)->0;
        let k = choose|k: int| #[trigger]
            is_last_answer(infos, infos.len() as int, serial, k) && infos[k].product_name == name
                && infos[k].alphanumeric_serial_number == number;
        if i < k {
            assert(infos[k].serial_number != serial);
        } else if k < i {
            assert(infos[i].serial_number != serial);
        }
    }
    if forall|j: int| 0 <= j < infos.len() ==> (#[trigger] infos[j]).serial_number != serial {
        lemma_network_name(displays, screens, displays.len() as int, serial);
    }
}

/// A screen is on a display.
pub open spec fn is_screen_of(
    displays: Seq<Display>,
    screens: Seq<ScreenView>,
    d: int,
    s: int,
) -> bool {
    &&& 0 <= d < displays.len()
    &&& 0 <= s < screens.len()
    &&& screens[s].display_id == Some(displays[d].id)
}

proof fn lemma_screen_name(screens: Seq<ScreenView>, n: int, display_id: u32)
    requires
        0 <= n <= screens.len(),
    ensures
        match macos_api::screen_name(screens, n, display_id) {
            Some(name) => exists|s: int|
                0 <= s < n && (#[trigger] screens[s]).display_id == Some(display_id)
                    && screens[s].name == name,
            None => forall|s: int|
                0 <= s < n ==> (#[trigger] screens[s]).display_id != Some(display_id),
        },
    decreases n,
{
    if n > 0 {
        lemma_screen_name(screens, n - 1, display_id);
    }
}

proof fn lemma_network_name(
    displays: Seq<Display>,
    screens: Seq<ScreenView>,
    n: int,
    serial: u32,
)
    requires
        0 <= n <= displays.len(),
    ensures
        match macos_api::network_name(displays, screens, n, serial) {
            Some(name) => exists|d: int, s: int| #[trigger]
                is_screen_of(displays, screens, d, s) && d < n && displays[d].serial_number
                    == serial && screens[s].name == name,
            None => forall|d: int, s: int| #[trigger]
                is_screen_of(displays, screens, d, s) && d < n ==> displays[d].serial_number
                    != serial,
        },
    decreases n,
{
    if n > 0 {
        lemma_network_name(displays, screens, n - 1, serial);
        lemma_screen_name(screens, screens.len() as int, displays[n - 1].id);
        let name = macos_api::screen_name(screens, screens.len() as int, displays[n - 1].id);
        if displays[n - 1].serial_number == serial && name is Some {
            let s = choose|s: int|
                0 <= s < screens.len() && (#[trigger] screens[s]).display_id == Some(
                    displays[n - 1].id,
                ) && screens[s].name == name->0;
            assert(is_screen_of(displays, screens, n - 1, s));
        }
    }
}

/// A monitor stands for a screen of a display: with the id and the bounds of the display, the names
/// that it goes by, and the frame that is visible on the screen.
pub open spec fn stands_for(
    attached: AttachedView,
    display: Display,
    screen: ScreenView,
    device: Seq<char>,
    serial: Seq<char>,
) -> bool {
    &&& attached.id == display.id
    &&& attached.device == device
    &&& attached.serial_number_id == serial
    &&& attached.size == display.bounds
    &&& attached.work_area_size == screen.visible_frame
}

proof fn lemma_attached_screens(
    display: Display,
    names: (Seq<char>, Seq<char>),
    screens: Seq<ScreenView>,
    n: int,
    s: int,
)
    requires
        0 <= s < n <= screens.len(),
        screens[s].display_id == Some(display.id),
    ensures
        exists|k: int|
            0 <= k < macos_api::attached_screens(display, names, screens, n).len() && stands_for(
                #[trigger] macos_api::attached_screens(display, names, screens, n)[k],
                display,
                screens[s],
                names.0,
                names.1,
            ),
    decreases n,
{
    let earlier = macos_api::attached_screens(display, names, screens, n - 1);
    let all = macos_api::attached_screens(display, names, screens, n);
    if s == n - 1 {
        let k = earlier.len() as int;
        assert(stands_for(all[k], display, screens[s], names.0, names.1));
    } else {
        lemma_attached_screens(display, names, screens, n - 1, s);
        let k = choose|k: int|
            0 <= k < earlier.len() && stands_for(
                #[trigger] earlier[k],
                display,
                screens[s],
                names.0,
                names.1,
            );
        assert(all[k] == earlier[k]);
    }
}

/// Every screen of a display that goes by some names is a monitor, with what the display and the
/// screen say.
pub proof fn law_every_named_screen_is_a_monitor(
    displays: Seq<Display>,
    screens: Seq<ScreenView>,
    infos: Seq<MonitorInfoView>,
    n: int,
    d: int,
    s: int,
)
    requires
        0 <= d < n <= displays.len(),
        is_screen_of(displays, screens, d, s),
        macos_api::display_names(displays, screens, infos, displays[d].serial_number) is Some,
    ensures
        ({
            let all = macos_api::attached_displays(displays, screens, infos, n);
            let (device, serial) = macos_api::display_names(
                displays,
                screens,
                infos,
                displays[d].serial_number,
            )->0;
            exists|k: int|
                0 <= k < all.len() && stands_for(
                    #[trigger] all[k],
                    displays[d],
                    screens[s],
                    device,
                    serial,
                )
        }),
    decreases n,
{
    let all = macos_api::attached_displays(displays, screens, infos, n);
    let earlier = macos_api::attached_displays(displays, screens, infos, n - 1);
    let (device, serial) = macos_api::display_names(
        displays,
        screens,
        infos,
        displays[d].serial_number,
    )->0;
    if d == n - 1 {
        let own = macos_api::attached_screens(
            displays[d],
            (device, serial),
            screens,
            screens.len() as int,
        );
        lemma_attached_screens(
            displays[d],
            (device, serial),
            screens,
            screens.len() as int,
            s,
        );
        let k = choose|k: int|
            0 <= k < own.len() && stands_for(
                #[trigger] own[k],
                displays[d],
                screens[s],
                device,
                serial,
            );
        assert(all[earlier.len() + k] == own[k]);
    } else {
        law_every_named_screen_is_a_monitor(displays, screens, infos, n - 1, d, s);
        let k = choose|k: int|
            0 <= k < earlier.len() && stands_for(
                #[trigger] earlier[k],
                displays[d],
                screens[s],
                device,
                serial,
            );
        assert(all[k] == earlier[k]);
    }
}

/// A display that has changed its size brings the size and the work area of the monitors with its id
/// up to date; everything else of them stays, and so does every other monitor.
pub proof fn law_a_display_is_resized(monitors: Seq<MonitorView>, device: AttachedView, m: int)
    requires
        0 <= m < monitors.len(),
    ensures
        ({
            let now = macos_api::resized(monitors, device);
            &&& now.len() == monitors.len()
            &&& monitors[m].id != device.id ==> now[m] == monitors[m]
            &&& monitors[m].id == device.id ==> {
                &&& now[m].size == device.size
                &&& now[m].work_area_size == device.work_area_size
                &&& now[m] == (MonitorView {
                    size: device.size,
                    work_area_size: device.work_area_size,
                    ..monitors[m]
                })
            }
        }),
{
}

/// A display that is among the monitors already is not added again; one without a preferred index
/// goes to the end.
pub proof fn law_a_display_is_added_once(
    monitors: Seq<MonitorView>,
    preferences: Seq<(usize, Seq<char>)>,
    device: MonitorView,
)
    ensures
        ({
            let now = macos_api::with_device(monitors, preferences, device);
            &&& (exists|i: int|
                0 <= i < monitors.len() && (#[trigger] monitors[i]).serial_number_id
                    == device.serial_number_id) ==> now == monitors
            &&& (forall|i: int|
                0 <= i < monitors.len() ==> (#[trigger] monitors[i]).serial_number_id
                    != device.serial_number_id) && (forall|i: int|
                0 <= i < preferences.len() ==> (#[trigger] preferences[i]).1
                    != device.serial_number_id) ==> now == monitors.push(device)
        }),
{
    if forall|i: int|
        0 <= i < preferences.len() ==> (#[trigger] preferences[i]).1 != device.serial_number_id {
        lemma_no_preference(preferences, preferences.len() as int, device.serial_number_id);
    }
}

proof fn lemma_no_preference(preferences: Seq<(usize, Seq<char>)>, n: int, serial: Seq<char>)
    requires
        0 <= n <= preferences.len(),
        forall|i: int| 0 <= i < n ==> (#[trigger] preferences[i]).1 != serial,
    ensures
        macos_api::preferred_index(preferences, n, serial) is None,
    decreases n,
{
    if n > 0 {
        lemma_no_preference(preferences, n - 1, serial);
    }
}


proof fn lemma_by_monitor(chosen: Seq<(usize, usize)>, n: int, window: (usize, usize))
    requires
        0 <= n <= usize::MAX + 1,
    ensures
        windows::by_monitor(chosen, n).contains(window) <==> chosen.contains(window) && window.0
            < n,
        forall|i: int|
            0 <= i < windows::by_monitor(chosen, n).len() ==> (
            #[trigger] windows::by_monitor(chosen, n)[i]).0 < n,
    decreases n,
{
    if n > 0 {
        lemma_by_monitor(chosen, n - 1, window);
        let earlier = windows::by_monitor(chosen, n - 1);
        let own = chosen.filter(windows::is_on((n - 1) as usize));
        let all = windows::by_monitor(chosen, n);
        sequences::lemma_filter_contains(chosen, windows::is_on((n - 1) as usize), window);
        assert forall|i: int| 0 <= i < own.len() implies (#[trigger] own[i]).0 == n - 1 by {
            assert(own.contains(own[i]));
            sequences::lemma_filter_contains(chosen, windows::is_on((n - 1) as usize), own[i]);
        }
        if earlier.contains(window) {
            let i = choose|i: int| 0 <= i < earlier.len() && earlier[i] == window;
            assert(all[i] == window);
        }
        if own.contains(window) {
            let i = choose|i: int| 0 <= i < own.len() && own[i] == window;
            assert(all[earlier.len() + i] == window);
        }
        if all.contains(window) {
            let i = choose|i: int| 0 <= i < all.len() && all[i] == window;
            if i < earlier.len() {
                assert(earlier[i] == window);
            } else {
                assert(own[i - earlier.len()] == window);
            }
        }
    }
}

/// Windows are taken up monitor by monitor: all that are on the monitors there are, and none of a later
/// monitor before one of an earlier.
pub proof fn law_windows_are_taken_up_by_monitor(
    chosen: Seq<(usize, usize)>,
    n: int,
    window: (usize, usize),
    i: int,
    j: int,
)
    requires
        0 <= n <= usize::MAX,
        0 <= i <= j < windows::by_monitor(chosen, n).len(),
    ensures
        windows::by_monitor(chosen, n).contains(window) <==> chosen.contains(window) && window.0
            < n,
        windows::by_monitor(chosen, n)[i].0 <= windows::by_monitor(chosen, n)[j].0,
    decreases n,
{
    lemma_by_monitor(chosen, n, window);
    if n > 0 {
        let earlier = windows::by_monitor(chosen, n - 1);
        let own = chosen.filter(windows::is_on((n - 1) as usize));
        lemma_by_monitor(chosen, n - 1, window);
        if j < earlier.len() {
            law_windows_are_taken_up_by_monitor(chosen, n - 1, window, i, j);
        } else {
            assert(own.contains(own[j - earlier.len()]));
            sequences::lemma_filter_contains(
                chosen,
                windows::is_on((n - 1) as usize),
                own[j - earlier.len()],
            );
        }
    }
}

/// Once displays were found, the monitors are those that come of them, and each index stands for the
/// monitor that the preferences make it; nothing else changes.
pub proof fn law_displays_only_change_the_monitors(wm: WindowManagerView, devices: Seq<MonitorView>)
    ensures
        ({
            let after = macos_api::with_displays(wm, devices);
            &&& after == (WindowManagerView {
                monitors: after.monitors,
                monitor_usr_idx_map: after.monitor_usr_idx_map,
                ..wm
            })
            &&& after.monitors == macos_api::loaded_monitors(
                wm.monitors,
                wm.display_index_preferences,
                devices,
            )
            &&& after.monitor_usr_idx_map == macos_api::index_map(
                after.monitors,
                wm.display_index_preferences,
            ).map
        }),
{
}


/// The index that is preferred for a display is that of the last preference that names it.
pub open spec fn is_last_preference(
    preferences: Seq<(usize, Seq<char>)>,
    n: int,
    serial: Seq<char>,
    i: int,
) -> bool {
    &&& 0 <= i < n
    &&& preferences[i].1 == serial
    &&& forall|j: int| i < j < n ==> (#[trigger] preferences[j]).1 != serial
}

proof fn lemma_preferred_index(
    preferences: Seq<(usize, Seq<char>)>,
    n: int,
    serial: Seq<char>,
    i: int,
)
    requires
        n <= preferences.len(),
        is_last_preference(preferences, n, serial, i),
    ensures
        macos_api::preferred_index(preferences, n, serial) == Some(preferences[i].0),
    decreases n,
{
    if i < n - 1 {
        assert(preferences[n - 1].1 != serial);
        lemma_preferred_index(preferences, n - 1, serial, i);
    }
}

proof fn lemma_padded(monitors: Seq<MonitorView>, p: usize)
    ensures
        ({
            let places = macos_api::padded(monitors, p);
            &&& p < places.len()
            &&& places.len() >= monitors.len()
            &&& p >= monitors.len() ==> places.len() == p + 1
            &&& p < monitors.len() ==> places == monitors
            &&& forall|i: int|
                0 <= i < monitors.len() ==> #[trigger] places[i] == monitors[i]
            &&& forall|i: int|
                monitors.len() <= i < places.len() ==> (
                #[trigger] places[i]).serial_number_id == "PLACEHOLDER"@
        }),
    decreases p + 1 - monitors.len(),
{
    if p >= monitors.len() {
        let longer = monitors.push(macos_api::placeholder_monitor());
        lemma_padded(longer, p);
        let places = macos_api::padded(monitors, p);
        assert forall|i: int| 0 <= i < monitors.len() implies #[trigger] places[i]
            == monitors[i] by {
            assert(places[i] == longer[i]);
        }
        assert(places[monitors.len() as int] == longer[monitors.len() as int]);
    }
}

/// A display that is new among the monitors takes the index that its last preference gives it. The
/// monitor that stands there moves along with those behind it, unless it only holds the place.
pub proof fn law_a_display_takes_its_preferred_index(
    monitors: Seq<MonitorView>,
    preferences: Seq<(usize, Seq<char>)>,
    device: MonitorView,
    i: int,
)
    requires
        is_last_preference(
            preferences,
            preferences.len() as int,
            device.serial_number_id,
            i,
        ),
        forall|k: int|
            0 <= k < monitors.len() ==> (#[trigger] monitors[k]).serial_number_id
                != device.serial_number_id,
    ensures
        ({
            let now = macos_api::with_device(monitors, preferences, device);
            let p = preferences[i].0 as int;
            let moves = p < monitors.len() && monitors[p].serial_number_id != "PLACEHOLDER"@;
            &&& p < now.len()
            &&& now[p] == device
            &&& forall|k: int|
                0 <= k < p && k < monitors.len() ==> #[trigger] now[k] == monitors[k]
            &&& moves ==> now.len() == monitors.len() + 1 && forall|k: int|
                p <= k < monitors.len() ==> #[trigger] now[k + 1] == monitors[k]
            &&& p < monitors.len() && !moves ==> now.len() == monitors.len() && forall|k: int|
                p < k < monitors.len() ==> #[trigger] now[k] == monitors[k]
            &&& p >= monitors.len() ==> now.len() == p + 1 && forall|k: int|
                monitors.len() <= k < p ==> (#[trigger] now[k]).serial_number_id
                    == "PLACEHOLDER"@
        }),
{
    let p = preferences[i].0;
    lemma_preferred_index(preferences, preferences.len() as int, device.serial_number_id, i);
    lemma_padded(monitors, p);
    let places = macos_api::padded(monitors, p);
    let now = macos_api::with_device(monitors, preferences, device);
    if p < monitors.len() && monitors[p as int].serial_number_id != "PLACEHOLDER"@ {
        assert forall|k: int| p <= k < monitors.len() implies #[trigger] now[k + 1]
            == monitors[k] by {
            assert(places.insert(p as int, device)[k + 1] == places[k]);
        }
    }
}

} // verus!
