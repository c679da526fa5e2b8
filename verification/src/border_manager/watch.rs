//! When the borders have to be drawn again.
//!
//! Most of what may have changed is reported, but focus moving to a window that is not
//! managed is not. So the border manager also looks for itself from time to time.

use crate::border_manager;
use crate::border_manager::border::Borders;
use crate::border_manager::border::BordersView;
use crate::border_manager::drawing::Attention;
use crate::border_manager::Notification;
use crate::border_manager::FOREGROUND_LOST_GRACE_MS;
use crate::border_manager::WINDOW_APPEARANCE_GRACE_MS;
use crate::settings::WindowKind;
use crate::window_manager::Window;
use crate::window_manager::WindowManager;
use crate::window_manager::WindowManagerView;
use vstd::prelude::*;

verus! {

/// What the border manager remembers from one look to the next.
#[derive(Clone, Copy, Debug)]
pub struct BorderWatch {
    pub pending_move_op: Option<(usize, usize, u32)>,
    pub is_paused: bool,
    /// The last notification that the borders were drawn for.
    pub notification: Option<Notification>,
    pub foreground_is_managed: bool,
    pub foreground_window: u32,
    /// Since when nothing has been in front, in milliseconds.
    pub foreground_lost_since: Option<u64>,
}

/// What the border manager sees.
#[derive(Clone, Copy, Debug, PartialEq, Eq, Structural)]
pub struct WatchSight {
    /// What time it is, in milliseconds.
    pub now: u64,
    /// The window in front, or zero where that is not known.
    pub foreground_window: u32,
    /// The monitors are as they were when the borders were last drawn.
    pub monitors_unchanged: bool,
}

/// What is to be done about the borders.
#[derive(Clone, Copy, Debug, PartialEq, Eq, Structural)]
pub enum BorderVerdict {
    /// Nothing has changed.
    Skip,
    /// They are hidden: a border drawn now would cross a window that is not managed.
    HideAll,
    /// They are destroyed: there are to be none.
    DestroyAll,
    /// They are brought up to date on every monitor.
    Draw(Attention),
}

/// A border manager that has seen nothing yet.
pub open spec fn fresh_watch() -> BorderWatch {
    BorderWatch {
        pending_move_op: None,
        is_paused: false,
        notification: None,
        foreground_is_managed: true,
        foreground_window: 0,
        foreground_lost_since: None,
    }
}

/// The window in front is managed. One that could not be made out counts as managed, so that
/// an unlucky reading never blanks the borders.
pub open spec fn is_ours(wm: WindowManagerView, foreground_window: u32) -> bool {
    foreground_window == 0 || wm.shows(foreground_window)
}

/// Whether it is worth looking at all: something was reported, or there is a border on the
/// screen and another window has come to the front.
pub open spec fn worth_looking(
    watch: BorderWatch,
    notification: Option<Notification>,
    borders: BordersView,
    foreground_window: u32,
) -> bool {
    ||| notification is Some
    ||| borders.state != Map::<Seq<char>, border_manager::border::Border>::empty()
        && foreground_window != watch.foreground_window
}

/// Since when nothing has been in front.
pub open spec fn lost_since(watch: BorderWatch, sight: WatchSight) -> Option<u64> {
    if sight.foreground_window != 0 {
        None
    } else if watch.foreground_lost_since is Some {
        watch.foreground_lost_since
    } else {
        Some(sight.now)
    }
}

/// Nothing has been in front for so long that a window must have closed, rather than focus
/// being handed from one window to another, and no window has just appeared to claim it.
pub open spec fn has_lost_foreground(
    wm: WindowManagerView,
    watch: BorderWatch,
    sight: WatchSight,
) -> bool {
    &&& lost_since(watch, sight) matches Some(since) && since + FOREGROUND_LOST_GRACE_MS
        <= sight.now
    &&& !border_manager::appeared_recently(wm.borders, sight.now)
}

/// What kind of border a window has.
pub open spec fn kind_of(borders: BordersView, window_id: u32) -> Option<WindowKind> {
    match border_manager::border_of(borders, window_id) {
        Some(info) => Some(info.window_kind),
        None => None,
    }
}

/// The focus goes to a floating window, or has left one that still wears the border of a
/// focused one.
pub open spec fn touches_floating(
    floating: Window,
    borders: BordersView,
    window_id: u32,
    foreground_window: u32,
) -> bool {
    ||| floating.id == window_id
    ||| floating.id != foreground_window && kind_of(borders, floating.id) == Some(
        WindowKind::Floating,
    )
}

/// The focus goes to or has left one of some floating windows.
pub open spec fn touches_any_floating(
    floating: Seq<Window>,
    borders: BordersView,
    window_id: u32,
    foreground_window: u32,
) -> bool {
    exists|i: int|
        0 <= i < floating.len() && touches_floating(
            #[trigger] floating[i],
            borders,
            window_id,
            foreground_window,
        )
}

/// The last word was about another window than this one.
pub open spec fn follows_another_window(last: Option<Notification>, window_id: u32) -> bool {
    match last {
        Some(Notification::Update(previous, false)) => id_or_zero(previous) != window_id,
        _ => false,
    }
}

/// The id of a window, or zero where there is none.
pub open spec fn id_or_zero(id: Option<u32>) -> u32 {
    match id {
        Some(id) => id,
        None => 0,
    }
}

/// Something about the borders may have changed.
pub open spec fn should_process(
    wm: WindowManagerView,
    watch: BorderWatch,
    borders: BordersView,
    notification: Option<Notification>,
    sight: WatchSight,
) -> bool {
    let crossed = is_ours(wm, sight.foreground_window) != watch.foreground_is_managed;
    match notification {
        None => crossed,
        Some(Notification::ForceUpdate) => true,
        Some(Notification::Update(window_id, reaper)) => {
            ||| crossed
            ||| reaper
            ||| !sight.monitors_unchanged
            ||| wm.pending_move_op != watch.pending_move_op
            ||| wm.is_paused != watch.is_paused
            ||| borders.state == Map::<Seq<char>, border_manager::border::Border>::empty()
            ||| kind_of(borders, id_or_zero(window_id)) == Some(WindowKind::Unfocused)
            ||| touches_any_floating(
                wm.workspace()->Ok_0.floating_windows,
                borders,
                id_or_zero(window_id),
                sight.foreground_window,
            )
            ||| follows_another_window(watch.notification, id_or_zero(window_id))
        },
    }
}

/// What a look comes to.
pub open spec fn look_effect(
    wm: WindowManagerView,
    watch: BorderWatch,
    borders: BordersView,
    notification: Option<Notification>,
    sight: WatchSight,
) -> (BorderWatch, BorderVerdict) {
    let seen = BorderWatch {
        foreground_is_managed: is_ours(wm, sight.foreground_window),
        foreground_window: sight.foreground_window,
        foreground_lost_since: lost_since(watch, sight),
        ..watch
    };
    if !should_process(wm, watch, borders, notification, sight) {
        (seen, BorderVerdict::Skip)
    } else if !is_ours(wm, sight.foreground_window) {
        (seen, BorderVerdict::HideAll)
    } else if !wm.borders.enabled || wm.is_paused {
        (BorderWatch { is_paused: wm.is_paused, ..seen }, BorderVerdict::DestroyAll)
    } else {
        (
            BorderWatch {
                pending_move_op: wm.pending_move_op,
                is_paused: wm.is_paused,
                notification: if notification is Some {
                    notification
                } else {
                    watch.notification
                },
                ..seen
            },
            BorderVerdict::Draw(
                Attention {
                    focused_monitor: wm.focused_monitor,
                    foreground_window: sight.foreground_window,
                    foreground_lost: has_lost_foreground(wm, watch, sight),
                },
            ),
        )
    }
}

fn has_kind(borders: &Borders, window_id: u32, kind: WindowKind) -> (has: bool)
    ensures
        has == (kind_of(borders@, window_id) == Some(kind)),
{
    match border_manager::window_border(borders, window_id) {
        Some(info) => info.window_kind == kind,
        None => false,
    }
}

fn any_floating_touched(
    floating: &Vec<Window>,
    borders: &Borders,
    window_id: u32,
    foreground_window: u32,
) -> (touched: bool)
    ensures
        touched == touches_any_floating(floating@, borders@, window_id, foreground_window),
{
    let mut i: usize = 0;
    while i < floating.len()
        invariant
            i <= floating.len(),
            forall|k: int|
                0 <= k < i ==> !touches_floating(
                    #[trigger] floating@[k],
                    borders@,
                    window_id,
                    foreground_window,
                ),
        decreases floating.len() - i,
    {
        let id: u32 = floating[i].id;
        if id == window_id || id != foreground_window && has_kind(
            borders,
            id,
            WindowKind::Floating,
        ) {
            assert(touches_floating(
                floating@[i as int],
                borders@,
                window_id,
                foreground_window,
            ));
            return true;
        }
        i += 1;
    }
    false
}

fn window_or_zero(id: Option<u32>) -> (id_: u32)
    ensures
        id_ == id_or_zero(id),
{
    match id {
        Some(id) => id,
        None => 0,
    }
}

impl BorderWatch {
    /// A border manager that has seen nothing yet.
    pub fn new() -> (watch: Self)
        ensures
            watch == fresh_watch(),
    {
        BorderWatch {
            pending_move_op: None,
            is_paused: false,
            notification: None,
            foreground_is_managed: true,
            foreground_window: 0,
            foreground_lost_since: None,
        }
    }

    /// Whether it is worth looking at all. Everything else costs far more than this question,
    /// to which the answer is almost always no.
    pub fn is_worth_looking(
        &self,
        notification: Option<Notification>,
        borders: &Borders,
        foreground_window: u32,
    ) -> (worth: bool)
        ensures
            worth == worth_looking(*self, notification, borders@, foreground_window),
    {
        notification.is_some() || !borders.state.is_empty() && foreground_window
            != self.foreground_window
    }

    fn should_update(
        &self,
        wm: &WindowManager,
        borders: &Borders,
        window_id: u32,
        sight: WatchSight,
    ) -> (update: bool)
        requires
            wm.deep_view().workspace() is Ok,
        ensures
            update == {
                ||| !sight.monitors_unchanged
                ||| wm.deep_view().pending_move_op != self.pending_move_op
                ||| wm.deep_view().is_paused != self.is_paused
                ||| borders@.state == Map::<Seq<char>, border_manager::border::Border>::empty()
                ||| kind_of(borders@, window_id) == Some(WindowKind::Unfocused)
                ||| touches_any_floating(
                    wm.deep_view().workspace()->Ok_0.floating_windows,
                    borders@,
                    window_id,
                    sight.foreground_window,
                )
                ||| follows_another_window(self.notification, window_id)
            },
    {
        let same_move: bool = match (wm.pending_move_op, self.pending_move_op) {
            (Some((m, w, id)), Some((n, v, other))) => m == n && w == v && id == other,
            (None, None) => true,
            _ => false,
        };
        let another_window: bool = match self.notification {
            Some(Notification::Update(previous, false)) => window_or_zero(previous) != window_id,
            _ => false,
        };
        let touched: bool = match wm.workspace() {
            Ok(workspace) => any_floating_touched(
                &workspace.floating_windows,
                borders,
                window_id,
                sight.foreground_window,
            ),
            Err(_) => false,
        };
        !sight.monitors_unchanged || !same_move || wm.is_paused != self.is_paused
            || borders.state.is_empty() || has_kind(borders, window_id, WindowKind::Unfocused)
            || touched || another_window
    }

    /// Looks at what is in front, and decides what is to be done about the borders.
    pub fn look(
        &mut self,
        wm: &WindowManager,
        borders: &Borders,
        notification: Option<Notification>,
        sight: WatchSight,
    ) -> (verdict: BorderVerdict)
        requires
            wm.deep_view().workspace() is Ok,
        ensures
            (*final(self), verdict) == look_effect(
                wm.deep_view(),
                *old(self),
                borders@,
                notification,
                sight,
            ),
    {
        let ours: bool = sight.foreground_window == 0 || wm.manages_window(
            sight.foreground_window,
        );
        let since: Option<u64> = if sight.foreground_window != 0 {
            None
        } else if self.foreground_lost_since.is_some() {
            self.foreground_lost_since
        } else {
            Some(sight.now)
        };
        let lost: bool = match since {
            Some(since) => since <= sight.now && sight.now - since >= FOREGROUND_LOST_GRACE_MS
                && !border_manager::window_appeared_recently(&wm.borders, sight.now),
            None => false,
        };
        let crossed: bool = ours != self.foreground_is_managed;
        let process: bool = match notification {
            None => crossed,
            Some(Notification::ForceUpdate) => true,
            Some(Notification::Update(window_id, reaper)) => crossed || reaper
                || self.should_update(wm, borders, window_or_zero(window_id), sight),
        };
        self.foreground_is_managed = ours;
        self.foreground_window = sight.foreground_window;
        self.foreground_lost_since = since;
        if !process {
            return BorderVerdict::Skip;
        }
        if !ours {
            return BorderVerdict::HideAll;
        }
        self.is_paused = wm.is_paused;
        if !wm.borders.enabled || wm.is_paused {
            return BorderVerdict::DestroyAll;
        }
        self.pending_move_op = wm.pending_move_op;
        if notification.is_some() {
            self.notification = notification;
        }
        BorderVerdict::Draw(
            Attention {
                focused_monitor: wm.focused_monitor,
                foreground_window: sight.foreground_window,
                foreground_lost: lost,
            },
        )
    }
}

/// While a window that is not managed is in front, no border is drawn; and while it is not
/// known what is in front, none is hidden.
pub proof fn law_borders_keep_off_other_windows(
    wm: WindowManagerView,
    watch: BorderWatch,
    borders: BordersView,
    notification: Option<Notification>,
    sight: WatchSight,
)
    ensures
        sight.foreground_window != 0 && !wm.shows(sight.foreground_window) ==> !(look_effect(
            wm,
            watch,
            borders,
            notification,
            sight,
        ).1 is Draw),
        sight.foreground_window == 0 ==> look_effect(
            wm,
            watch,
            borders,
            notification,
            sight,
        ).1 != BorderVerdict::HideAll,
{
}

/// Focus is only taken to be lost when nothing has been in front for the whole grace period
/// and no window has appeared within its own.
pub proof fn law_focus_is_not_taken_from_a_handover(
    wm: WindowManagerView,
    watch: BorderWatch,
    borders: BordersView,
    notification: Option<Notification>,
    sight: WatchSight,
)
    ensures
        look_effect(wm, watch, borders, notification, sight).1 matches BorderVerdict::Draw(
            attention,
        ) && attention.foreground_lost ==> {
            &&& sight.foreground_window == 0
            &&& watch.foreground_lost_since matches Some(since) && since
                + FOREGROUND_LOST_GRACE_MS <= sight.now
            &&& wm.borders.last_window_appeared + WINDOW_APPEARANCE_GRACE_MS <= sight.now
        },
{
}

/// Looking again at once, with nothing reported, finds nothing to do.
pub proof fn law_a_second_look_finds_nothing(
    wm: WindowManagerView,
    watch: BorderWatch,
    borders: BordersView,
    notification: Option<Notification>,
    sight: WatchSight,
    later: WatchSight,
)
    requires
        later.foreground_window == sight.foreground_window,
    ensures
        ({
            let seen = look_effect(wm, watch, borders, notification, sight).0;
            &&& look_effect(wm, seen, borders, None, later).1 == BorderVerdict::Skip
            &&& !worth_looking(seen, None, borders, later.foreground_window)
        }),
{
}

} // verus!
