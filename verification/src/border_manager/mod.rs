//! Borders around windows: which ones there are, what kind of window each one frames, and
//! when they are worth redrawing.

pub mod border;
pub mod drawing;
pub mod framing;
pub mod ns_window;
pub mod watch;

use crate::border_manager::border::Borders;
use crate::border_manager::border::BordersView;
use crate::border_manager::ns_window::Flash;
use crate::border_manager::ns_window::FlashStyle;
use crate::border_manager::ns_window::FlashView;
use crate::names::NameMap;
use crate::settings::WindowKind;
use vstd::prelude::*;

verus! {

/// A colour.
#[derive(Clone, Copy, Debug, PartialEq, Eq, Structural)]
pub struct Rgb {
    pub r: u32,
    pub g: u32,
    pub b: u32,
}

/// Added to every configured offset, so that one configuration looks the same on systems
/// that draw an invisible frame around every window.
pub const BORDER_OFFSET_ADJUSTMENT: i32 = 7;

/// How long to wait for a notification before looking at the foreground window anyway, in
/// milliseconds.
pub const FOREGROUND_POLL_INTERVAL_MS: u64 = 200;

/// How long nothing may hold the foreground before it is taken for a window having closed,
/// rather than focus being handed from one window to another, in milliseconds.
pub const FOREGROUND_LOST_GRACE_MS: u64 = 400;

/// How long after a window appears the focus is left alone, in milliseconds.
pub const WINDOW_APPEARANCE_GRACE_MS: u64 = 1500;

/// How borders look.
pub struct BorderSettings {
    pub enabled: bool,
    pub width: i32,
    pub offset: i32,
    pub radius: i32,
    pub focused: Rgb,
    pub unfocused: Rgb,
    pub unfocused_locked: Rgb,
    pub monocle: Rgb,
    pub stack: Rgb,
    pub floating: Rgb,
    pub flash: Flash,
    /// Per-application corner radius overrides.
    pub radius_rules: NameMap<i32>,
    /// When a window last appeared, in milliseconds.
    pub last_window_appeared: u64,
}

/// The value of [`BorderSettings`].
pub struct BorderSettingsView {
    pub enabled: bool,
    pub width: i32,
    pub offset: i32,
    pub radius: i32,
    pub focused: Rgb,
    pub unfocused: Rgb,
    pub unfocused_locked: Rgb,
    pub monocle: Rgb,
    pub stack: Rgb,
    pub floating: Rgb,
    pub flash: FlashView,
    pub radius_rules: Map<Seq<char>, i32>,
    pub last_window_appeared: u64,
}

impl DeepView for BorderSettings {
    type V = BorderSettingsView;

    open spec fn deep_view(&self) -> BorderSettingsView {
        BorderSettingsView {
            enabled: self.enabled,
            width: self.width,
            offset: self.offset,
            radius: self.radius,
            focused: self.focused,
            unfocused: self.unfocused,
            unfocused_locked: self.unfocused_locked,
            monocle: self.monocle,
            stack: self.stack,
            floating: self.floating,
            flash: self.flash@,
            radius_rules: self.radius_rules@,
            last_window_appeared: self.last_window_appeared,
        }
    }
}

/// How borders look before any configuration is read.
pub open spec fn default_borders() -> BorderSettingsView {
    BorderSettingsView {
        enabled: true,
        width: 10,
        offset: 0,
        radius: 10,
        focused: Rgb { r: 66, g: 165, b: 245 },
        unfocused: Rgb { r: 128, g: 128, b: 128 },
        unfocused_locked: Rgb { r: 158, g: 8, b: 8 },
        monocle: Rgb { r: 255, g: 51, b: 153 },
        stack: Rgb { r: 0, g: 165, b: 66 },
        floating: Rgb { r: 245, g: 245, b: 165 },
        flash: FlashView {
            factor_x10: 35,
            duration_ms: 220,
            easing: Seq::empty(),
            style: FlashStyle::Width,
        },
        radius_rules: Map::empty(),
        last_window_appeared: 0,
    }
}

impl Default for BorderSettings {
    fn default() -> (settings: Self)
        ensures
            settings.deep_view() == default_borders(),
    {
        BorderSettings {
            enabled: true,
            width: 10,
            offset: 0,
            radius: 10,
            focused: Rgb { r: 66, g: 165, b: 245 },
            unfocused: Rgb { r: 128, g: 128, b: 128 },
            unfocused_locked: Rgb { r: 158, g: 8, b: 8 },
            monocle: Rgb { r: 255, g: 51, b: 153 },
            stack: Rgb { r: 0, g: 165, b: 66 },
            floating: Rgb { r: 245, g: 245, b: 165 },
            flash: Flash::default(),
            radius_rules: NameMap::new(),
            last_window_appeared: 0,
        }
    }
}

/// Records that a window appeared at `now`. A window that has just opened is about to be
/// given focus, and anything that would pull focus elsewhere has to stand down until then.
pub fn note_window_appeared(settings: &mut BorderSettings, now: u64)
    ensures
        final(settings).deep_view() == (BorderSettingsView {
            last_window_appeared: now,
            ..old(settings).deep_view()
        }),
{
    settings.last_window_appeared = now;
}

/// A window appeared recently enough that focus should be left alone.
pub open spec fn appeared_recently(settings: BorderSettingsView, now: u64) -> bool {
    now < settings.last_window_appeared + WINDOW_APPEARANCE_GRACE_MS
}

/// Whether a window appeared recently enough that focus should be left alone.
pub fn window_appeared_recently(settings: &BorderSettings, now: u64) -> (recently: bool)
    ensures
        recently == appeared_recently(settings.deep_view(), now),
{
    now.saturating_sub(settings.last_window_appeared) < WINDOW_APPEARANCE_GRACE_MS
}

/// From the moment a window appears, focus is left alone for the whole grace period and not
/// a millisecond longer, even if the clock is set back meanwhile.
pub proof fn law_a_new_window_keeps_the_focus(settings: BorderSettingsView, then: u64, now: u64)
    ensures
        now < then + WINDOW_APPEARANCE_GRACE_MS <==> appeared_recently(
            BorderSettingsView { last_window_appeared: then, ..settings },
            now,
        ),
{
}

/// Sets the focus animation style, from config load or reload.
pub fn set_flash_style(settings: &mut BorderSettings, style: FlashStyle)
    ensures
        final(settings).deep_view() == (BorderSettingsView {
            flash: FlashView { style, ..old(settings).deep_view().flash },
            ..old(settings).deep_view()
        }),
{
    settings.flash.style = style;
}

/// The focus animation style currently in force.
pub fn flash_style(settings: &BorderSettings) -> (style: FlashStyle)
    ensures
        style == settings.deep_view().flash.style,
{
    settings.flash.style
}

/// Replaces the per-application radius overrides, from config load or reload.
pub fn set_border_radius_rules(settings: &mut BorderSettings, rules: NameMap<i32>)
    ensures
        final(settings).deep_view() == (BorderSettingsView {
            radius_rules: rules@,
            ..old(settings).deep_view()
        }),
{
    settings.radius_rules = rules;
}

/// The corner radius that applies to an application.
pub open spec fn radius_of(settings: BorderSettingsView, application: Seq<char>) -> i32 {
    if settings.radius_rules.contains_key(application) {
        settings.radius_rules[application]
    } else {
        settings.radius
    }
}

/// The corner radius to draw for a window belonging to this application. Falls back to the
/// global radius, which is right for anything using the system window frame.
pub fn border_radius_for(settings: &BorderSettings, application: &str) -> (radius: i32)
    ensures
        radius == radius_of(settings.deep_view(), application@),
{
    match settings.radius_rules.get(application) {
        Some(radius) => *radius,
        None => settings.radius,
    }
}

/// The colour that a kind of window is framed in.
pub open spec fn colour_of(settings: BorderSettingsView, kind: WindowKind) -> Rgb {
    match kind {
        WindowKind::Unfocused => settings.unfocused,
        WindowKind::UnfocusedLocked => settings.unfocused_locked,
        WindowKind::Single => settings.focused,
        WindowKind::Stack => settings.stack,
        WindowKind::Monocle => settings.monocle,
        WindowKind::Floating => settings.floating,
    }
}

/// The colour that a kind of window is framed in.
pub fn window_kind_colour(settings: &BorderSettings, kind: WindowKind) -> (colour: Rgb)
    ensures
        colour == colour_of(settings.deep_view(), kind),
{
    match kind {
        WindowKind::Unfocused => settings.unfocused,
        WindowKind::UnfocusedLocked => settings.unfocused_locked,
        WindowKind::Single => settings.focused,
        WindowKind::Stack => settings.stack,
        WindowKind::Monocle => settings.monocle,
        WindowKind::Floating => settings.floating,
    }
}

/// The settings with one kind of window framed in another colour.
pub open spec fn with_colour(
    settings: BorderSettingsView,
    kind: WindowKind,
    colour: Rgb,
) -> BorderSettingsView {
    match kind {
        WindowKind::Unfocused => BorderSettingsView { unfocused: colour, ..settings },
        WindowKind::UnfocusedLocked => BorderSettingsView { unfocused_locked: colour, ..settings },
        WindowKind::Single => BorderSettingsView { focused: colour, ..settings },
        WindowKind::Stack => BorderSettingsView { stack: colour, ..settings },
        WindowKind::Monocle => BorderSettingsView { monocle: colour, ..settings },
        WindowKind::Floating => BorderSettingsView { floating: colour, ..settings },
    }
}

impl BorderSettings {
    /// Frames one kind of window in another colour.
    pub fn set_colour(&mut self, kind: WindowKind, colour: Rgb)
        ensures
            final(self).deep_view() == with_colour(old(self).deep_view(), kind, colour),
    {
        match kind {
            WindowKind::Unfocused => {
                self.unfocused = colour;
            },
            WindowKind::UnfocusedLocked => {
                self.unfocused_locked = colour;
            },
            WindowKind::Single => {
                self.focused = colour;
            },
            WindowKind::Stack => {
                self.stack = colour;
            },
            WindowKind::Monocle => {
                self.monocle = colour;
            },
            WindowKind::Floating => {
                self.floating = colour;
            },
        }
    }
}

/// A word to the border manager that something may have changed.
#[derive(Clone, Copy, Debug, PartialEq, Eq, Structural)]
pub enum Notification {
    /// The borders may have to be updated: the window that this is about, and whether the word
    /// comes from reaping windows that have gone.
    Update(Option<u32>, bool),
    /// The borders have to be updated.
    ForceUpdate,
}

/// The border that a window has.
#[derive(Debug)]
pub struct BorderInfo {
    pub border_id: String,
    pub window_kind: WindowKind,
}

/// The value of a [`BorderInfo`].
pub struct BorderInfoView {
    pub border_id: Seq<char>,
    pub window_kind: WindowKind,
}

impl DeepView for BorderInfo {
    type V = BorderInfoView;

    open spec fn deep_view(&self) -> BorderInfoView {
        BorderInfoView { border_id: self.border_id@, window_kind: self.window_kind }
    }
}

/// The border that a window has, if it has one.
pub open spec fn border_of(borders: BordersView, window_id: u32) -> Option<BorderInfoView> {
    if borders.windows.contains_key(window_id) && borders.state.contains_key(
        borders.windows[window_id],
    ) {
        let border_id = borders.windows[window_id];
        Some(BorderInfoView { border_id, window_kind: borders.state[border_id].window_kind })
    } else {
        None
    }
}

/// The border that a window has, if it has one.
pub fn window_border(borders: &Borders, window_id: u32) -> (info: Option<BorderInfo>)
    ensures
        info.deep_view() == border_of(borders@, window_id),
{
    broadcast use vstd::std_specs::hash::group_hash_axioms;

    match borders.windows.get(&window_id) {
        Some(id) => match borders.state.get(id.as_str()) {
            Some(border) => Some(
                BorderInfo { border_id: id.clone(), window_kind: border.window_kind },
            ),
            None => None,
        },
        None => None,
    }
}

/// Forgets every border, and says which there were, so that they can be taken off the screen.
pub fn destroy_all_borders(borders: &mut Borders) -> (ids: Vec<String>)
    ensures
        final(borders)@ == (BordersView { state: Map::empty(), windows: Map::empty() }),
        forall|id: Seq<char>| #[trigger]
            ids.deep_view().contains(id) == old(borders)@.state.contains_key(id),
{
    borders.drain()
}

/// No window has a border once all of them have been destroyed.
pub proof fn law_destroying_all_borders_leaves_none(window_id: u32)
    ensures
        border_of(BordersView { state: Map::empty(), windows: Map::empty() }, window_id) is None,
{
}

/// A colour given to one kind of window is the one it is framed in, and no other kind
/// changes.
pub proof fn law_colours_are_kept_apart(
    settings: BorderSettingsView,
    kind: WindowKind,
    other: WindowKind,
    colour: Rgb,
)
    ensures
        colour_of(with_colour(settings, kind, colour), kind) == colour,
        other != kind ==> colour_of(with_colour(settings, kind, colour), other) == colour_of(
            settings,
            other,
        ),
{
}

} // verus!
