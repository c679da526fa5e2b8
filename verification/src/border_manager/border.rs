//! The borders there are, and what becomes of them when windows are framed.

use crate::border_manager;
use crate::border_manager::ns_window::FlashStyle;
use crate::border_manager::BorderSettings;
use crate::border_manager::BorderSettingsView;
use crate::border_manager::Rgb;
use crate::names::NameMap;
use crate::settings::WindowKind;
use crate::text;
use crate::window_manager;
use std::collections::HashMap;
use vstd::prelude::*;

verus! {

/// A border around a window.
#[derive(Debug)]
pub struct Border {
    /// The window that the border follows.
    pub tracking_window_id: u32,
    pub process_id: i32,
    pub monitor_idx: Option<usize>,
    pub window_kind: WindowKind,
    /// Which application this border frames, for looking up its corner radius.
    pub application_name: String,
}

impl Clone for Border {
    fn clone(&self) -> (copy: Self)
        ensures
            copy == *self,
    {
        Border {
            tracking_window_id: self.tracking_window_id,
            process_id: self.process_id,
            monitor_idx: self.monitor_idx,
            window_kind: self.window_kind,
            application_name: self.application_name.clone(),
        }
    }
}

/// What a border looks like while it is showing.
#[derive(Clone, Copy, Debug, PartialEq, Eq, Structural)]
pub struct BorderLook {
    pub colour: Rgb,
    pub width: i32,
    pub radius: i32,
    /// How the border flashes if it has just come up.
    pub flash: FlashStyle,
}

/// Only the focused window wears a border: a border cannot be put in between windows, so any
/// other would cover what is in front of it.
pub open spec fn shows_border(kind: WindowKind) -> bool {
    kind != WindowKind::Unfocused && kind != WindowKind::UnfocusedLocked
}

/// What a border looks like, if it is showing at all.
pub open spec fn look_of(settings: BorderSettingsView, border: Border) -> Option<BorderLook> {
    if shows_border(border.window_kind) {
        Some(
            BorderLook {
                colour: border_manager::colour_of(settings, border.window_kind),
                width: settings.width,
                radius: border_manager::radius_of(settings, border.application_name@),
                flash: settings.flash.style,
            },
        )
    } else {
        None
    }
}

impl Border {
    /// What the border looks like, if it is showing at all.
    pub fn update(&self, settings: &BorderSettings) -> (look: Option<BorderLook>)
        ensures
            look == look_of(settings.deep_view(), *self),
    {
        let showing: bool = match self.window_kind {
            WindowKind::Unfocused | WindowKind::UnfocusedLocked => false,
            _ => true,
        };
        if showing {
            Some(
                BorderLook {
                    colour: border_manager::window_kind_colour(settings, self.window_kind),
                    width: settings.width,
                    radius: border_manager::border_radius_for(
                        settings,
                        self.application_name.as_str(),
                    ),
                    flash: border_manager::flash_style(settings),
                },
            )
        } else {
            None
        }
    }
}

/// The borders there are, by id, and the border that every framed window has.
pub struct Borders {
    pub state: NameMap<Border>,
    pub windows: HashMap<u32, String>,
}

/// The value of [`Borders`].
#[verifier::ext_equal]
pub struct BordersView {
    pub state: Map<Seq<char>, Border>,
    pub windows: Map<u32, Seq<char>>,
}

impl View for Borders {
    type V = BordersView;

    open spec fn view(&self) -> BordersView {
        BordersView {
            state: self.state@,
            windows: self.windows@.map_values(|id: String| id@),
        }
    }
}

/// A window that is to be framed.
#[derive(Debug)]
pub struct Frame {
    pub monitor_idx: usize,
    /// The id of the border.
    pub id: String,
    pub window_id: u32,
    pub process_id: i32,
    pub kind: WindowKind,
    /// The window is given the focus first, because nothing has it.
    pub refocus: bool,
    /// For a floating window, which round of framing floating windows it belongs to.
    pub floating: Option<usize>,
}

/// The value of a [`Frame`].
pub struct FrameView {
    pub monitor_idx: usize,
    pub id: Seq<char>,
    pub window_id: u32,
    pub process_id: i32,
    pub kind: WindowKind,
    pub refocus: bool,
    pub floating: Option<usize>,
}

impl DeepView for Frame {
    type V = FrameView;

    open spec fn deep_view(&self) -> FrameView {
        FrameView {
            monitor_idx: self.monitor_idx,
            id: self.id@,
            window_id: self.window_id,
            process_id: self.process_id,
            kind: self.kind,
            refocus: self.refocus,
            floating: self.floating,
        }
    }
}

/// Which borders stay when the others on a monitor are removed.
#[derive(Debug)]
pub struct Keep {
    /// The ids of borders that stay.
    pub ids: Vec<String>,
    /// Windows whose borders stay.
    pub windows: Vec<u32>,
}

/// The value of a [`Keep`].
#[verifier::ext_equal]
pub struct KeepView {
    pub ids: Seq<Seq<char>>,
    pub windows: Seq<u32>,
}

impl DeepView for Keep {
    type V = KeepView;

    open spec fn deep_view(&self) -> KeepView {
        KeepView { ids: self.ids.deep_view(), windows: self.windows@ }
    }
}

/// What is left to do on the screen once a window has been framed.
#[derive(Clone, Copy, Debug, PartialEq, Eq, Structural)]
pub enum Framed {
    /// The border was missing and could not be made.
    Refused,
    /// The border is there and has to be redrawn; where `retrack` holds it follows the window
    /// anew, which is of the same process.
    Redraw { retrack: bool },
}

/// The border that a window is framed with: the one there is, or else a new one, if it could
/// be made, for the application whose name was given.
pub open spec fn border_for(
    borders: BordersView,
    frame: FrameView,
    made: Option<String>,
) -> Option<Border> {
    if borders.state.contains_key(frame.id) {
        Some(borders.state[frame.id])
    } else {
        match made {
            Some(application_name) => Some(
                Border {
                    tracking_window_id: frame.window_id,
                    process_id: frame.process_id,
                    monitor_idx: Some(frame.monitor_idx),
                    window_kind: WindowKind::Unfocused,
                    application_name,
                },
            ),
            None => None,
        }
    }
}

/// The border goes over to another window. The border of a floating window never does.
pub open spec fn changes_window(border: Border, frame: FrameView) -> bool {
    frame.floating is None && border.tracking_window_id != frame.window_id
}

/// The borders after a window has been framed. The window that the border went over from is
/// only forgotten if no other border frames it by now.
pub open spec fn framed_with(borders: BordersView, frame: FrameView, border: Border) -> BordersView {
    let moves = changes_window(border, frame);
    let left = if moves && borders.windows.contains_key(border.tracking_window_id)
        && borders.windows[border.tracking_window_id] == frame.id {
        borders.windows.remove(border.tracking_window_id)
    } else {
        borders.windows
    };
    BordersView {
        state: borders.state.insert(
            frame.id,
            Border {
                tracking_window_id: if moves {
                    frame.window_id
                } else {
                    border.tracking_window_id
                },
                monitor_idx: Some(frame.monitor_idx),
                window_kind: frame.kind,
                ..border
            },
        ),
        windows: left.insert(frame.window_id, frame.id),
    }
}

/// What framing a window comes to.
pub open spec fn framing(borders: BordersView, frame: FrameView, made: Option<String>) -> (
    BordersView,
    Framed,
) {
    match border_for(borders, frame, made) {
        Some(border) => (
            framed_with(borders, frame, border),
            Framed::Redraw {
                retrack: changes_window(border, frame) && frame.process_id == border.process_id,
            },
        ),
        None => (borders, Framed::Refused),
    }
}

/// A border on this monitor that does not stay.
pub open spec fn doomed(borders: BordersView, monitor_idx: usize, keep: KeepView, id: Seq<char>) -> bool {
    &&& borders.state.contains_key(id)
    &&& borders.state[id].monitor_idx == Some(monitor_idx)
    &&& !keep.ids.contains(id)
    &&& !keep.windows.contains(borders.state[id].tracking_window_id)
}

/// The window has a border that does not stay.
pub open spec fn loses_border(
    borders: BordersView,
    monitor_idx: usize,
    keep: KeepView,
    window_id: u32,
) -> bool {
    exists|id: Seq<char>| #[trigger]
        doomed(borders, monitor_idx, keep, id) && borders.state[id].tracking_window_id == window_id
}

/// The borders without those on a monitor that do not stay.
pub open spec fn cleared(borders: BordersView, monitor_idx: usize, keep: KeepView) -> BordersView {
    BordersView {
        state: Map::new(
            |id: Seq<char>|
                borders.state.contains_key(id) && !doomed(borders, monitor_idx, keep, id),
            |id: Seq<char>| borders.state[id],
        ),
        windows: Map::new(
            |window_id: u32|
                borders.windows.contains_key(window_id) && !loses_border(
                    borders,
                    monitor_idx,
                    keep,
                    window_id,
                ),
            |window_id: u32| borders.windows[window_id],
        ),
    }
}

impl Borders {
    /// No borders.
    pub fn new() -> (none: Self)
        ensures
            none@ == (BordersView { state: Map::empty(), windows: Map::empty() }),
    {
        let none = Borders { state: NameMap::new(), windows: HashMap::new() };
        assert(none@.windows =~= Map::<u32, Seq<char>>::empty());
        none
    }

    /// Frames a window, with a border that was just made if there was none. `made` holds the
    /// name of the application of that border.
    pub fn frame(&mut self, frame: &Frame, made: Option<String>) -> (framed: Framed)
        ensures
            (final(self)@, framed) == framing(old(self)@, frame.deep_view(), made),
    {
        broadcast use vstd::std_specs::hash::group_hash_axioms;

        let ghost before = self@;
        let border: Border = match self.state.get(frame.id.as_str()) {
            Some(border) => border.clone(),
            None => match made {
                Some(application_name) => Border {
                    tracking_window_id: frame.window_id,
                    process_id: frame.process_id,
                    monitor_idx: Some(frame.monitor_idx),
                    window_kind: WindowKind::Unfocused,
                    application_name,
                },
                None => {
                    return Framed::Refused;
                },
            },
        };
        let moves: bool = frame.floating.is_none() && border.tracking_window_id != frame.window_id;
        let retrack: bool = moves && frame.process_id == border.process_id;
        if moves {
            self.forget_window(border.tracking_window_id, frame.id.as_str());
        }
        let ghost left = self@.windows;
        let tracking_window_id: u32 = if moves {
            frame.window_id
        } else {
            border.tracking_window_id
        };
        self.state.insert(
            frame.id.clone(),
            Border {
                tracking_window_id,
                process_id: border.process_id,
                monitor_idx: Some(frame.monitor_idx),
                window_kind: frame.kind,
                application_name: border.application_name,
            },
        );
        self.windows.insert(frame.window_id, frame.id.clone());
        assert(self@.windows =~= left.insert(frame.window_id, frame.id@));
        Framed::Redraw { retrack }
    }

    fn forget_window(&mut self, window_id: u32, id: &str)
        ensures
            final(self)@ == (BordersView {
                windows: if old(self)@.windows.contains_key(window_id)
                    && old(self)@.windows[window_id] == id@ {
                    old(self)@.windows.remove(window_id)
                } else {
                    old(self)@.windows
                },
                ..old(self)@
            }),
    {
        broadcast use vstd::std_specs::hash::group_hash_axioms;

        let ghost before = self@;
        let same: bool = match self.windows.get(&window_id) {
            Some(previous) => text::same_text(previous.as_str(), id),
            None => false,
        };
        if same {
            self.windows.remove(&window_id);
            assert(self@.windows =~= before.windows.remove(window_id));
        }
    }

    fn find_doomed(&self, monitor_idx: usize, keep: &Keep) -> (ids: Vec<String>)
        ensures
            ids.deep_view().no_duplicates(),
            forall|id: Seq<char>|
                #![trigger doomed(self@, monitor_idx, keep.deep_view(), id)]
                #![trigger ids.deep_view().contains(id)]
                doomed(self@, monitor_idx, keep.deep_view(), id) == ids.deep_view().contains(id),
    {
        let mut ids: Vec<String> = Vec::new();
        let mut i: usize = 0;
        while i < self.state.len()
            invariant
                i <= self.state.listed().len(),
                ids.deep_view().no_duplicates(),
                forall|k: int|
                    0 <= k < ids.len() ==> doomed(
                        self@,
                        monitor_idx,
                        keep.deep_view(),
                        #[trigger] ids.deep_view()[k],
                    ),
                forall|k: int|
                    #![trigger self.state.listed()[k]]
                    0 <= k < i && doomed(
                        self@,
                        monitor_idx,
                        keep.deep_view(),
                        self.state.listed()[k].0@,
                    ) ==> ids.deep_view().contains(self.state.listed()[k].0@),
            decreases self.state.listed().len() - i,
        {
            let name: &String = &self.state.entry(i).0;
            let ghost before = ids.deep_view();
            let is_doomed: bool = match self.state.get(name.as_str()) {
                Some(border) => {
                    let here: bool = match border.monitor_idx {
                        Some(idx) => idx == monitor_idx,
                        None => false,
                    };
                    here && !text::list_contains(&keep.ids, name.as_str())
                        && !window_manager::lists_id(&keep.windows, border.tracking_window_id)
                },
                None => false,
            };
            assert(is_doomed == doomed(self@, monitor_idx, keep.deep_view(), name@));
            if is_doomed && !text::list_contains(&ids, name.as_str()) {
                ids.push(name.clone());
                assert(ids.deep_view() =~= before.push(name@));
                assert(ids.deep_view()[before.len() as int] == name@);
                assert forall|id: Seq<char>| before.contains(id) implies ids.deep_view().contains(
                    id,
                ) by {
                    let k = choose|k: int| 0 <= k < before.len() && before[k] == id;
                    assert(ids.deep_view()[k] == id);
                }
            }
            i += 1;
        }
        assert forall|id: Seq<char>|
            #![trigger doomed(self@, monitor_idx, keep.deep_view(), id)]
            #![trigger ids.deep_view().contains(id)]
            doomed(self@, monitor_idx, keep.deep_view(), id) == ids.deep_view().contains(id) by {
            self.state.lemma_listed(id);
            if doomed(self@, monitor_idx, keep.deep_view(), id) {
                let k = choose|k: int|
                    0 <= k < self.state.listed().len() && (#[trigger] self.state.listed()[k]).0@
                        == id;
                assert(doomed(self@, monitor_idx, keep.deep_view(), self.state.listed()[k].0@));
            }
        }
        ids
    }

    fn remove_border(&mut self, id: &str)
        ensures
            final(self)@ == if old(self)@.state.contains_key(id@) {
                BordersView {
                    state: old(self)@.state.remove(id@),
                    windows: old(self)@.windows.remove(
                        old(self)@.state[id@].tracking_window_id,
                    ),
                }
            } else {
                old(self)@
            },
    {
        broadcast use vstd::std_specs::hash::group_hash_axioms;

        let ghost before = self@;
        if let Some(border) = self.state.get(id) {
            let window_id: u32 = border.tracking_window_id;
            self.windows.remove(&window_id);
            self.state.remove(id);
            assert(self@.windows =~= before.windows.remove(window_id));
        }
    }

    /// Removes the borders on a monitor that do not stay, and says which they were.
    pub fn remove_borders(&mut self, monitor_idx: usize, keep: &Keep) -> (removed: Vec<String>)
        ensures
            final(self)@ == cleared(old(self)@, monitor_idx, keep.deep_view()),
            removed.deep_view().no_duplicates(),
            forall|id: Seq<char>| #[trigger]
                removed.deep_view().contains(id) == doomed(
                    old(self)@,
                    monitor_idx,
                    keep.deep_view(),
                    id,
                ),
    {
        let ghost before = self@;
        let ids = self.find_doomed(monitor_idx, keep);
        let ghost gone = ids.deep_view();
        assert forall|k: int| 0 <= k < gone.len() implies before.state.contains_key(
            #[trigger] gone[k],
        ) by {
            assert(gone.contains(gone[k]));
        }
        let mut i: usize = 0;
        while i < ids.len()
            invariant
                i <= ids.len(),
                gone == ids.deep_view(),
                gone.no_duplicates(),
                forall|k: int|
                    0 <= k < gone.len() ==> before.state.contains_key(#[trigger] gone[k]),
                forall|id: Seq<char>| #[trigger]
                    self@.state.contains_key(id) == (before.state.contains_key(id) && !gone.take(
                        i as int,
                    ).contains(id)),
                forall|id: Seq<char>| #[trigger]
                    self@.state.contains_key(id) ==> self@.state[id] == before.state[id],
                forall|window_id: u32| #[trigger]
                    self@.windows.contains_key(window_id) == (before.windows.contains_key(
                        window_id,
                    ) && !lost(before, gone.take(i as int), window_id)),
                forall|window_id: u32| #[trigger]
                    self@.windows.contains_key(window_id) ==> self@.windows[window_id]
                        == before.windows[window_id],
            decreases ids.len() - i,
        {
            let ghost earlier = gone.take(i as int);
            let ghost later = gone.take(i + 1);
            assert(gone[i as int] == ids[i as int]@);
            assert(later =~= earlier.push(gone[i as int]));
            assert(!earlier.contains(gone[i as int]));
            assert(self@.state.contains_key(gone[i as int]));
            let ghost now = self@;
            self.remove_border(ids[i].as_str());
            proof {
                let id = gone[i as int];
                assert forall|other: Seq<char>| #[trigger]
                    self@.state.contains_key(other) == (before.state.contains_key(other)
                        && !later.contains(other)) by {
                    lemma_push_contains(earlier, id, other);
                    assert(now.state.contains_key(other) == (before.state.contains_key(other)
                        && !earlier.contains(other)));
                }
                assert forall|window_id: u32| #[trigger]
                    self@.windows.contains_key(window_id) == (before.windows.contains_key(
                        window_id,
                    ) && !lost(before, later, window_id)) by {
                    assert(now.windows.contains_key(window_id) == (before.windows.contains_key(
                        window_id,
                    ) && !lost(before, earlier, window_id)));
                    lemma_push_lost(before, earlier, id, window_id);
                }
            }
            i += 1;
        }
        proof {
            assert(gone.take(gone.len() as int) =~= gone);
            let after = cleared(before, monitor_idx, keep.deep_view());
            assert(self@.state =~= after.state);
            assert forall|window_id: u32| lost(before, gone, window_id) == loses_border(
                before,
                monitor_idx,
                keep.deep_view(),
                window_id,
            ) by {
                if lost(before, gone, window_id) {
                    let k = choose|k: int|
                        0 <= k < gone.len() && before.state[#[trigger] gone[k]].tracking_window_id
                            == window_id;
                    assert(gone.contains(gone[k]));
                    assert(doomed(before, monitor_idx, keep.deep_view(), gone[k]));
                }
                if loses_border(before, monitor_idx, keep.deep_view(), window_id) {
                    let id = choose|id: Seq<char>| #[trigger]
                        doomed(before, monitor_idx, keep.deep_view(), id)
                            && before.state[id].tracking_window_id == window_id;
                    assert(gone.contains(id));
                    let k = choose|k: int| 0 <= k < gone.len() && gone[k] == id;
                    assert(before.state[gone[k]].tracking_window_id == window_id);
                }
            }
            assert(self@.windows =~= after.windows);
        }
        ids
    }

    /// Forgets every border, and says which there were.
    pub fn drain(&mut self) -> (ids: Vec<String>)
        ensures
            final(self)@ == (BordersView { state: Map::empty(), windows: Map::empty() }),
            forall|id: Seq<char>| #[trigger]
                ids.deep_view().contains(id) == old(self)@.state.contains_key(id),
    {
        let mut ids: Vec<String> = Vec::new();
        let mut i: usize = 0;
        while i < self.state.len()
            invariant
                i <= self.state.listed().len(),
                *self == *old(self),
                ids.len() == i,
                forall|k: int|
                    0 <= k < i ==> ids.deep_view()[k] == (#[trigger] self.state.listed()[k]).0@,
            decreases self.state.listed().len() - i,
        {
            let ghost before = ids.deep_view();
            ids.push(self.state.entry(i).0.clone());
            assert(ids.deep_view() =~= before.push(self.state.listed()[i as int].0@));
            i += 1;
        }
        assert forall|id: Seq<char>| #[trigger]
            ids.deep_view().contains(id) == self@.state.contains_key(id) by {
            self.state.lemma_listed(id);
            if ids.deep_view().contains(id) {
                let k = choose|k: int| 0 <= k < ids.len() && ids.deep_view()[k] == id;
                assert(self.state.listed()[k].0@ == id);
            }
            if self@.state.contains_key(id) {
                let k = choose|k: int|
                    0 <= k < self.state.listed().len() && (#[trigger] self.state.listed()[k]).0@
                        == id;
                assert(ids.deep_view()[k] == id);
            }
        }
        *self = Borders::new();
        ids
    }
}

spec fn lost(borders: BordersView, ids: Seq<Seq<char>>, window_id: u32) -> bool {
    exists|k: int|
        0 <= k < ids.len() && borders.state[#[trigger] ids[k]].tracking_window_id == window_id
}

proof fn lemma_push_contains(ids: Seq<Seq<char>>, id: Seq<char>, other: Seq<char>)
    ensures
        ids.push(id).contains(other) == (ids.contains(other) || other == id),
{
    if ids.contains(other) {
        let k = choose|k: int| 0 <= k < ids.len() && ids[k] == other;
        assert(ids.push(id)[k] == other);
    }
    if other == id {
        assert(ids.push(id)[ids.len() as int] == other);
    }
}

proof fn lemma_push_lost(borders: BordersView, ids: Seq<Seq<char>>, id: Seq<char>, window_id: u32)
    ensures
        lost(borders, ids.push(id), window_id) == (lost(borders, ids, window_id)
            || borders.state[id].tracking_window_id == window_id),
{
    let more = ids.push(id);
    if lost(borders, ids, window_id) {
        let k = choose|k: int|
            0 <= k < ids.len() && borders.state[#[trigger] ids[k]].tracking_window_id == window_id;
        assert(borders.state[more[k]].tracking_window_id == window_id);
    }
    if borders.state[id].tracking_window_id == window_id {
        assert(borders.state[more[ids.len() as int]].tracking_window_id == window_id);
    }
    if lost(borders, more, window_id) {
        let k = choose|k: int|
            0 <= k < more.len() && borders.state[#[trigger] more[k]].tracking_window_id
                == window_id;
        if k < ids.len() {
            assert(borders.state[ids[k]].tracking_window_id == window_id);
        }
    }
}

} // verus!
