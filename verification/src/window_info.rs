//! What is told of windows: by the window server, to subscribers, and in the log.

use crate::geometry::Rect;
use crate::geometry::WindowHidingPosition;
use crate::placement;
use crate::session;
use crate::settings::WindowAttributes;
use crate::settings::WindowAttributesView;
use crate::text;
use crate::window::WindowMemory;
use crate::window::WindowMemoryView;
use crate::window_manager::Window;
use vstd::prelude::*;

verus! {

/// What the window server says of a window.
#[derive(Debug)]
pub struct WindowInfo {
    pub name: Option<String>,
    pub owner_pid: i32,
    pub owner_name: String,
    pub window_id: Option<u32>,
    /// Nothing can be seen of the window.
    pub is_transparent: bool,
    /// The window is at the very top of the screen, where the menu bar is.
    pub is_at_top: bool,
    /// The window has no height.
    pub is_flat: bool,
}

/// The value of a [`WindowInfo`].
pub struct WindowInfoView {
    pub name: Option<Seq<char>>,
    pub owner_pid: i32,
    pub owner_name: Seq<char>,
    pub window_id: Option<u32>,
    pub is_transparent: bool,
    pub is_at_top: bool,
    pub is_flat: bool,
}

impl DeepView for WindowInfo {
    type V = WindowInfoView;

    open spec fn deep_view(&self) -> WindowInfoView {
        WindowInfoView {
            name: self.name.deep_view(),
            owner_pid: self.owner_pid,
            owner_name: self.owner_name@,
            window_id: self.window_id,
            is_transparent: self.is_transparent,
            is_at_top: self.is_at_top,
            is_flat: self.is_flat,
        }
    }
}

/// A window that may be one to manage.
#[derive(Debug)]
pub struct ValidWindowInfo {
    pub name: String,
    pub owner_pid: i32,
    pub owner_name: String,
    pub window_id: u32,
}

/// The value of a [`ValidWindowInfo`].
pub struct ValidWindowInfoView {
    pub name: Seq<char>,
    pub owner_pid: i32,
    pub owner_name: Seq<char>,
    pub window_id: u32,
}

impl DeepView for ValidWindowInfo {
    type V = ValidWindowInfoView;

    open spec fn deep_view(&self) -> ValidWindowInfoView {
        ValidWindowInfoView {
            name: self.name@,
            owner_pid: self.owner_pid,
            owner_name: self.owner_name@,
            window_id: self.window_id,
        }
    }
}

/// What is known of a window that may be one to manage: it has a name and an id, and can be
/// seen.
pub open spec fn valid_info(info: WindowInfoView) -> Option<ValidWindowInfoView> {
    match (info.name, info.window_id) {
        (Some(name), Some(window_id)) => if name.len() > 0 && !info.is_transparent
            && !info.is_at_top && !info.is_flat {
            Some(
                ValidWindowInfoView {
                    name,
                    owner_pid: info.owner_pid,
                    owner_name: info.owner_name,
                    window_id,
                },
            )
        } else {
            None
        },
        _ => None,
    }
}

impl WindowInfo {
    /// The window, if it may be one to manage.
    pub fn validated(self) -> (valid: Option<ValidWindowInfo>)
        ensures
            valid.deep_view() == valid_info(self.deep_view()),
    {
        match (self.name, self.window_id) {
            (Some(name), Some(window_id)) => {
                let named: bool = !name.as_str().is_empty();
                if named && !self.is_transparent && !self.is_at_top && !self.is_flat {
                    Some(
                        ValidWindowInfo {
                            name,
                            owner_pid: self.owner_pid,
                            owner_name: self.owner_name,
                            window_id,
                        },
                    )
                } else {
                    None
                }
            },
            _ => None,
        }
    }
}

/// Who owns the first window from `from` on with this id.
pub open spec fn owner_of(infos: Seq<WindowInfoView>, window_id: u32, from: int) -> Option<Seq<char>>
    decreases infos.len() - from,
{
    if from < 0 || from >= infos.len() {
        None
    } else if infos[from].window_id == Some(window_id) {
        Some(infos[from].owner_name)
    } else {
        owner_of(infos, window_id, from + 1)
    }
}

/// Which application owns a window, from what the window server says of all windows.
pub fn window_owner_name(infos: &Vec<WindowInfo>, window_id: u32) -> (name: Option<String>)
    ensures
        name.deep_view() == owner_of(infos.deep_view(), window_id, 0),
{
    let mut i: usize = 0;
    while i < infos.len()
        invariant
            i <= infos.len(),
            owner_of(infos.deep_view(), window_id, 0) == owner_of(
                infos.deep_view(),
                window_id,
                i as int,
            ),
        decreases infos.len() - i,
    {
        assert(infos.deep_view()[i as int] == infos[i as int].deep_view());
        if let Some(id) = infos[i].window_id {
            if id == window_id {
                return Some(infos[i].owner_name.clone());
            }
        }
        i += 1;
    }
    None
}

/// What subscribers are told of a window.
#[derive(Debug)]
pub struct WindowDetails {
    pub title: String,
    pub exe: String,
    pub role: String,
    pub subrole: String,
    pub icon_path: String,
}

/// The value of [`WindowDetails`].
pub struct WindowDetailsView {
    pub title: Seq<char>,
    pub exe: Seq<char>,
    pub role: Seq<char>,
    pub subrole: Seq<char>,
    pub icon_path: Seq<char>,
}

impl DeepView for WindowDetails {
    type V = WindowDetailsView;

    open spec fn deep_view(&self) -> WindowDetailsView {
        WindowDetailsView {
            title: self.title@,
            exe: self.exe@,
            role: self.role@,
            subrole: self.subrole@,
            icon_path: self.icon_path@,
        }
    }
}

/// What subscribers are told of a window: what is missing reads as empty.
pub open spec fn details_of(
    attributes: WindowAttributesView,
    icon_path: Option<Seq<char>>,
) -> WindowDetailsView {
    WindowDetailsView {
        title: session::or_empty(attributes.title),
        exe: session::or_empty(attributes.exe),
        role: session::or_empty(attributes.role),
        subrole: session::or_empty(attributes.subrole),
        icon_path: session::or_empty(icon_path),
    }
}

impl WindowDetails {
    /// What subscribers are told of a window.
    pub fn of(attributes: &WindowAttributes, icon_path: &Option<String>) -> (details: Self)
        ensures
            details.deep_view() == details_of(attributes.deep_view(), icon_path.deep_view()),
    {
        WindowDetails {
            title: session::text_or_empty(&attributes.title),
            exe: session::text_or_empty(&attributes.exe),
            role: session::text_or_empty(&attributes.role),
            subrole: session::text_or_empty(&attributes.subrole),
            icon_path: session::text_or_empty(icon_path),
        }
    }
}

/// Where the icon of an application is, by what its bundle calls it.
pub open spec fn icon_path_of(bundle_path: Seq<char>, icon_name: Seq<char>) -> Seq<char> {
    let path = bundle_path + "/Contents/Resources/"@ + icon_name;
    if text::has_suffix(path, ".icns"@) {
        path
    } else {
        path + ".icns"@
    }
}

/// Where the icon of an application is, if there is one.
pub fn icon_path(bundle_path: &str, icon_name: &str) -> (path: String)
    ensures
        path@ == icon_path_of(bundle_path@, icon_name@),
{
    let mut path: String = bundle_path.to_owned();
    path.append("/Contents/Resources/");
    path.append(icon_name);
    if !text::ends_with(path.as_str(), ".icns") {
        path.append(".icns");
    }
    path
}

/// `, name: value`, where there is a value.
pub open spec fn labelled(label: Seq<char>, value: Option<Seq<char>>) -> Seq<char> {
    match value {
        Some(value) => label + value,
        None => Seq::empty(),
    }
}

/// What a window is called in the log.
pub open spec fn description(window: Window, attributes: WindowAttributesView) -> Seq<char> {
    "(window_id: "@ + text::decimal_digits(window.id as nat) + ", process_id: "@
        + text::signed_digits(window.process_id as int) + labelled(
        ", title: "@,
        attributes.title,
    ) + labelled(", exe: "@, attributes.exe) + labelled(", role: "@, attributes.role) + labelled(
        ", subrole: "@,
        attributes.subrole,
    ) + ")"@
}

fn append_labelled(text: &mut String, label: &str, value: &Option<String>)
    ensures
        final(text)@ == old(text)@ + labelled(label@, value.deep_view()),
{
    let ghost before = text@;
    if let Some(value) = value {
        text.append(label);
        text.append(value.as_str());
    }
    assert(text@ =~= before + labelled(label@, value.deep_view()));
}

/// What a window is called in the log.
pub fn describe(window: &Window, attributes: &WindowAttributes) -> (text: String)
    ensures
        text@ == description(*window, attributes.deep_view()),
{
    let mut text: String = "(window_id: ".to_owned();
    text.append(text::decimal(window.id as usize).as_str());
    text.append(", process_id: ");
    text.append(text::signed_decimal(window.process_id).as_str());
    append_labelled(&mut text, ", title: ", &attributes.title);
    append_labelled(&mut text, ", exe: ", &attributes.exe);
    append_labelled(&mut text, ", role: ", &attributes.role);
    append_labelled(&mut text, ", subrole: ", &attributes.subrole);
    text.append(")");
    text
}

/// A window that is not managed.
pub struct AdhocWindow;

impl AdhocWindow {
    /// The process that a window belongs to, where the number that was read is one.
    pub fn process_id(raw: i32) -> (process_id: Option<i32>)
        ensures
            process_id == if raw != 0 {
                Some(raw)
            } else {
                None
            },
    {
        if raw != 0 {
            Some(raw)
        } else {
            None
        }
    }

    /// Where a window goes back to, if it was hidden.
    pub fn restore(memory: &WindowMemory, id: u32) -> (rect: Option<Rect>)
        ensures
            rect == if memory@.restore_positions.contains_key(id) {
                Some(memory@.restore_positions[id])
            } else {
                None
            },
    {
        memory.restore_point(id)
    }
}

/// A window that is not managed goes back to where it was when it was hidden.
pub proof fn law_unmanaged_windows_come_back(
    memory: WindowMemoryView,
    id: u32,
    position: WindowHidingPosition,
    rect: Rect,
    display: Rect,
)
    requires
        !memory.restore_positions.contains_key(id),
    ensures
        ({
            let hidden = placement::unmanaged_hiding_started(
                memory,
                id,
                position,
                rect,
                Some(display),
            ).0;
            &&& hidden.restore_positions.contains_key(id)
            &&& hidden.restore_positions[id] == rect
        }),
{
}


/// A window is worth looking at exactly if it has an id and a name that is not empty, and is neither
/// transparent nor at the very top nor flat; what is known of it is then told as it is.
pub proof fn law_windows_that_can_be_seen_are_valid(info: WindowInfoView)
    ensures
        valid_info(info) is Some <==> {
            &&& info.window_id is Some
            &&& info.name is Some
            &&& info.name->0.len() > 0
            &&& !info.is_transparent
            &&& !info.is_at_top
            &&& !info.is_flat
        },
        valid_info(info) matches Some(valid) ==> {
            &&& valid.name == info.name->0
            &&& valid.window_id == info.window_id->0
            &&& valid.owner_pid == info.owner_pid
            &&& valid.owner_name == info.owner_name
        },
{
}

/// The owner of a window is that of the first entry with its id.
pub proof fn law_the_first_entry_tells_the_owner(
    infos: Seq<WindowInfoView>,
    window_id: u32,
    from: int,
)
    requires
        0 <= from,
    ensures
        match owner_of(infos, window_id, from) {
            Some(owner) => exists|i: int|
                {
                    &&& from <= i < infos.len()
                    &&& (#[trigger] infos[i]).window_id == Some(window_id)
                    &&& infos[i].owner_name == owner
                    &&& forall|j: int|
                        from <= j < i ==> (#[trigger] infos[j]).window_id != Some(window_id)
                },
            None => forall|i: int|
                from <= i < infos.len() ==> (#[trigger] infos[i]).window_id != Some(window_id),
        },
    decreases infos.len() - from,
{
    if from < infos.len() {
        if infos[from].window_id == Some(window_id) {
            let i = from;
            assert(infos[i].window_id == Some(window_id));
        } else {
            law_the_first_entry_tells_the_owner(infos, window_id, from + 1);
            if let Some(owner) = owner_of(infos, window_id, from + 1) {
                let i = choose|i: int|
                    {
                        &&& from + 1 <= i < infos.len()
                        &&& (#[trigger] infos[i]).window_id == Some(window_id)
                        &&& infos[i].owner_name == owner
                        &&& forall|j: int|
                            from + 1 <= j < i ==> (#[trigger] infos[j]).window_id != Some(
                                window_id,
                            )
                    };
                assert(infos[i].window_id == Some(window_id));
            }
        }
    }
}

/// What is not known of a window reads as empty, and what is known as it is.
pub proof fn law_missing_details_read_as_empty(
    attributes: WindowAttributesView,
    icon_path: Option<Seq<char>>,
)
    ensures
        ({
            let told = details_of(attributes, icon_path);
            &&& attributes.title is Some ==> told.title == attributes.title->0
            &&& attributes.title is None ==> told.title.len() == 0
            &&& attributes.exe is Some ==> told.exe == attributes.exe->0
            &&& attributes.exe is None ==> told.exe.len() == 0
            &&& attributes.role is Some ==> told.role == attributes.role->0
            &&& attributes.role is None ==> told.role.len() == 0
            &&& attributes.subrole is Some ==> told.subrole == attributes.subrole->0
            &&& attributes.subrole is None ==> told.subrole.len() == 0
            &&& icon_path is Some ==> told.icon_path == icon_path->0
            &&& icon_path is None ==> told.icon_path.len() == 0
        }),
{
}


/// The icon of an application is among the resources of its bundle, under its name with the ending of
/// icons, which is not put there twice.
pub proof fn law_icons_have_one_ending(bundle_path: Seq<char>, icon_name: Seq<char>)
    ensures
        ({
            let start = bundle_path + "/Contents/Resources/"@ + icon_name;
            let path = icon_path_of(bundle_path, icon_name);
            &&& text::has_suffix(path, ".icns"@)
            &&& path == start || path == start + ".icns"@
            &&& text::has_suffix(start, ".icns"@) ==> path == start
        }),
{
    let start = bundle_path + "/Contents/Resources/"@ + icon_name;
    let whole = start + ".icns"@;
    assert(whole.subrange(whole.len() - ".icns"@.len(), whole.len() as int) =~= ".icns"@);
}

} // verus!
