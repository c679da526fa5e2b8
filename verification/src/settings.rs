//! The choices a user can make, and the names they go by.

use vstd::prelude::*;

verus! {

/// A direction on the screen.
#[derive(Clone, Copy, Debug, PartialEq, Eq, Structural)]
pub enum OperationDirection {
    Left,
    Right,
    Up,
    Down,
}

/// A direction in a list that wraps around at both ends.
#[derive(Clone, Copy, Debug, PartialEq, Eq, Structural)]
pub enum CycleDirection {
    Previous,
    Next,
}

/// The index after `idx`, or before it, in a list of `len`. An index that is not in the list
/// counts as just behind its end.
pub open spec fn cycled(direction: CycleDirection, idx: int, len: int) -> int {
    match direction {
        CycleDirection::Previous => if idx == 0 || idx >= len {
            len - 1
        } else {
            idx - 1
        },
        CycleDirection::Next => if idx >= len - 1 {
            0
        } else {
            idx + 1
        },
    }
}

impl CycleDirection {
    /// The index after `idx`, or before it, in a list of `len`.
    pub fn next_idx(self, idx: usize, len: usize) -> (next: usize)
        requires
            len > 0,
        ensures
            next == cycled(self, idx as int, len as int),
            next < len,
    {
        match self {
            CycleDirection::Previous => if idx == 0 || idx >= len {
                len - 1
            } else {
                idx - 1
            },
            CycleDirection::Next => if idx >= len - 1 {
                0
            } else {
                idx + 1
            },
        }
    }
}

/// Cycling forwards and backwards undo each other, and neither leaves the list.
pub proof fn law_cycling_is_undone_by_cycling_back(idx: int, len: int)
    requires
        0 <= idx < len,
    ensures
        0 <= cycled(CycleDirection::Next, idx, len) < len,
        0 <= cycled(CycleDirection::Previous, idx, len) < len,
        cycled(CycleDirection::Previous, cycled(CycleDirection::Next, idx, len), len) == idx,
        cycled(CycleDirection::Next, cycled(CycleDirection::Previous, idx, len), len) == idx,
{
}

/// One axis of the screen, or both.
#[derive(Clone, Copy, Debug, PartialEq, Eq, Structural)]
pub enum Axis {
    Horizontal,
    Vertical,
    HorizontalAndVertical,
}

/// Larger or smaller.
#[derive(Clone, Copy, Debug, PartialEq, Eq, Structural)]
pub enum Sizing {
    Increase,
    Decrease,
}

/// What becomes of a new window: a container of its own, or a place in the focused one.
#[derive(Clone, Copy, Debug, PartialEq, Eq, Structural)]
pub enum WindowContainerBehaviour {
    Create,
    Append,
}

/// The other of the two behaviours.
pub open spec fn other_container_behaviour(
    behaviour: WindowContainerBehaviour,
) -> WindowContainerBehaviour {
    match behaviour {
        WindowContainerBehaviour::Create => WindowContainerBehaviour::Append,
        WindowContainerBehaviour::Append => WindowContainerBehaviour::Create,
    }
}

impl WindowContainerBehaviour {
    /// The other of the two behaviours.
    pub fn toggled(self) -> (other: Self)
        ensures
            other == other_container_behaviour(self),
    {
        match self {
            WindowContainerBehaviour::Create => WindowContainerBehaviour::Append,
            WindowContainerBehaviour::Append => WindowContainerBehaviour::Create,
        }
    }
}

/// What moving a container across monitors does.
#[derive(Clone, Copy, Debug, PartialEq, Eq, Structural)]
pub enum MoveBehaviour {
    Swap,
    Insert,
    NoOp,
}

/// Swapping becomes inserting and the other way round; doing nothing stays.
pub open spec fn other_move_behaviour(behaviour: MoveBehaviour) -> MoveBehaviour {
    match behaviour {
        MoveBehaviour::Swap => MoveBehaviour::Insert,
        MoveBehaviour::Insert => MoveBehaviour::Swap,
        MoveBehaviour::NoOp => MoveBehaviour::NoOp,
    }
}

impl MoveBehaviour {
    /// Swapping becomes inserting and the other way round; doing nothing stays.
    pub fn toggled(self) -> (other: Self)
        ensures
            other == other_move_behaviour(self),
    {
        match self {
            MoveBehaviour::Swap => MoveBehaviour::Insert,
            MoveBehaviour::Insert => MoveBehaviour::Swap,
            MoveBehaviour::NoOp => MoveBehaviour::NoOp,
        }
    }
}

/// What changing focus does while a container is in monocle mode.
#[derive(Clone, Copy, Debug, PartialEq, Eq, Structural)]
pub enum MonocleFocusBehaviour {
    Cycle,
    NoOp,
}

/// The other of the two behaviours.
pub open spec fn other_monocle_behaviour(behaviour: MonocleFocusBehaviour) -> MonocleFocusBehaviour {
    match behaviour {
        MonocleFocusBehaviour::Cycle => MonocleFocusBehaviour::NoOp,
        MonocleFocusBehaviour::NoOp => MonocleFocusBehaviour::Cycle,
    }
}

impl MonocleFocusBehaviour {
    /// The other of the two behaviours.
    pub fn toggled(self) -> (other: Self)
        ensures
            other == other_monocle_behaviour(self),
    {
        match self {
            MonocleFocusBehaviour::Cycle => MonocleFocusBehaviour::NoOp,
            MonocleFocusBehaviour::NoOp => MonocleFocusBehaviour::Cycle,
        }
    }
}

/// What commands do while an unmanaged window is in front.
#[derive(Clone, Copy, Debug, PartialEq, Eq, Structural)]
pub enum OperationBehaviour {
    Op,
    NoOp,
}

/// Which layer of a workspace commands act on.
#[derive(Clone, Copy, Debug, PartialEq, Eq, Structural)]
pub enum WorkspaceLayer {
    Tiling,
    Floating,
}

/// Where floating windows are put when they appear.
#[derive(Clone, Copy, Debug, PartialEq, Eq, Structural)]
pub enum Placement {
    /// Wherever the application put it.
    Unchanged,
    /// In the middle of the work area, at its own size.
    Center,
    /// In the middle of the work area, at the floating aspect ratio.
    CenterAndResize,
}

impl Placement {
    /// Whether the window is to be put in the middle.
    pub fn should_center(self) -> (center: bool)
        ensures
            center == (self != Placement::Unchanged),
    {
        match self {
            Placement::Unchanged => false,
            _ => true,
        }
    }

    /// Whether the window is to be given the floating aspect ratio.
    pub fn should_resize(self) -> (resize: bool)
        ensures
            resize == (self == Placement::CenterAndResize),
    {
        match self {
            Placement::CenterAndResize => true,
            _ => false,
        }
    }
}

/// How new windows are taken in.
#[derive(Clone, Copy, Debug, PartialEq, Eq, Structural)]
pub struct WindowManagementBehaviour {
    pub current_behaviour: WindowContainerBehaviour,
    pub float_override: bool,
    pub floating_layer_override: bool,
    pub floating_layer_placement: Placement,
    pub float_override_placement: Placement,
    pub float_rule_placement: Placement,
}

/// The placement that applies to a window that floats.
pub open spec fn float_placement(behaviour: WindowManagementBehaviour) -> Placement {
    if behaviour.floating_layer_override {
        behaviour.floating_layer_placement
    } else if behaviour.float_override {
        behaviour.float_override_placement
    } else {
        behaviour.float_rule_placement
    }
}

impl WindowManagementBehaviour {
    /// The placement that applies to a window that floats.
    pub fn placement(self) -> (placement: Placement)
        ensures
            placement == float_placement(self),
    {
        if self.floating_layer_override {
            self.floating_layer_placement
        } else if self.float_override {
            self.float_override_placement
        } else {
            self.float_rule_placement
        }
    }
}

/// What a window is to the border around it.
#[derive(Clone, Copy, Debug, PartialEq, Eq, Structural)]
pub enum WindowKind {
    Single,
    Stack,
    Monocle,
    Unfocused,
    UnfocusedLocked,
    Floating,
}

/// How the containers of a workspace are laid out.
#[derive(Clone, Copy, Debug, PartialEq, Eq, Structural)]
pub enum DefaultLayout {
    BSP,
    Columns,
    Rows,
    VerticalStack,
    HorizontalStack,
    UltrawideVerticalStack,
    Grid,
    RightMainVerticalStack,
    Scrolling,
}

/// The name a layout goes by.
pub open spec fn layout_name(layout: DefaultLayout) -> Seq<char> {
    match layout {
        DefaultLayout::BSP => "BSP"@,
        DefaultLayout::Columns => "Columns"@,
        DefaultLayout::Rows => "Rows"@,
        DefaultLayout::VerticalStack => "VerticalStack"@,
        DefaultLayout::HorizontalStack => "HorizontalStack"@,
        DefaultLayout::UltrawideVerticalStack => "UltrawideVerticalStack"@,
        DefaultLayout::Grid => "Grid"@,
        DefaultLayout::RightMainVerticalStack => "RightMainVerticalStack"@,
        DefaultLayout::Scrolling => "Scrolling"@,
    }
}

impl DefaultLayout {
    /// The name the layout goes by.
    pub fn name(self) -> (name: String)
        ensures
            name@ == layout_name(self),
    {
        match self {
            DefaultLayout::BSP => "BSP".to_owned(),
            DefaultLayout::Columns => "Columns".to_owned(),
            DefaultLayout::Rows => "Rows".to_owned(),
            DefaultLayout::VerticalStack => "VerticalStack".to_owned(),
            DefaultLayout::HorizontalStack => "HorizontalStack".to_owned(),
            DefaultLayout::UltrawideVerticalStack => "UltrawideVerticalStack".to_owned(),
            DefaultLayout::Grid => "Grid".to_owned(),
            DefaultLayout::RightMainVerticalStack => "RightMainVerticalStack".to_owned(),
            DefaultLayout::Scrolling => "Scrolling".to_owned(),
        }
    }
}

/// Options of the scrolling layout.
#[derive(Clone, Copy, Debug, PartialEq, Eq, Structural)]
pub struct ScrollingLayoutOptions {
    pub columns: usize,
    pub center_focused_column: Option<bool>,
}

/// Options of a layout that are whole numbers. Ratios of columns and rows are kept beside
/// them by whoever computes the layout.
#[derive(Clone, Copy, Debug, PartialEq, Eq, Structural)]
pub struct LayoutOptions {
    pub scrolling: Option<ScrollingLayoutOptions>,
}

/// Layout options with the number of scrolling columns set. Options that say nothing of
/// scrolling are left as they are.
pub open spec fn with_columns(options: Option<LayoutOptions>, columns: usize) -> LayoutOptions {
    match options {
        Some(options) => match options.scrolling {
            Some(scrolling) => LayoutOptions {
                scrolling: Some(ScrollingLayoutOptions { columns, ..scrolling }),
                ..options
            },
            None => options,
        },
        None => LayoutOptions {
            scrolling: Some(ScrollingLayoutOptions { columns, center_focused_column: None }),
        },
    }
}

/// Layout options with the number of scrolling columns set.
pub fn set_columns(options: Option<LayoutOptions>, columns: usize) -> (set: LayoutOptions)
    ensures
        set == with_columns(options, columns),
{
    match options {
        Some(options) => match options.scrolling {
            Some(scrolling) => LayoutOptions {
                scrolling: Some(
                    ScrollingLayoutOptions {
                        columns,
                        center_focused_column: scrolling.center_focused_column,
                    },
                ),
            },
            None => options,
        },
        None => LayoutOptions {
            scrolling: Some(ScrollingLayoutOptions { columns, center_focused_column: None }),
        },
    }
}

/// What is being animated.
#[derive(Clone, Copy, Debug, PartialEq, Eq, Structural)]
pub enum AnimationPrefix {
    Movement,
    Transparency,
}

/// How an animation eases in and out, by its number in the list of styles.
#[derive(Clone, Copy, Debug, PartialEq, Eq, Structural)]
pub struct AnimationStyle {
    pub index: u32,
}

/// A setting with a global value and a value of its own for some animations.
#[derive(Clone, Copy, Debug, PartialEq, Eq, Structural)]
pub struct AnimationSetting<T> {
    pub global: T,
    pub movement: Option<T>,
    pub transparency: Option<T>,
}

/// The setting after a value was given for one kind of animation, or for all: a value for
/// all takes the place of every value of its own.
pub open spec fn animation_set<T>(
    setting: AnimationSetting<T>,
    value: T,
    prefix: Option<AnimationPrefix>,
) -> AnimationSetting<T> {
    match prefix {
        Some(AnimationPrefix::Movement) => AnimationSetting { movement: Some(value), ..setting },
        Some(AnimationPrefix::Transparency) => AnimationSetting {
            transparency: Some(value),
            ..setting
        },
        None => AnimationSetting { global: value, movement: None, transparency: None },
    }
}

/// The value that applies to one kind of animation.
pub open spec fn animation_value<T>(setting: AnimationSetting<T>, prefix: AnimationPrefix) -> T {
    let own = match prefix {
        AnimationPrefix::Movement => setting.movement,
        AnimationPrefix::Transparency => setting.transparency,
    };
    match own {
        Some(value) => value,
        None => setting.global,
    }
}

impl<T: Copy> AnimationSetting<T> {
    /// Gives a value to one kind of animation, or to all.
    pub fn set(self, value: T, prefix: Option<AnimationPrefix>) -> (setting: Self)
        ensures
            setting == animation_set(self, value, prefix),
    {
        match prefix {
            Some(AnimationPrefix::Movement) => AnimationSetting {
                global: self.global,
                movement: Some(value),
                transparency: self.transparency,
            },
            Some(AnimationPrefix::Transparency) => AnimationSetting {
                global: self.global,
                movement: self.movement,
                transparency: Some(value),
            },
            None => AnimationSetting { global: value, movement: None, transparency: None },
        }
    }

    /// The value that applies to one kind of animation.
    pub fn value(self, prefix: AnimationPrefix) -> (value: T)
        ensures
            value == animation_value(self, prefix),
    {
        let own = match prefix {
            AnimationPrefix::Movement => self.movement,
            AnimationPrefix::Transparency => self.transparency,
        };
        match own {
            Some(value) => value,
            None => self.global,
        }
    }
}

/// A value given for all animations applies to each of them; a value given for one applies
/// to that one and leaves the other as it was.
pub proof fn law_animation_values_apply<T>(
    setting: AnimationSetting<T>,
    value: T,
    prefix: AnimationPrefix,
    other: AnimationPrefix,
)
    ensures
        animation_value(animation_set(setting, value, None), prefix) == value,
        animation_value(animation_set(setting, value, Some(prefix)), prefix) == value,
        other != prefix ==> animation_value(animation_set(setting, value, Some(prefix)), other)
            == animation_value(setting, other),
{
}

/// All the animation settings.
#[derive(Clone, Copy, Debug, PartialEq, Eq, Structural)]
pub struct AnimationSettings {
    pub enabled: AnimationSetting<bool>,
    pub duration: AnimationSetting<u64>,
    pub style: AnimationSetting<AnimationStyle>,
    pub fps: u64,
}

/// A question about the state, asked over the socket.
#[derive(Clone, Copy, Debug, PartialEq, Eq, Structural)]
pub enum StateQuery {
    FocusedMonitorIndex,
    FocusedWorkspaceIndex,
    FocusedContainerIndex,
    FocusedWindowIndex,
    FocusedWorkspaceName,
    FocusedWorkspaceLayout,
    FocusedContainerKind,
    Version,
}

/// What a subscriber asked for.
#[derive(Clone, Copy, Debug, PartialEq, Eq, Structural)]
pub struct SubscribeOptions {
    /// Only notify when the state has changed.
    pub filter_state_changes: bool,
}

/// The part of a workspace that a window was found in.
#[derive(Clone, Copy, Debug, PartialEq, Eq, Structural)]
pub enum WorkspaceWindowLocation {
    Monocle(usize),
    Maximized,
    Container(usize, usize),
    Floating(usize),
}

/// What an application's windows can be told by, as read when the question came up.
#[derive(Debug)]
pub struct WindowAttributes {
    pub title: Option<String>,
    pub exe: Option<String>,
    pub role: Option<String>,
    pub subrole: Option<String>,
    pub path: Option<String>,
}

/// The value of [`WindowAttributes`].
pub struct WindowAttributesView {
    pub title: Option<Seq<char>>,
    pub exe: Option<Seq<char>>,
    pub role: Option<Seq<char>>,
    pub subrole: Option<Seq<char>>,
    pub path: Option<Seq<char>>,
}

impl DeepView for WindowAttributes {
    type V = WindowAttributesView;

    open spec fn deep_view(&self) -> WindowAttributesView {
        WindowAttributesView {
            title: self.title.deep_view(),
            exe: self.exe.deep_view(),
            role: self.role.deep_view(),
            subrole: self.subrole.deep_view(),
            path: self.path.deep_view(),
        }
    }
}

/// Whether an attribute is there and reads exactly `text`; an attribute that is not there
/// reads as empty.
pub open spec fn reads(attribute: Option<Seq<char>>, text: Seq<char>) -> bool {
    match attribute {
        Some(found) => found == text,
        None => Seq::<char>::empty() == text,
    }
}

/// Whether an attribute reads exactly `text`.
pub fn attribute_reads(attribute: &Option<String>, text: &str) -> (same: bool)
    ensures
        same == reads(attribute.deep_view(), text@),
{
    match attribute {
        Some(found) => crate::text::same_text(found.as_str(), text),
        None => {
            let same = text.is_empty();
            assert(same == (Seq::<char>::empty() =~= text@));
            same
        },
    }
}

/// What a window can be told by, counting from `from`: nothing, where it is not listed.
pub open spec fn attributes_of(
    attributes: Seq<(u32, WindowAttributesView)>,
    id: u32,
    from: int,
) -> WindowAttributesView
    decreases attributes.len() - from,
{
    if from < 0 || from >= attributes.len() {
        WindowAttributesView { title: None, exe: None, role: None, subrole: None, path: None }
    } else if attributes[from].0 == id {
        attributes[from].1
    } else {
        attributes_of(attributes, id, from + 1)
    }
}

/// Where the attributes of a window stand in a list.
pub fn attributes_position(attributes: &Vec<(u32, WindowAttributes)>, id: u32) -> (at: Option<usize>)
    ensures
        match at {
            Some(i) => {
                &&& i < attributes.len()
                &&& attributes_of(attributes.deep_view(), id, 0)
                    == attributes[i as int].1.deep_view()
            },
            None => attributes_of(attributes.deep_view(), id, 0) == (WindowAttributesView {
                title: None,
                exe: None,
                role: None,
                subrole: None,
                path: None,
            }),
        },
{
    let mut i: usize = 0;
    while i < attributes.len()
        invariant
            i <= attributes.len(),
            attributes_of(attributes.deep_view(), id, 0) == attributes_of(
                attributes.deep_view(),
                id,
                i as int,
            ),
        decreases attributes.len() - i,
    {
        assert(attributes.deep_view()[i as int] == attributes[i as int].deep_view());
        if attributes[i].0 == id {
            return Some(i);
        }
        i += 1;
    }
    None
}

} // verus!
