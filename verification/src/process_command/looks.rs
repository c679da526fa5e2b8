//! Commands that change how things look, and who is told about them.

use crate::border_manager;
use crate::border_manager::BorderSettingsView;
use crate::border_manager::Rgb;
use crate::message::SocketMessage;
use crate::operation::Operation;
use crate::process_command::plan;
use crate::process_command::plan::CommandPlan;
use crate::process_command::plan::CommandPlanView;
use crate::process_command::plan::CommandSight;
use crate::process_command::plan::CommandSightView;
use crate::process_command::rules;
use crate::settings;
use crate::settings::AnimationSettings;
use crate::settings::SubscribeOptions;
use crate::window_manager::WindowManager;
use crate::window_manager::WindowManagerView;
use vstd::prelude::*;

verus! {

/// What a command that changes how things look, or who is told about them, comes to.
pub open spec fn looks_effect(
    wm: WindowManagerView,
    message: SocketMessage,
    sight: CommandSightView,
) -> (WindowManagerView, CommandPlanView) {
    match message {
        SocketMessage::Border(enable) => (
            WindowManagerView {
                borders: BorderSettingsView { enabled: enable, ..wm.borders },
                ..wm
            },
            if enable {
                plan::plan_nothing()
            } else {
                plan::plan_of(seq![Operation::DestroyAllBorders])
            },
        ),
        SocketMessage::BorderColour(kind, r, g, b) => (
            WindowManagerView {
                borders: border_manager::with_colour(wm.borders, kind, Rgb { r, g, b }),
                ..wm
            },
            plan::plan_nothing(),
        ),
        SocketMessage::BorderWidth(width) => (
            WindowManagerView { borders: BorderSettingsView { width, ..wm.borders }, ..wm },
            plan::plan_of(seq![Operation::DestroyAllBorders]),
        ),
        SocketMessage::BorderOffset(offset) => (
            WindowManagerView { borders: BorderSettingsView { offset, ..wm.borders }, ..wm },
            plan::plan_of(seq![Operation::DestroyAllBorders]),
        ),
        SocketMessage::Animation(enable, prefix) => (
            WindowManagerView {
                animation: AnimationSettings {
                    enabled: settings::animation_set(wm.animation.enabled, enable, prefix),
                    ..wm.animation
                },
                ..wm
            },
            plan::plan_nothing(),
        ),
        SocketMessage::AnimationDuration(duration, prefix) => (
            WindowManagerView {
                animation: AnimationSettings {
                    duration: settings::animation_set(wm.animation.duration, duration, prefix),
                    ..wm.animation
                },
                ..wm
            },
            plan::plan_nothing(),
        ),
        SocketMessage::AnimationStyle(style, prefix) => (
            WindowManagerView {
                animation: AnimationSettings {
                    style: settings::animation_set(wm.animation.style, style, prefix),
                    ..wm.animation
                },
                ..wm
            },
            plan::plan_nothing(),
        ),
        SocketMessage::AnimationFps(fps) => (
            WindowManagerView { animation: AnimationSettings { fps, ..wm.animation }, ..wm },
            plan::plan_nothing(),
        ),
        SocketMessage::AddSubscriberSocket(socket) => (
            WindowManagerView {
                subscriptions: wm.subscriptions.subscribed(socket@, None),
                ..wm
            },
            plan::plan_nothing(),
        ),
        SocketMessage::AddSubscriberSocketWithOptions(socket, options) => (
            WindowManagerView {
                subscriptions: wm.subscriptions.subscribed(socket@, Some(options)),
                ..wm
            },
            plan::plan_nothing(),
        ),
        SocketMessage::RemoveSubscriberSocket(socket) => (
            WindowManagerView { subscriptions: wm.subscriptions.unsubscribed(socket@), ..wm },
            plan::plan_nothing(),
        ),
        _ => rules::rules_effect(wm, message, sight),
    }
}

impl WindowManager {
    fn enable_borders(&mut self, enable: bool) -> (plan: CommandPlan)
        ensures
            final(self).deep_view() == (WindowManagerView {
                borders: BorderSettingsView { enabled: enable, ..old(self).deep_view().borders },
                ..old(self).deep_view()
            }),
            plan.deep_view() == if enable {
                plan::plan_nothing()
            } else {
                plan::plan_of(seq![Operation::DestroyAllBorders])
            },
    {
        self.borders.enabled = enable;
        if enable {
            CommandPlan::nothing()
        } else {
            CommandPlan::single(Operation::DestroyAllBorders)
        }
    }

    fn subscribe(&mut self, socket: String, options: Option<SubscribeOptions>) -> (plan:
        CommandPlan)
        ensures
            plan.deep_view() == plan::plan_nothing(),
            final(self).deep_view() == (WindowManagerView {
                subscriptions: old(self).deep_view().subscriptions.subscribed(socket@, options),
                ..old(self).deep_view()
            }),
    {
        self.subscriptions.add(socket, options);
        CommandPlan::nothing()
    }

    /// Carries out a command that changes how things look, or who is told about them.
    pub fn looks_command(&mut self, message: SocketMessage, sight: &CommandSight) -> (plan:
        CommandPlan)
        ensures
            (final(self).deep_view(), plan.deep_view()) == looks_effect(
                old(self).deep_view(),
                message,
                sight.deep_view(),
            ),
    {
        match message {
            SocketMessage::Border(enable) => self.enable_borders(enable),
            SocketMessage::BorderColour(kind, r, g, b) => {
                self.borders.set_colour(kind, Rgb { r, g, b });
                CommandPlan::nothing()
            },
            SocketMessage::BorderWidth(width) => {
                self.borders.width = width;
                CommandPlan::single(Operation::DestroyAllBorders)
            },
            SocketMessage::BorderOffset(offset) => {
                self.borders.offset = offset;
                CommandPlan::single(Operation::DestroyAllBorders)
            },
            SocketMessage::Animation(enable, prefix) => {
                self.animation.enabled = self.animation.enabled.set(enable, prefix);
                CommandPlan::nothing()
            },
            SocketMessage::AnimationDuration(duration, prefix) => {
                self.animation.duration = self.animation.duration.set(duration, prefix);
                CommandPlan::nothing()
            },
            SocketMessage::AnimationStyle(style, prefix) => {
                self.animation.style = self.animation.style.set(style, prefix);
                CommandPlan::nothing()
            },
            SocketMessage::AnimationFps(fps) => {
                self.animation.fps = fps;
                CommandPlan::nothing()
            },
            SocketMessage::AddSubscriberSocket(socket) => self.subscribe(socket, None),
            SocketMessage::AddSubscriberSocketWithOptions(socket, options) => self.subscribe(
                socket,
                Some(options),
            ),
            SocketMessage::RemoveSubscriberSocket(socket) => {
                self.subscriptions.remove(socket.as_str());
                CommandPlan::nothing()
            },
            message => self.rules_command(message, sight),
        }
    }
}

} // verus!
