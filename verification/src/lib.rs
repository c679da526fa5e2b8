//! A tiling window manager for macOS: what it decides.
//!
//! Windows stand in containers, containers on workspaces, workspaces on monitors. This
//! library holds that state and everything that is decided from it: what a command or an
//! event changes ([`process_command`], [`process_event`]), which windows are managed
//! ([`eligibility`], [`rules`]), where windows are put and hidden ([`placement`],
//! [`geometry`]), which borders are drawn ([`border_manager`]), what happens when displays
//! come and go ([`monitor_reconciliator`]), and what is remembered between runs ([`session`],
//! [`min_size`]).
//!
//! The screen itself is left to the host. It says what it sees in plain values, and is told
//! what to do in plain values: mostly as a list of [`operation::Operation`], carried out in
//! order until one of them fails. Every function says in its contract exactly what it returns
//! and what it changes; the laws that hold across functions are the public proof functions
//! whose names begin with `law_`. Some modules hold nothing else: [`matching`] says what rules
//! come to, [`settling`] where windows end up, and beside the commands, the events, the displays
//! and the borders stand others that say what each of those comes to.

use vstd::prelude::*;

pub mod accessibility;
pub mod application;
pub mod border_manager;
pub mod eligibility;
pub mod events;
pub mod focus_follows_mouse;
pub mod geometry;
pub mod macos_api;
pub mod matching;
pub mod message;
pub mod min_size;
pub mod min_width;
pub mod monitor_reconciliator;
pub mod names;
pub mod notification;
pub mod operation;
pub mod permissions;
pub mod placement;
pub mod process_command;
pub mod process_event;
pub mod qos;
pub mod reaper;
pub mod rule_book;
pub mod rules;
pub mod sequences;
pub mod session;
pub mod settings;
pub mod settling;
pub mod skylight;
pub mod subscriptions;
pub mod text;
pub mod window;
pub mod window_info;
pub mod window_manager;

verus! {

/// What the licence server says of a subscription.
#[derive(Clone, Debug, Default, PartialEq)]
pub struct License {
    pub has_valid_subscription: bool,
    pub timestamp: i64,
    pub current_end_period: Option<i64>,
    pub signature: String,
}

} // verus!
