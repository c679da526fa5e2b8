//! What subscribers are told of.

use crate::events::WindowManagerEvent;
use crate::message;
use crate::message::SocketMessage;
use crate::monitor_reconciliator::MonitorNotification;
use crate::subscriptions;
use crate::subscriptions::Subscriptions;
use vstd::prelude::*;

verus! {

/// What has happened.
#[derive(Debug)]
pub enum NotificationEvent {
    WindowManager(WindowManagerEvent),
    Socket(SocketMessage),
    Monitor(MonitorNotification),
}

/// Every subscriber is told of this, changed state or not.
pub open spec fn told_regardless(event: NotificationEvent) -> bool {
    match event {
        NotificationEvent::WindowManager(event) => event is Show,
        NotificationEvent::Socket(message) => message::told_to_everyone(message),
        NotificationEvent::Monitor(_) => true,
    }
}

impl NotificationEvent {
    /// Whether every subscriber is told of this, changed state or not.
    pub fn is_override_event(&self) -> (overrides: bool)
        ensures
            overrides == told_regardless(*self),
    {
        match self {
            NotificationEvent::WindowManager(event) => event.is_override_event(),
            NotificationEvent::Socket(message) => message.is_override_event(),
            NotificationEvent::Monitor(_) => true,
        }
    }

    /// The subscribers that are told of this.
    pub fn audience(&self, subscriptions: &Subscriptions, state_has_been_modified: bool) -> (told:
        Vec<String>)
        ensures
            told.deep_view().no_duplicates(),
            forall|socket: Seq<char>| #[trigger]
                told.deep_view().contains(socket) <==> subscriptions@.is_told(
                    socket,
                    told_regardless(*self),
                    state_has_been_modified,
                ),
    {
        subscriptions::notify_subscribers(
            subscriptions,
            self.is_override_event(),
            state_has_been_modified,
        )
    }
}


/// Subscribers that asked to be told of changes only are told all the same when a window appears, when
/// displays change, when someone subscribes, when the theme is sent and when the configuration is read
/// again; and of nothing else.
pub proof fn law_some_news_is_for_everyone(
    event: WindowManagerEvent,
    message: SocketMessage,
    notification: MonitorNotification,
)
    ensures
        told_regardless(NotificationEvent::WindowManager(event)) <==> event is Show,
        told_regardless(NotificationEvent::Monitor(notification)),
        told_regardless(NotificationEvent::Socket(message)) <==> (message is AddSubscriberSocket
            || message is AddSubscriberSocketWithOptions || message is Theme || message
            is ReloadStaticConfiguration),
{
}

} // verus!
