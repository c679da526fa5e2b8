//! Who is told about changes.

use crate::names::NameMap;
use crate::settings::SubscribeOptions;
use crate::text;
use vstd::prelude::*;

verus! {

/// The sockets that notifications are pushed to, and what each of them asked for.
pub struct Subscriptions {
    sockets: NameMap<()>,
    options: NameMap<SubscribeOptions>,
}

/// The value of [`Subscriptions`].
pub struct SubscriptionsView {
    pub sockets: Map<Seq<char>, ()>,
    pub options: Map<Seq<char>, SubscribeOptions>,
}

impl View for Subscriptions {
    type V = SubscriptionsView;

    closed spec fn view(&self) -> SubscriptionsView {
        SubscriptionsView { sockets: self.sockets@, options: self.options@ }
    }
}

impl SubscriptionsView {
    /// The socket asked not to be told when nothing has changed.
    pub open spec fn filters(self, socket: Seq<char>) -> bool {
        self.options.contains_key(socket) && self.options[socket].filter_state_changes
    }

    /// The socket is to be told.
    pub open spec fn is_told(
        self,
        socket: Seq<char>,
        is_override_event: bool,
        state_has_been_modified: bool,
    ) -> bool {
        self.sockets.contains_key(socket) && (!self.filters(socket) || state_has_been_modified
            || is_override_event)
    }

    /// A socket subscribed. Options that it asked for earlier still hold where it asks for
    /// none now.
    pub open spec fn subscribed(
        self,
        socket: Seq<char>,
        options: Option<SubscribeOptions>,
    ) -> SubscriptionsView {
        SubscriptionsView {
            sockets: self.sockets.insert(socket, ()),
            options: match options {
                Some(options) => self.options.insert(socket, options),
                None => self.options,
            },
        }
    }

    /// A socket is no longer subscribed.
    pub open spec fn unsubscribed(self, socket: Seq<char>) -> SubscriptionsView {
        SubscriptionsView { sockets: self.sockets.remove(socket), ..self }
    }

    /// Several sockets are no longer subscribed.
    pub open spec fn all_unsubscribed(self, sockets: Seq<Seq<char>>) -> SubscriptionsView
        decreases sockets.len(),
    {
        if sockets.len() == 0 {
            self
        } else {
            self.all_unsubscribed(sockets.drop_last()).unsubscribed(sockets.last())
        }
    }
}

impl Subscriptions {
    /// Nobody subscribed.
    pub fn new() -> (none: Self)
        ensures
            none@.sockets == Map::<Seq<char>, ()>::empty(),
            none@.options == Map::<Seq<char>, SubscribeOptions>::empty(),
    {
        Subscriptions { sockets: NameMap::new(), options: NameMap::new() }
    }

    /// Takes a subscriber in.
    pub fn add(&mut self, socket: String, options: Option<SubscribeOptions>)
        ensures
            final(self)@ == old(self)@.subscribed(socket@, options),
    {
        if let Some(options) = options {
            self.options.insert(socket.clone(), options);
        }
        self.sockets.insert(socket, ());
    }

    /// Lets a subscriber go. What it asked for is kept.
    pub fn remove(&mut self, socket: &str)
        ensures
            final(self)@ == old(self)@.unsubscribed(socket@),
    {
        self.sockets.remove(socket);
    }

    /// Lets the subscribers go that could not be reached.
    pub fn remove_stale(&mut self, stale: &Vec<String>)
        ensures
            final(self)@ == old(self)@.all_unsubscribed(stale.deep_view()),
    {
        let mut i: usize = 0;
        assert(stale.deep_view().take(0) =~= Seq::empty());
        while i < stale.len()
            invariant
                i <= stale.len(),
                self@ == old(self)@.all_unsubscribed(stale.deep_view().take(i as int)),
            decreases stale.len() - i,
        {
            self.remove(stale[i].as_str());
            i += 1;
            proof {
                let gone = stale.deep_view().take(i as int);
                assert(gone.drop_last() =~= stale.deep_view().take(i - 1));
                assert(gone.last() == stale.deep_view()[i - 1]);
            }
        }
        assert(stale.deep_view().take(i as int) =~= stale.deep_view());
    }

    fn filters(&self, socket: &str) -> (filters: bool)
        ensures
            filters == self@.filters(socket@),
    {
        match self.options.get(socket) {
            Some(options) => options.filter_state_changes,
            None => false,
        }
    }
}

/// Whether anyone is subscribed at all.
pub fn any_subscribers(subscriptions: &Subscriptions) -> (any: bool)
    ensures
        any == (subscriptions@.sockets != Map::<Seq<char>, ()>::empty()),
{
    !subscriptions.sockets.is_empty()
}

/// Whether anyone is listening who needs to be told whether the state changed.
///
/// Working that out means comparing the whole state before and after. Subscribers that do
/// not filter are sent everything regardless, and with no subscribers there is nothing to
/// decide.
pub fn any_subscriber_filters_state_changes(subscriptions: &Subscriptions) -> (any: bool)
    ensures
        any == (exists|socket: Seq<char>|
            subscriptions@.sockets.contains_key(socket) && #[trigger] subscriptions@.filters(
                socket,
            )),
{
    let mut i: usize = 0;
    while i < subscriptions.sockets.len()
        invariant
            i <= subscriptions.sockets.listed().len(),
            forall|k: int|
                0 <= k < i ==> !subscriptions@.filters(
                    (#[trigger] subscriptions.sockets.listed()[k]).0@,
                ),
        decreases subscriptions.sockets.listed().len() - i,
    {
        let socket = &subscriptions.sockets.entry(i).0;
        if subscriptions.filters(socket.as_str()) {
            proof {
                subscriptions.sockets.lemma_listed(socket@);
                assert(subscriptions.sockets.listed()[i as int].0@ == socket@);
                assert(subscriptions@.sockets.contains_key(socket@));
            }
            return true;
        }
        i += 1;
    }
    proof {
        assert forall|socket: Seq<char>| subscriptions@.sockets.contains_key(socket) implies !(
        #[trigger] subscriptions@.filters(socket)) by {
            subscriptions.sockets.lemma_listed(socket);
        }
    }
    false
}

/// The subscribers that a notification is pushed to: all of them, but for those that only
/// want to hear of changes when nothing has changed and the event is not one that everybody
/// is told of.
pub fn notify_subscribers(
    subscriptions: &Subscriptions,
    is_override_event: bool,
    state_has_been_modified: bool,
) -> (told: Vec<String>)
    ensures
        told.deep_view().no_duplicates(),
        forall|socket: Seq<char>| #[trigger]
            told.deep_view().contains(socket) <==> subscriptions@.is_told(
                socket,
                is_override_event,
                state_has_been_modified,
            ),
{
    let mut told: Vec<String> = Vec::new();
    let mut i: usize = 0;
    while i < subscriptions.sockets.len()
        invariant
            i <= subscriptions.sockets.listed().len(),
            told.deep_view().no_duplicates(),
            forall|socket: Seq<char>| #[trigger]
                told.deep_view().contains(socket) ==> subscriptions@.is_told(
                    socket,
                    is_override_event,
                    state_has_been_modified,
                ),
            forall|k: int|
                0 <= k < i && subscriptions@.is_told(
                    (#[trigger] subscriptions.sockets.listed()[k]).0@,
                    is_override_event,
                    state_has_been_modified,
                ) ==> told.deep_view().contains(subscriptions.sockets.listed()[k].0@),
        decreases subscriptions.sockets.listed().len() - i,
    {
        let socket = &subscriptions.sockets.entry(i).0;
        proof {
            subscriptions.sockets.lemma_listed(socket@);
            assert(subscriptions.sockets.listed()[i as int].0@ == socket@);
            assert(subscriptions@.sockets.contains_key(socket@));
        }
        if !subscriptions.filters(socket.as_str()) || state_has_been_modified || is_override_event {
            if !text::list_contains(&told, socket.as_str()) {
                let ghost before = told.deep_view();
                told.push(socket.clone());
                assert(told.deep_view() =~= before.push(socket@));
                proof {
                    assert(told.deep_view()[before.len() as int] == socket@);
                    assert forall|s: Seq<char>| #[trigger]
                        told.deep_view().contains(s) implies subscriptions@.is_told(
                        s,
                        is_override_event,
                        state_has_been_modified,
                    ) by {
                        if s != socket@ {
                            let k = choose|k: int|
                                0 <= k < told.deep_view().len() && told.deep_view()[k] == s;
                            assert(before[k] == s);
                            assert(before.contains(s));
                        }
                    }
                    assert forall|k: int|
                        0 <= k <= i && subscriptions@.is_told(
                            (#[trigger] subscriptions.sockets.listed()[k]).0@,
                            is_override_event,
                            state_has_been_modified,
                        ) implies told.deep_view().contains(
                        subscriptions.sockets.listed()[k].0@,
                    ) by {
                        let s = subscriptions.sockets.listed()[k].0@;
                        if k < i {
                            let at = choose|at: int| 0 <= at < before.len() && before[at] == s;
                            assert(told.deep_view()[at] == s);
                        }
                    }
                }
            }
        }
        i += 1;
    }
    proof {
        assert forall|socket: Seq<char>|
            subscriptions@.is_told(
                socket,
                is_override_event,
                state_has_been_modified,
            ) implies #[trigger] told.deep_view().contains(socket) by {
            subscriptions.sockets.lemma_listed(socket);
            let k = choose|k: int|
                0 <= k < subscriptions.sockets.listed().len()
                    && (#[trigger] subscriptions.sockets.listed()[k]).0@ == socket;
            assert(subscriptions.sockets.listed()[k].0@ == socket);
        }
    }
    told
}

/// A subscriber that does not filter is told of everything, and every subscriber is told of
/// every change; a socket that was let go is told of nothing.
pub proof fn law_changes_reach_every_subscriber(
    subscriptions: SubscriptionsView,
    socket: Seq<char>,
    is_override_event: bool,
)
    ensures
        subscriptions.sockets.contains_key(socket) ==> subscriptions.is_told(
            socket,
            is_override_event,
            true,
        ),
        subscriptions.sockets.contains_key(socket) && !subscriptions.filters(socket)
            ==> subscriptions.is_told(socket, is_override_event, false),
        !subscriptions.unsubscribed(socket).is_told(socket, true, true),
        subscriptions.subscribed(socket, None).is_told(socket, is_override_event, true),
{
}

/// Unless someone filters, it makes no difference to anyone whether the state changed.
pub proof fn law_nobody_filters_nobody_asks(
    subscriptions: SubscriptionsView,
    socket: Seq<char>,
    is_override_event: bool,
)
    requires
        !(exists|other: Seq<char>|
            subscriptions.sockets.contains_key(other) && #[trigger] subscriptions.filters(other)),
    ensures
        subscriptions.is_told(socket, is_override_event, true) == subscriptions.is_told(
            socket,
            is_override_event,
            false,
        ),
{
    if subscriptions.sockets.contains_key(socket) {
        assert(!subscriptions.filters(socket));
    }
}


/// Several sockets that are no longer subscribed are not among the subscribers, and all others are as
/// before; what anyone had asked for is kept.
pub proof fn law_only_named_sockets_unsubscribe(
    subscriptions: SubscriptionsView,
    sockets: Seq<Seq<char>>,
    socket: Seq<char>,
)
    ensures
        ({
            let after = subscriptions.all_unsubscribed(sockets);
            &&& after.sockets.contains_key(socket) <==> subscriptions.sockets.contains_key(socket)
                && !sockets.contains(socket)
            &&& after.options == subscriptions.options
        }),
    decreases sockets.len(),
{
    if sockets.len() > 0 {
        let shorter = sockets.drop_last();
        law_only_named_sockets_unsubscribe(subscriptions, shorter, socket);
        if sockets.contains(socket) && socket != sockets.last() {
            let i = choose|i: int| 0 <= i < sockets.len() && sockets[i] == socket;
            assert(shorter[i] == socket);
        }
        if shorter.contains(socket) {
            let i = choose|i: int| 0 <= i < shorter.len() && shorter[i] == socket;
            assert(sockets[i] == socket);
        }
        if socket == sockets.last() {
            assert(sockets[sockets.len() - 1] == socket);
        }
    }
}

} // verus!
