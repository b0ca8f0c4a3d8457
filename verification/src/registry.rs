//! The connection registry: which connection stands for which identity, and
//! to which connections an event goes.
//!
//! The registry holds no channel. A connection is known to it by a number
//! that the caller has given it; the caller keeps the channels and writes to
//! those that a [`Dispatch`] names.

use crate::protocol::{ServerMessage, ServerMessageView};
use crate::store::{ParticipantSet, StoreReply, StoreReplyView};
use dashmap::DashMap;
use vstd::prelude::*;

verus! {

/// The concurrent map of `dashmap`; its inside is not visible to proofs.
#[verifier::external_type_specification]
#[verifier::external_body]
#[verifier::reject_recursive_types(K)]
#[verifier::reject_recursive_types(V)]
#[verifier::reject_recursive_types(S)]
pub struct ExDashMap<K, V, S>(DashMap<K, V, S>);

/// The entries that a `DashMap` holds.
pub uninterp spec fn entries(map: DashMap<u64, u64>) -> Map<u64, u64>;

/// Calls `DashMap::new`: the new map holds nothing.
#[verifier::external_body]
fn map_new() -> (created: DashMap<u64, u64>)
    ensures
        forall|key: u64| !entries(created).contains_key(key),
{
    DashMap::new()
}

/// Calls `DashMap::insert`: afterwards the key has the value, the other
/// entries are as before, and the value that the key had is returned.
#[verifier::external_body]
fn map_insert(map: &mut DashMap<u64, u64>, key: u64, value: u64) -> (before: Option<u64>)
    ensures
        entries(*final(map)) == entries(*old(map)).insert(key, value),
        before == if entries(*old(map)).contains_key(key) {
            Some(entries(*old(map))[key])
        } else {
            None
        },
{
    map.insert(key, value)
}

/// Calls `DashMap::remove`: afterwards the key has no entry, the other
/// entries are as before, and the value that the key had is returned.
#[verifier::external_body]
fn map_remove(map: &mut DashMap<u64, u64>, key: u64) -> (before: Option<u64>)
    ensures
        entries(*final(map)) == entries(*old(map)).remove(key),
        before == if entries(*old(map)).contains_key(key) {
            Some(entries(*old(map))[key])
        } else {
            None
        },
{
    map.remove(&key).map(|entry| entry.1)
}

/// Calls `DashMap::get` and copies the value out of the guard.
#[verifier::external_body]
fn map_get(map: &DashMap<u64, u64>, key: u64) -> (value: Option<u64>)
    ensures
        value == if entries(*map).contains_key(key) {
            Some(entries(*map)[key])
        } else {
            None
        },
{
    map.get(&key).map(|entry| *entry.value())
}

/// Calls `DashMap::contains_key`.
#[verifier::external_body]
fn map_contains_key(map: &DashMap<u64, u64>, key: u64) -> (found: bool)
    ensures
        found == entries(*map).contains_key(key),
{
    map.contains_key(&key)
}

/// A map of finitely many entries, and their number.
pub open spec fn counted(held: Map<u64, u64>, n: usize) -> bool {
    held.dom().finite() && n == held.dom().len()
}

/// Calls `DashMap::len`: the map holds finitely many entries, and the result
/// is their number.
#[verifier::external_body]
fn map_len(map: &DashMap<u64, u64>) -> (n: usize)
    ensures
        counted(entries(*map), n),
{
    map.len()
}

/// The keys are those of the map, each of them once.
pub open spec fn lists_keys(keys: Seq<u64>, held: Map<u64, u64>) -> bool {
    &&& keys.no_duplicates()
    &&& forall|key: u64| keys.contains(key) <==> held.contains_key(key)
}

/// Calls `DashMap::iter` and copies the key of each entry out: every key of
/// the map comes once, in an order that is not told.
#[verifier::external_body]
fn map_keys(map: &DashMap<u64, u64>) -> (keys: Vec<u64>)
    ensures
        lists_keys(keys@, entries(*map)),
{
    map.iter().map(|entry| *entry.key()).collect()
}

/// One connection that an event goes to.
#[derive(Debug, Clone, Copy, PartialEq, Eq, Structural)]
pub struct Recipient {
    /// The identity that the connection stands for.
    pub user_id: u64,
    /// The connection, by the number it was registered with.
    pub connection: u64,
}

/// An event and the connections to write it to.
#[derive(Debug, Clone, PartialEq, Eq)]
pub struct Dispatch {
    pub event: ServerMessage,
    pub recipients: Vec<Recipient>,
}

/// What a [`Dispatch`] holds.
pub struct DispatchView {
    pub event: ServerMessageView,
    pub recipients: Seq<Recipient>,
}

impl View for Dispatch {
    type V = DispatchView;

    open spec fn view(&self) -> DispatchView {
        DispatchView { event: self.event@, recipients: self.recipients@ }
    }
}

/// The connection that stands for a user, where there is one.
pub open spec fn connection_of(online: Map<u64, u64>, user_id: u64) -> Seq<Recipient> {
    if online.contains_key(user_id) {
        seq![Recipient { user_id, connection: online[user_id] }]
    } else {
        Seq::empty()
    }
}

/// The test of a user for being registered and not the excluded one.
pub open spec fn is_target(online: Map<u64, u64>, exclude: Option<u64>) -> spec_fn(u64) -> bool {
    |user_id: u64| exclude != Some(user_id) && online.contains_key(user_id)
}

/// The step from a registered user to the connection that stands for it.
pub open spec fn to_recipient(online: Map<u64, u64>) -> spec_fn(u64) -> Recipient {
    |user_id: u64| (Recipient { user_id, connection: online[user_id] })
}

/// The connections of the participants that are registered, in the order of
/// the participants, without the excluded user.
pub open spec fn chat_recipients(
    online: Map<u64, u64>,
    participants: Seq<u64>,
    exclude: Option<u64>,
) -> Seq<Recipient> {
    participants.filter(is_target(online, exclude)).map_values(to_recipient(online))
}

/// The participants that are registered, in the order of the participants.
pub open spec fn online_among(online: Map<u64, u64>, participants: Seq<u64>) -> Seq<u64> {
    participants.filter(is_target(online, None))
}

/// The registered users but for the excluded one.
pub open spec fn everyone_but(online: Map<u64, u64>, exclude: Option<u64>) -> Set<u64> {
    Set::new(|user_id: u64| online.contains_key(user_id) && exclude != Some(user_id))
}

/// The recipients are the registered connections of exactly the targets,
/// each of them once.
pub open spec fn reaches_each_once(
    recipients: Seq<Recipient>,
    online: Map<u64, u64>,
    targets: Set<u64>,
) -> bool {
    &&& forall|i: int|
        0 <= i < recipients.len() ==> {
            &&& targets.contains((#[trigger] recipients[i]).user_id)
            &&& online.contains_pair(recipients[i].user_id, recipients[i].connection)
        }
    &&& forall|i: int, j: int|
        0 <= i < j < recipients.len() ==> (#[trigger] recipients[i]).user_id != (
        #[trigger] recipients[j]).user_id
    &&& forall|user_id: u64| #[trigger]
        targets.contains(user_id) ==> exists|i: int|
            0 <= i < recipients.len() && (#[trigger] recipients[i]).user_id == user_id
}

/// The participants that an event for a chat is meant for: those that are
/// registered, but for the excluded user.
pub open spec fn chat_targets(
    online: Map<u64, u64>,
    participants: Seq<u64>,
    exclude: Option<u64>,
) -> Set<u64> {
    Set::new(
        |user_id: u64|
            participants.contains(user_id) && online.contains_key(user_id) && exclude != Some(
                user_id,
            ),
    )
}

/// What is kept of a sequence without repetitions has no repetitions, and
/// holds exactly the values that pass the test.
pub proof fn lemma_filter_of_distinct(values: Seq<u64>, keep: spec_fn(u64) -> bool)
    requires
        values.no_duplicates(),
    ensures
        values.filter(keep).no_duplicates(),
        forall|value: u64| #[trigger]
            values.filter(keep).contains(value) <==> values.contains(value) && keep(value),
    decreases values.len(),
{
    reveal(Seq::filter);
    if values.len() > 0 {
        let front = values.drop_last();
        let last = values.last();
        let kept = front.filter(keep);
        lemma_filter_of_distinct(front, keep);
        assert(!front.contains(last)) by {
            if front.contains(last) {
                let i = choose|i: int| 0 <= i < front.len() && front[i] == last;
                assert(values[i] == values[values.len() - 1]);
            }
        }
        assert(values.filter(keep).no_duplicates()) by {
            let all = values.filter(keep);
            assert(!kept.contains(last));
            assert forall|i: int, j: int| 0 <= i < j < all.len() implies all[i] != all[j] by {
                if j < kept.len() {
                    assert(kept[i] != kept[j]);
                } else if all[i] == all[j] {
                    assert(kept[i] == last);
                    assert(kept.contains(last));
                }
            }
        }
        assert forall|value: u64| #[trigger]
            values.filter(keep).contains(value) <==> values.contains(value) && keep(value) by {
            let all = values.filter(keep);
            if all.contains(value) {
                let i = choose|i: int| 0 <= i < all.len() && all[i] == value;
                if i < kept.len() {
                    assert(kept[i] == value);
                    assert(kept.contains(value));
                    assert(front.contains(value));
                    let j = choose|j: int| 0 <= j < front.len() && front[j] == value;
                    assert(values[j] == value);
                } else {
                    assert(value == last);
                    assert(values[values.len() - 1] == value);
                }
            }
            if values.contains(value) && keep(value) {
                let j = choose|j: int| 0 <= j < values.len() && values[j] == value;
                if j < front.len() {
                    assert(front[j] == value);
                    assert(front.contains(value));
                    assert(kept.contains(value));
                    let i = choose|i: int| 0 <= i < kept.len() && kept[i] == value;
                    assert(all[i] == value);
                } else {
                    assert(all[kept.len() as int] == value);
                }
            }
        }
    }
}

/// An event for a chat goes to the registered connection of every
/// participant that it is meant for, once, and to nobody else.
pub proof fn law_chat_delivery_is_exact(
    online: Map<u64, u64>,
    participants: Seq<u64>,
    exclude: Option<u64>,
)
    requires
        participants.no_duplicates(),
    ensures
        reaches_each_once(
            chat_recipients(online, participants, exclude),
            online,
            chat_targets(online, participants, exclude),
        ),
{
    let wanted = is_target(online, exclude);
    let chosen = participants.filter(wanted);
    let recipients = chat_recipients(online, participants, exclude);
    let targets = chat_targets(online, participants, exclude);
    lemma_filter_of_distinct(participants, wanted);
    assert forall|i: int| 0 <= i < recipients.len() implies {
        &&& targets.contains((#[trigger] recipients[i]).user_id)
        &&& online.contains_pair(recipients[i].user_id, recipients[i].connection)
    } by {
        assert(chosen.contains(chosen[i]));
    }
    assert forall|user_id: u64| #[trigger] targets.contains(user_id) implies exists|i: int|
        0 <= i < recipients.len() && (#[trigger] recipients[i]).user_id == user_id by {
        assert(chosen.contains(user_id));
        let i = choose|i: int| 0 <= i < chosen.len() && chosen[i] == user_id;
        assert(recipients[i].user_id == user_id);
    }
}

/// An event is never addressed to the user that it excludes.
pub proof fn law_excluded_user_is_skipped(
    online: Map<u64, u64>,
    participants: Seq<u64>,
    user_id: u64,
)
    ensures
        forall|i: int|
            0 <= i < chat_recipients(online, participants, Some(user_id)).len() ==> (
            #[trigger] chat_recipients(online, participants, Some(user_id))[i]).user_id != user_id,
{
    let chosen = participants.filter(is_target(online, Some(user_id)));
    assert forall|i: int|
        0 <= i < chat_recipients(online, participants, Some(user_id)).len() implies (
    #[trigger] chat_recipients(online, participants, Some(user_id))[i]).user_id != user_id by {
        participants.lemma_filter_pred(is_target(online, Some(user_id)), i);
    }
}

/// A user without a connection receives nothing: no event for a chat is
/// addressed to it, and it is not among the participants that are online.
pub proof fn law_offline_user_is_passed_over(
    online: Map<u64, u64>,
    participants: Seq<u64>,
    exclude: Option<u64>,
    user_id: u64,
)
    requires
        !online.contains_key(user_id),
    ensures
        forall|i: int|
            0 <= i < chat_recipients(online, participants, exclude).len() ==> (
            #[trigger] chat_recipients(online, participants, exclude)[i]).user_id != user_id,
        !online_among(online, participants).contains(user_id),
        connection_of(online, user_id) == Seq::<Recipient>::empty(),
{
    assert forall|i: int|
        0 <= i < chat_recipients(online, participants, exclude).len() implies (
    #[trigger] chat_recipients(online, participants, exclude)[i]).user_id != user_id by {
        participants.lemma_filter_pred(is_target(online, exclude), i);
    }
    if online_among(online, participants).contains(user_id) {
        let i = choose|i: int|
            0 <= i < online_among(online, participants).len() && online_among(
                online,
                participants,
            )[i] == user_id;
        participants.lemma_filter_pred(is_target(online, None), i);
    }
}

/// Registering a second connection for an identity supersedes the first:
/// the registry is as if only the second had been registered, it holds as
/// many entries as after the first registration, and what is addressed to
/// the identity goes to the second connection alone.
pub proof fn law_second_connection_supersedes(
    before: Map<u64, u64>,
    user_id: u64,
    first: u64,
    second: u64,
)
    requires
        before.dom().finite(),
    ensures
        before.insert(user_id, first).insert(user_id, second) == before.insert(user_id, second),
        before.insert(user_id, first).insert(user_id, second).dom().len() == before.insert(
            user_id,
            first,
        ).dom().len(),
        connection_of(before.insert(user_id, first).insert(user_id, second), user_id) == seq![
            Recipient { user_id, connection: second },
        ],
        forall|participants: Seq<u64>, exclude: Option<u64>, i: int|
            0 <= i < chat_recipients(
                before.insert(user_id, first).insert(user_id, second),
                participants,
                exclude,
            ).len() && (#[trigger] chat_recipients(
                before.insert(user_id, first).insert(user_id, second),
                participants,
                exclude,
            )[i]).user_id == user_id ==> chat_recipients(
                before.insert(user_id, first).insert(user_id, second),
                participants,
                exclude,
            )[i].connection == second,
{
    let once = before.insert(user_id, first);
    let twice = once.insert(user_id, second);
    assert(twice =~= before.insert(user_id, second));
    assert(twice.dom() =~= once.dom());
}

/// After a user has disconnected it is online in no chat, no event for a
/// chat is addressed to it, and the other connections are as they were.
pub proof fn law_disconnect_leaves_every_chat(before: Map<u64, u64>, user_id: u64)
    ensures
        !before.remove(user_id).contains_key(user_id),
        forall|other: u64|
            other != user_id ==> before.remove(user_id).contains_key(other)
                == before.contains_key(other),
        forall|participants: Seq<u64>| !(#[trigger] online_among(
            before.remove(user_id),
            participants,
        )).contains(user_id),
        forall|participants: Seq<u64>, exclude: Option<u64>, i: int|
            0 <= i < chat_recipients(before.remove(user_id), participants, exclude).len() ==> (
            #[trigger] chat_recipients(before.remove(user_id), participants, exclude)[i]).user_id
                != user_id,
{
    let after = before.remove(user_id);
    assert forall|participants: Seq<u64>| !(#[trigger] online_among(after, participants)).contains(
        user_id,
    ) by {
        law_offline_user_is_passed_over(after, participants, None, user_id);
    }
    assert forall|participants: Seq<u64>, exclude: Option<u64>, i: int|
        0 <= i < chat_recipients(after, participants, exclude).len() implies (
    #[trigger] chat_recipients(after, participants, exclude)[i]).user_id != user_id by {
        law_offline_user_is_passed_over(after, participants, exclude, user_id);
    }
}

/// Manages the active connections: at most one per identity.
pub struct ChatConnectionManager {
    connections: DashMap<u64, u64>,
}

impl View for ChatConnectionManager {
    type V = Map<u64, u64>;

    /// The registered connection of each identity that has one.
    closed spec fn view(&self) -> Map<u64, u64> {
        entries(self.connections)
    }
}

impl ChatConnectionManager {
    /// A registry without connections.
    pub fn new() -> (manager: Self)
        ensures
            manager@ == Map::<u64, u64>::empty(),
    {
        let connections = map_new();
        assert(entries(connections) =~= Map::<u64, u64>::empty());
        ChatConnectionManager { connections }
    }

    /// Registers a connection for a user; a connection that the user had
    /// before is superseded. Returns the announcement that the user is
    /// online, for every other registered connection.
    pub fn connect(&mut self, user_id: u64, connection: u64) -> (announcement: Dispatch)
        ensures
            final(self)@ == old(self)@.insert(user_id, connection),
            announcement.event@ == (ServerMessageView::UserOnline { user_id }),
            reaches_each_once(
                announcement.recipients@,
                final(self)@,
                everyone_but(final(self)@, Some(user_id)),
            ),
    {
        map_insert(&mut self.connections, user_id, connection);
        self.broadcast_to_all(ServerMessage::UserOnline { user_id }, Some(user_id))
    }

    /// Removes the connection of a user, if there is one. Returns the
    /// announcement that the user is offline, for every connection that is
    /// still registered.
    pub fn disconnect(&mut self, user_id: u64) -> (announcement: Dispatch)
        ensures
            final(self)@ == old(self)@.remove(user_id),
            announcement.event@ == (ServerMessageView::UserOffline { user_id }),
            reaches_each_once(announcement.recipients@, final(self)@, final(self)@.dom()),
    {
        map_remove(&mut self.connections, user_id);
        let announcement = self.broadcast_to_all(
            ServerMessage::UserOffline { user_id },
            Some(user_id),
        );
        assert(everyone_but(self@, Some(user_id)) =~= self@.dom());
        announcement
    }

    /// Addresses an event to a user: to the registered connection of the
    /// user, or to nobody where the user has none.
    pub fn send_to_user(&self, user_id: u64, message: ServerMessage) -> (dispatch: Dispatch)
        ensures
            dispatch.event == message,
            dispatch.recipients@ == connection_of(self@, user_id),
    {
        let mut recipients: Vec<Recipient> = Vec::new();
        match map_get(&self.connections, user_id) {
            Some(connection) => {
                recipients.push(Recipient { user_id, connection });
            },
            None => {},
        }
        assert(recipients@ =~= connection_of(self@, user_id));
        Dispatch { event: message, recipients }
    }

    /// The registered connections of the users of a list, in the order of
    /// the list, without the excluded user.
    fn connections_among(
        &self,
        users: &Vec<u64>,
        exclude_user_id: Option<u64>,
    ) -> (recipients: Vec<Recipient>)
        ensures
            recipients@ == chat_recipients(self@, users@, exclude_user_id),
    {
        let ghost wanted = is_target(self@, exclude_user_id);
        let ghost reach = to_recipient(self@);
        let mut recipients: Vec<Recipient> = Vec::new();
        let mut i: usize = 0;
        while i < users.len()
            invariant
                i <= users@.len(),
                wanted == is_target(self@, exclude_user_id),
                reach == to_recipient(self@),
                recipients@ == users@.take(i as int).filter(wanted).map_values(reach),
            decreases users@.len() - i,
        {
            let user_id = users[i];
            let skip = match exclude_user_id {
                Some(excluded) => excluded == user_id,
                None => false,
            };
            proof {
                let next = users@.take(i as int + 1);
                assert(next.drop_last() =~= users@.take(i as int));
                assert(next.last() == user_id);
                reveal(Seq::filter);
            }
            if !skip {
                match map_get(&self.connections, user_id) {
                    Some(connection) => {
                        recipients.push(Recipient { user_id, connection });
                        assert(recipients@ =~= users@.take(i as int + 1).filter(
                            wanted,
                        ).map_values(reach));
                    },
                    None => {},
                }
            }
            i += 1;
        }
        assert(users@.take(i as int) =~= users@);
        recipients
    }

    /// Addresses an event to the participants of a chat: to the registered
    /// connection of each participant but the excluded one, in the order of
    /// the participants. A participant without a connection is passed over.
    pub fn send_to_chat(
        &self,
        message: ServerMessage,
        participants: &ParticipantSet,
        exclude_user_id: Option<u64>,
    ) -> (dispatch: Dispatch)
        ensures
            dispatch.event == message,
            dispatch.recipients@ == chat_recipients(self@, participants@, exclude_user_id),
            reaches_each_once(
                dispatch.recipients@,
                self@,
                chat_targets(self@, participants@, exclude_user_id),
            ),
    {
        proof {
            use_type_invariant(participants);
            participants.lemma_wf();
            law_chat_delivery_is_exact(self@, participants@, exclude_user_id);
        }
        let recipients = self.connections_among(participants.ids(), exclude_user_id);
        Dispatch { event: message, recipients }
    }

    /// Addresses an event to every registered connection but that of the
    /// excluded user, in an order that is not told.
    pub fn broadcast_to_all(
        &self,
        message: ServerMessage,
        exclude_user_id: Option<u64>,
    ) -> (dispatch: Dispatch)
        ensures
            dispatch.event == message,
            reaches_each_once(
                dispatch.recipients@,
                self@,
                everyone_but(self@, exclude_user_id),
            ),
    {
        let users = map_keys(&self.connections);
        let recipients = self.connections_among(&users, exclude_user_id);
        proof {
            law_chat_delivery_is_exact(self@, users@, exclude_user_id);
            assert(chat_targets(self@, users@, exclude_user_id) =~= everyone_but(
                self@,
                exclude_user_id,
            ));
        }
        Dispatch { event: message, recipients }
    }

    /// The participants of a chat that are online, in the order of the
    /// store's answer; nobody where the store has not answered with the
    /// participants.
    pub fn get_online_users_in_chat(&self, participants: &StoreReply) -> (online: Vec<u64>)
        ensures
            online@ == match participants@ {
                StoreReplyView::Members(members) => online_among(self@, members),
                _ => Seq::empty(),
            },
    {
        let mut online: Vec<u64> = Vec::new();
        match participants {
            StoreReply::Members(members) => {
                let ghost registered = is_target(self@, None);
                let mut i: usize = 0;
                while i < members.len()
                    invariant
                        i <= members@.len(),
                        registered == is_target(self@, None),
                        online@ == members@.take(i as int).filter(registered),
                    decreases members@.len() - i,
                {
                    let user_id = members.get(i);
                    proof {
                        let next = members@.take(i as int + 1);
                        assert(next.drop_last() =~= members@.take(i as int));
                        assert(next.last() == user_id);
                        reveal(Seq::filter);
                    }
                    if map_contains_key(&self.connections, user_id) {
                        online.push(user_id);
                    }
                    i += 1;
                }
                assert(members@.take(i as int) =~= members@);
            },
            _ => {},
        }
        online
    }

    /// Whether a user has a registered connection.
    pub fn is_user_online(&self, user_id: u64) -> (online: bool)
        ensures
            online == self@.contains_key(user_id),
    {
        map_contains_key(&self.connections, user_id)
    }

    /// The number of registered connections.
    pub fn connection_count(&self) -> (count: usize)
        ensures
            self@.dom().finite(),
            count == self@.dom().len(),
    {
        map_len(&self.connections)
    }
}

impl Default for ChatConnectionManager {
    fn default() -> (manager: Self)
        ensures
            manager@ == Map::<u64, u64>::empty(),
    {
        Self::new()
    }
}

} // verus!
