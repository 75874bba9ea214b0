//! The confirmation registry: which alerts are awaiting acknowledgement.
//!
//! The registry is the one structure that inbound dispatch, manual
//! confirmation and the timeout sweep all change. Every operation takes the
//! registry by exclusive reference, so a caller that shares it between tasks
//! holds it behind one lock, and each operation is one critical section: of a
//! confirm and a sweep that race for an entry, whichever runs first resolves
//! it and the other finds it gone.

use crate::messages::{Alert, AlertView, Confirmation, ConfirmationView};
use crate::time::Timestamp;
use vstd::prelude::*;

verus! {

/// Seconds after which an unconfirmed alert resolves itself.
pub const CONFIRMATION_TIMEOUT_SECS: u64 = 300;

/// Who acknowledges an alert.
#[derive(Debug, PartialEq, Eq)]
pub struct Actor {
    pub hostname: String,
    pub username: String,
}

/// What an [`Actor`] holds.
pub struct ActorView {
    pub hostname: Seq<char>,
    pub username: Seq<char>,
}

impl View for Actor {
    type V = ActorView;

    open spec fn view(&self) -> ActorView {
        ActorView { hostname: self.hostname@, username: self.username@ }
    }
}

impl Clone for Actor {
    fn clone(&self) -> (copy: Actor)
        ensures
            copy@ == self@,
    {
        Actor { hostname: self.hostname.clone(), username: self.username.clone() }
    }
}

/// An alert awaiting confirmation, with the instant at which it was
/// registered.
#[derive(Debug, PartialEq, Eq)]
pub struct PendingEntry {
    pub alert: Alert,
    pub registered_at: Timestamp,
}

/// What a [`PendingEntry`] holds.
pub struct PendingEntryView {
    pub alert: AlertView,
    pub registered_at: Timestamp,
}

impl View for PendingEntry {
    type V = PendingEntryView;

    open spec fn view(&self) -> PendingEntryView {
        PendingEntryView { alert: self.alert@, registered_at: self.registered_at }
    }
}

/// The entries of a vector, each by its view.
pub open spec fn entry_views(entries: Seq<PendingEntry>) -> Seq<PendingEntryView> {
    entries.map_values(|entry: PendingEntry| entry@)
}

/// The confirmations of a vector, each by its view.
pub open spec fn confirmation_views(confirmations: Seq<Confirmation>) -> Seq<ConfirmationView> {
    confirmations.map_values(|confirmation: Confirmation| confirmation@)
}

/// The texts of a vector, each by its view.
pub open spec fn text_views(texts: Seq<String>) -> Seq<Seq<char>> {
    texts.map_values(|text: String| text@)
}

/// Whether an entry for the alert `id` is pending.
pub open spec fn holds(entries: Seq<PendingEntryView>, id: Seq<char>) -> bool {
    exists|i: int| 0 <= i < entries.len() && #[trigger] entries[i].alert.id == id
}

/// Where the entry for the alert `id` stands, if one is pending.
pub open spec fn position(entries: Seq<PendingEntryView>, id: Seq<char>) -> int {
    choose|i: int| 0 <= i < entries.len() && #[trigger] entries[i].alert.id == id
}

/// No two entries are for the same alert.
pub open spec fn distinct_ids(entries: Seq<PendingEntryView>) -> bool {
    forall|i: int, j: int|
        0 <= i < j < entries.len() ==> #[trigger] entries[i].alert.id != #[trigger] entries[j].alert.id
}

/// Every entry is for an alert that asks for confirmation.
pub open spec fn all_ask_confirmation(entries: Seq<PendingEntryView>) -> bool {
    forall|i: int| 0 <= i < entries.len() ==> (#[trigger] entries[i]).alert.requires_confirmation
}

/// The pending set after `entry` is registered: an entry for the same alert
/// is overwritten where it stands, a new one is added last.
pub open spec fn after_register(
    entries: Seq<PendingEntryView>,
    entry: PendingEntryView,
) -> Seq<PendingEntryView> {
    if holds(entries, entry.alert.id) {
        entries.update(position(entries, entry.alert.id), entry)
    } else {
        entries.push(entry)
    }
}

/// The pending set after the alert `id` is confirmed.
pub open spec fn after_confirm(entries: Seq<PendingEntryView>, id: Seq<char>) -> Seq<
    PendingEntryView,
> {
    if holds(entries, id) {
        entries.remove(position(entries, id))
    } else {
        entries
    }
}

/// The confirmation of the alert `alert_id` by `actor` at `at`, sent on behalf
/// of the client `client_id`.
pub open spec fn confirmation_by(
    alert_id: Seq<char>,
    client_id: Seq<char>,
    actor: ActorView,
    at: Timestamp,
) -> ConfirmationView {
    ConfirmationView {
        alert_id,
        client_id,
        confirmed_at: at,
        hostname: actor.hostname,
        username: actor.username,
    }
}

/// Tells the entries whose deadline, `timeout_secs` after registration, has
/// been reached at `now`.
pub open spec fn is_due(timeout_secs: u64, now: Timestamp) -> spec_fn(PendingEntryView) -> bool {
    |entry: PendingEntryView| entry.registered_at.expired_by(timeout_secs, now)
}

/// Tells the entries whose deadline has not been reached at `now`.
pub open spec fn is_waiting(timeout_secs: u64, now: Timestamp) -> spec_fn(
    PendingEntryView,
) -> bool {
    |entry: PendingEntryView| !entry.registered_at.expired_by(timeout_secs, now)
}

/// The entries that a sweep at `now` resolves, in the order in which they
/// were registered.
pub open spec fn swept(entries: Seq<PendingEntryView>, timeout_secs: u64, now: Timestamp) -> Seq<
    PendingEntryView,
> {
    entries.filter(is_due(timeout_secs, now))
}

/// The entries that a sweep at `now` leaves pending.
pub open spec fn after_sweep(
    entries: Seq<PendingEntryView>,
    timeout_secs: u64,
    now: Timestamp,
) -> Seq<PendingEntryView> {
    entries.filter(is_waiting(timeout_secs, now))
}

/// The confirmations that stand for swept entries: one for each, in their
/// order, by `actor` at `now`.
pub open spec fn synthesized(
    resolved: Seq<PendingEntryView>,
    client_id: Seq<char>,
    actor: ActorView,
    now: Timestamp,
) -> Seq<ConfirmationView> {
    resolved.map_values(
        |entry: PendingEntryView| confirmation_by(entry.alert.id, client_id, actor, now),
    )
}

/// The identifiers of the pending alerts, in the order of registration.
pub open spec fn ids_of(entries: Seq<PendingEntryView>) -> Seq<Seq<char>> {
    entries.map_values(|entry: PendingEntryView| entry.alert.id)
}

/// The pending set as a map from alert identifier to entry.
pub open spec fn by_id(entries: Seq<PendingEntryView>) -> Map<Seq<char>, PendingEntryView> {
    Map::new(
        |id: Seq<char>| holds(entries, id),
        |id: Seq<char>| entries[position(entries, id)],
    )
}

/// No confirmation in the sequence is for the alert `id`.
pub open spec fn none_for(confirmations: Seq<ConfirmationView>, id: Seq<char>) -> bool {
    forall|k: int| 0 <= k < confirmations.len() ==> (#[trigger] confirmations[k]).alert_id != id
}

/// Exactly one confirmation in the sequence is for the alert `id`.
pub open spec fn exactly_one_for(confirmations: Seq<ConfirmationView>, id: Seq<char>) -> bool {
    exists|k: int|
        {
            &&& 0 <= k < confirmations.len()
            &&& (#[trigger] confirmations[k]).alert_id == id
            &&& forall|m: int|
                0 <= m < confirmations.len() && (#[trigger] confirmations[m]).alert_id == id ==> m
                    == k
        }
}

/// Store of the alerts that await confirmation, keyed by alert identifier.
pub struct ConfirmationRegistry {
    client_id: String,
    local: Actor,
    entries: Vec<PendingEntry>,
}

impl ConfirmationRegistry {
    #[verifier::type_invariant]
    spec fn well_formed(self) -> bool {
        &&& distinct_ids(entry_views(self.entries@))
        &&& all_ask_confirmation(entry_views(self.entries@))
    }

    /// The pending entries, in the order in which their alerts were first
    /// registered.
    pub closed spec fn pending(&self) -> Seq<PendingEntryView> {
        entry_views(self.entries@)
    }

    /// The client on whose behalf confirmations are sent.
    pub closed spec fn client(&self) -> Seq<char> {
        self.client_id@
    }

    /// The identity under which timed-out alerts are confirmed.
    pub closed spec fn local_actor(&self) -> ActorView {
        self.local@
    }

    /// An empty registry for the client `client_id`, which confirms timed-out
    /// alerts as `local`.
    pub fn new(client_id: String, local: Actor) -> (registry: ConfirmationRegistry)
        ensures
            registry.pending() == Seq::<PendingEntryView>::empty(),
            registry.client() == client_id@,
            registry.local_actor() == local@,
    {
        let registry = ConfirmationRegistry { client_id, local, entries: Vec::new() };
        assert(registry.pending() =~= Seq::<PendingEntryView>::empty());
        registry
    }

    /// The client on whose behalf confirmations are sent.
    pub fn client_id(&self) -> (id: &str)
        ensures
            id@ == self.client(),
    {
        self.client_id.as_str()
    }

    /// The identity under which timed-out alerts are confirmed.
    pub fn local(&self) -> (actor: &Actor)
        ensures
            actor@ == self.local_actor(),
    {
        &self.local
    }

    /// How many alerts are pending.
    pub fn count(&self) -> (n: usize)
        ensures
            n == self.pending().len(),
            distinct_ids(self.pending()),
            all_ask_confirmation(self.pending()),
    {
        proof {
            use_type_invariant(self);
        }
        self.entries.len()
    }

    /// Where the entry for the alert `id` stands.
    fn find(&self, id: &String) -> (found: Option<usize>)
        ensures
            match found {
                Some(i) => holds(self.pending(), id@) && i == position(self.pending(), id@),
                None => !holds(self.pending(), id@),
            },
    {
        proof {
            use_type_invariant(self);
        }
        let mut i: usize = 0;
        while i < self.entries.len()
            invariant
                i <= self.entries.len(),
                distinct_ids(self.pending()),
                forall|k: int| 0 <= k < i ==> (#[trigger] self.pending()[k]).alert.id != id@,
            decreases self.entries.len() - i,
        {
            if self.entries[i].alert.id == *id {
                proof {
                    assert(self.pending()[i as int].alert.id == id@);
                    lemma_position(self.pending(), i as int);
                }
                return Some(i);
            }
            i += 1;
        }
        None
    }

    /// Whether the alert `alert_id` is pending.
    pub fn contains(&self, alert_id: &str) -> (pending: bool)
        ensures
            pending == holds(self.pending(), alert_id@),
    {
        let id = alert_id.to_owned();
        self.find(&id).is_some()
    }

    /// Registers an alert that asks for confirmation, as pending since `now`.
    /// An entry that is already pending for the same identifier is
    /// overwritten.
    pub fn register(&mut self, alert: Alert, now: Timestamp)
        requires
            alert@.requires_confirmation,
        ensures
            final(self).pending() == after_register(
                old(self).pending(),
                PendingEntryView { alert: alert@, registered_at: now },
            ),
            final(self).client() == old(self).client(),
            final(self).local_actor() == old(self).local_actor(),
    {
        proof {
            use_type_invariant(&*self);
        }
        let ghost before = self.pending();
        let ghost added = PendingEntryView { alert: alert@, registered_at: now };
        let found = self.find(&alert.id);
        let entry = PendingEntry { alert, registered_at: now };
        let mut entries: Vec<PendingEntry> = Vec::new();
        std::mem::swap(&mut self.entries, &mut entries);
        match found {
            Some(i) => {
                entries[i] = entry;
                assert(entry_views(entries@) =~= before.update(i as int, added));
            },
            None => {
                entries.push(entry);
                assert(entry_views(entries@) =~= before.push(added));
            },
        }
        self.entries = entries;
    }

    /// Resolves the alert `alert_id` on behalf of `actor` at `now`: removes its
    /// entry and hands back the confirmation to send. `None` means that no
    /// such alert is pending, because it never was or was resolved before;
    /// the registry is then unchanged.
    pub fn confirm(&mut self, alert_id: &str, actor: &Actor, now: Timestamp) -> (outcome: Option<
        Confirmation,
    >)
        ensures
            final(self).pending() == after_confirm(old(self).pending(), alert_id@),
            match outcome {
                Some(confirmation) => holds(old(self).pending(), alert_id@) && confirmation@
                    == confirmation_by(alert_id@, old(self).client(), actor@, now),
                None => !holds(old(self).pending(), alert_id@),
            },
            final(self).client() == old(self).client(),
            final(self).local_actor() == old(self).local_actor(),
    {
        proof {
            use_type_invariant(&*self);
        }
        let ghost before = self.pending();
        let id = alert_id.to_owned();
        match self.find(&id) {
            None => None,
            Some(i) => {
                let mut entries: Vec<PendingEntry> = Vec::new();
                std::mem::swap(&mut self.entries, &mut entries);
                let _ = entries.remove(i);
                assert(entry_views(entries@) =~= before.remove(i as int));
                self.entries = entries;
                Some(
                    Confirmation {
                        alert_id: id,
                        client_id: self.client_id.clone(),
                        confirmed_at: now,
                        hostname: actor.hostname.clone(),
                        username: actor.username.clone(),
                    },
                )
            },
        }
    }

    /// Resolves every alert whose deadline, `timeout_secs` after its
    /// registration, has been reached at `now`: removes their entries and hands
    /// back one confirmation for each, in the order of registration, made out
    /// to the local actor at `now`.
    pub fn sweep_expired(&mut self, now: Timestamp, timeout_secs: u64) -> (confirmations: Vec<
        Confirmation,
    >)
        ensures
            final(self).pending() == after_sweep(old(self).pending(), timeout_secs, now),
            confirmation_views(confirmations@) == synthesized(
                swept(old(self).pending(), timeout_secs, now),
                old(self).client(),
                old(self).local_actor(),
                now,
            ),
            final(self).client() == old(self).client(),
            final(self).local_actor() == old(self).local_actor(),
    {
        proof {
            use_type_invariant(&*self);
        }
        let ghost before = self.pending();
        let ghost client = self.client();
        let ghost actor = self.local_actor();
        let mut entries: Vec<PendingEntry> = Vec::new();
        std::mem::swap(&mut self.entries, &mut entries);
        let mut kept: Vec<PendingEntry> = Vec::new();
        let mut confirmations: Vec<Confirmation> = Vec::new();
        let ghost queued = entries@;
        assert(before.take(0) =~= Seq::<PendingEntryView>::empty());
        proof {
            lemma_sweep_of_nothing(timeout_secs, now);
        }
        for entry in iter: entries
            invariant
                iter.seq() == queued,
                entry_views(queued) == before,
                entry_views(kept@) == after_sweep(before.take(iter.index()), timeout_secs, now),
                confirmation_views(confirmations@) == synthesized(
                    swept(before.take(iter.index()), timeout_secs, now),
                    client,
                    actor,
                    now,
                ),
                client == self.client_id@,
                actor == self.local@,
        {
            let ghost done = iter.index();
            proof {
                lemma_sweep_step(before, done, timeout_secs, now);
                assert(entry@ == before[done]);
            }
            if entry.registered_at.has_expired(timeout_secs, &now) {
                let ghost resolved = swept(before.take(done), timeout_secs, now);
                let confirmation = Confirmation {
                    alert_id: entry.alert.id,
                    client_id: self.client_id.clone(),
                    confirmed_at: now,
                    hostname: self.local.hostname.clone(),
                    username: self.local.username.clone(),
                };
                let ghost made = confirmation@;
                let ghost listed = confirmations@;
                assert(made == confirmation_by(before[done].alert.id, client, actor, now));
                confirmations.push(confirmation);
                assert(confirmation_views(confirmations@) =~= confirmation_views(listed).push(made));
                assert(synthesized(resolved.push(before[done]), client, actor, now)
                    =~= synthesized(resolved, client, actor, now).push(made));
            } else {
                let ghost waiting = after_sweep(before.take(done), timeout_secs, now);
                kept.push(entry);
                assert(entry_views(kept@) =~= waiting.push(before[done]));
            }
        }
        let ghost done = queued.len();
        proof {
            assert(before.take(done as int) =~= before);
            lemma_filter_keeps_shape(before, is_waiting(timeout_secs, now));
        }
        self.entries = kept;
        confirmations
    }

    /// The identifiers of the pending alerts.
    pub fn ids(&self) -> (ids: Vec<String>)
        ensures
            text_views(ids@) == ids_of(self.pending()),
            distinct_ids(self.pending()),
    {
        proof {
            use_type_invariant(self);
        }
        let mut ids: Vec<String> = Vec::new();
        let mut i: usize = 0;
        while i < self.entries.len()
            invariant
                i <= self.entries.len(),
                text_views(ids@) == ids_of(self.pending().take(i as int)),
            decreases self.entries.len() - i,
        {
            let ghost listed = ids@;
            ids.push(self.entries[i].alert.id.clone());
            proof {
                let id = self.pending()[i as int].alert.id;
                assert(ids@.last()@ == id);
                assert(text_views(ids@) =~= text_views(listed).push(id));
                assert(self.pending().take(i as int + 1) =~= self.pending().take(i as int).push(
                    self.pending()[i as int],
                ));
                assert(ids_of(self.pending().take(i as int + 1)) =~= ids_of(
                    self.pending().take(i as int),
                ).push(id));
            }
            i += 1;
        }
        assert(self.pending().take(i as int) =~= self.pending());
        ids
    }
}

/// A sweep of no entries resolves and keeps none.
proof fn lemma_sweep_of_nothing(timeout_secs: u64, now: Timestamp)
    ensures
        swept(Seq::<PendingEntryView>::empty(), timeout_secs, now) == Seq::<
            PendingEntryView,
        >::empty(),
        after_sweep(Seq::<PendingEntryView>::empty(), timeout_secs, now) == Seq::<
            PendingEntryView,
        >::empty(),
{
    reveal(Seq::filter);
}

/// Sweeping one entry more: the entry joins the resolved ones if it is due,
/// the waiting ones if it is not.
proof fn lemma_sweep_step(entries: Seq<PendingEntryView>, done: int, timeout_secs: u64, now: Timestamp)
    requires
        0 <= done < entries.len(),
    ensures
        swept(entries.take(done + 1), timeout_secs, now) == if entries[done].registered_at.expired_by(
            timeout_secs,
            now,
        ) {
            swept(entries.take(done), timeout_secs, now).push(entries[done])
        } else {
            swept(entries.take(done), timeout_secs, now)
        },
        after_sweep(entries.take(done + 1), timeout_secs, now)
            == if entries[done].registered_at.expired_by(timeout_secs, now) {
            after_sweep(entries.take(done), timeout_secs, now)
        } else {
            after_sweep(entries.take(done), timeout_secs, now).push(entries[done])
        },
{
    assert(entries.take(done + 1) =~= entries.take(done).push(entries[done]));
    entries.take(done).lemma_filter_push(entries[done], is_due(timeout_secs, now));
    entries.take(done).lemma_filter_push(entries[done], is_waiting(timeout_secs, now));
}

/// What a filter keeps comes from the sequence in its order: identifiers stay
/// distinct, and every entry kept still asks for confirmation.
proof fn lemma_filter_keeps_shape(
    entries: Seq<PendingEntryView>,
    keep: spec_fn(PendingEntryView) -> bool,
)
    ensures
        distinct_ids(entries) ==> distinct_ids(entries.filter(keep)),
        all_ask_confirmation(entries) ==> all_ask_confirmation(entries.filter(keep)),
        forall|id: Seq<char>| holds(entries.filter(keep), id) ==> holds(entries, id),
    decreases entries.len(),
{
    if entries.len() == 0 {
        reveal(Seq::filter);
    } else {
        let front = entries.drop_last();
        let last = entries.last();
        lemma_filter_keeps_shape(front, keep);
        assert(entries =~= front.push(last));
        front.lemma_filter_push(last, keep);
        let kept = entries.filter(keep);
        let kept_front = front.filter(keep);
        assert forall|id: Seq<char>| holds(kept, id) implies holds(entries, id) by {
            let k = position(kept, id);
            if k < kept_front.len() {
                assert(kept_front[k].alert.id == id);
                assert(holds(front, id));
                let j = position(front, id);
                assert(entries[j].alert.id == id);
            } else {
                assert(entries[entries.len() - 1].alert.id == id);
            }
        }
        if distinct_ids(entries) {
            assert(distinct_ids(front)) by {
                assert forall|i: int, j: int| 0 <= i < j < front.len() implies front[i].alert.id
                    != front[j].alert.id by {
                    assert(entries[i].alert.id != entries[j].alert.id);
                }
            }
            assert forall|i: int, j: int| 0 <= i < j < kept.len() implies kept[i].alert.id
                != kept[j].alert.id by {
                if j < kept_front.len() {
                    assert(kept_front[i].alert.id != kept_front[j].alert.id);
                } else {
                    let id = kept_front[i].alert.id;
                    assert(kept[i] == kept_front[i]);
                    assert(kept[j] == last);
                    assert(holds(kept_front, id));
                    assert(holds(front, id));
                    let p = position(front, id);
                    assert(front[p] == entries[p]);
                    assert(entries[p].alert.id != entries[entries.len() - 1].alert.id);
                }
            }
        }
        if all_ask_confirmation(entries) {
            assert(all_ask_confirmation(front)) by {
                assert forall|i: int| 0 <= i < front.len() implies (
                #[trigger] front[i]).alert.requires_confirmation by {
                    assert(entries[i].alert.requires_confirmation);
                }
            }
            assert forall|i: int| 0 <= i < kept.len() implies (
            #[trigger] kept[i]).alert.requires_confirmation by {
                if i < kept_front.len() {
                    assert(kept_front[i].alert.requires_confirmation);
                } else {
                    assert(entries[entries.len() - 1].alert.requires_confirmation);
                }
            }
        }
    }
}

/// In a set with distinct identifiers, an entry stands where `position` says.
pub proof fn lemma_position(entries: Seq<PendingEntryView>, i: int)
    requires
        distinct_ids(entries),
        0 <= i < entries.len(),
    ensures
        holds(entries, entries[i].alert.id),
        position(entries, entries[i].alert.id) == i,
{
    let id = entries[i].alert.id;
    assert(holds(entries, id));
    let p = position(entries, id);
    if p < i {
        assert(entries[p].alert.id != entries[i].alert.id);
    } else if i < p {
        assert(entries[i].alert.id != entries[p].alert.id);
    }
}

/// Registering keeps identifiers distinct, and the alert is pending
/// afterwards with the entry that was registered.
pub proof fn lemma_register_holds(entries: Seq<PendingEntryView>, entry: PendingEntryView)
    requires
        distinct_ids(entries),
    ensures
        distinct_ids(after_register(entries, entry)),
        holds(after_register(entries, entry), entry.alert.id),
        after_register(entries, entry)[position(after_register(entries, entry), entry.alert.id)]
            == entry,
        forall|id: Seq<char>|
            id != entry.alert.id ==> (holds(after_register(entries, entry), id) <==> holds(
                entries,
                id,
            )),
{
    let id = entry.alert.id;
    let after = after_register(entries, entry);
    if holds(entries, id) {
        let p = position(entries, id);
        assert(after[p].alert.id == id);
        assert forall|i: int, j: int| 0 <= i < j < after.len() implies after[i].alert.id
            != after[j].alert.id by {
            assert(entries[i].alert.id != entries[j].alert.id);
        }
        lemma_position(after, p);
        assert forall|other: Seq<char>| other != id implies (holds(after, other) <==> holds(
            entries,
            other,
        )) by {
            if holds(after, other) {
                let k = position(after, other);
                assert(entries[k].alert.id == other);
            }
            if holds(entries, other) {
                let k = position(entries, other);
                assert(after[k].alert.id == other);
            }
        }
    } else {
        let p = entries.len() as int;
        assert(after[p].alert.id == id);
        assert forall|i: int, j: int| 0 <= i < j < after.len() implies after[i].alert.id
            != after[j].alert.id by {
            if j < entries.len() {
                assert(entries[i].alert.id != entries[j].alert.id);
            } else {
                assert(entries[i].alert.id != id);
            }
        }
        lemma_position(after, p);
        assert forall|other: Seq<char>| other != id implies (holds(after, other) <==> holds(
            entries,
            other,
        )) by {
            if holds(after, other) {
                let k = position(after, other);
                assert(entries[k].alert.id == other);
            }
            if holds(entries, other) {
                let k = position(entries, other);
                assert(after[k].alert.id == other);
            }
        }
    }
}

/// Where the entry at `i` of a sequence without its entry at `p` stood
/// before.
pub open spec fn stood_at(p: int, i: int) -> int {
    if i < p {
        i
    } else {
        i + 1
    }
}

/// Removing one entry keeps the identifiers of the others distinct.
proof fn lemma_remove_keeps_distinct(entries: Seq<PendingEntryView>, p: int)
    requires
        distinct_ids(entries),
        0 <= p < entries.len(),
    ensures
        distinct_ids(entries.remove(p)),
{
    let after = entries.remove(p);
    assert forall|i: int, j: int| 0 <= i < j < after.len() implies after[i].alert.id
        != after[j].alert.id by {
        assert(after[i] == entries[stood_at(p, i)]);
        assert(after[j] == entries[stood_at(p, j)]);
        assert(entries[stood_at(p, i)].alert.id != entries[stood_at(p, j)].alert.id);
    }
}

/// Removing the entry of an alert leaves no entry for it, and leaves every
/// other alert as pending as it was.
proof fn lemma_remove_takes_one(entries: Seq<PendingEntryView>, p: int, other: Seq<char>)
    requires
        distinct_ids(entries),
        0 <= p < entries.len(),
    ensures
        holds(entries.remove(p), other) <==> (other != entries[p].alert.id && holds(
            entries,
            other,
        )),
{
    let after = entries.remove(p);
    if holds(after, other) {
        let k = position(after, other);
        let a = stood_at(p, k);
        assert(after[k] == entries[a]);
        assert(entries[a].alert.id == other);
        if a < p {
            assert(entries[a].alert.id != entries[p].alert.id);
        } else {
            assert(entries[p].alert.id != entries[a].alert.id);
        }
    }
    if other != entries[p].alert.id && holds(entries, other) {
        let k = position(entries, other);
        let a = if k < p {
            k
        } else {
            k - 1
        };
        assert(after[a] == entries[k]);
        assert(after[a].alert.id == other);
    }
}

/// Confirming keeps identifiers distinct and leaves the alert resolved: it is
/// no longer pending, and every other alert is pending as before.
pub proof fn lemma_confirm_resolves(entries: Seq<PendingEntryView>, id: Seq<char>)
    requires
        distinct_ids(entries),
    ensures
        distinct_ids(after_confirm(entries, id)),
        !holds(after_confirm(entries, id), id),
        forall|other: Seq<char>|
            other != id ==> (holds(after_confirm(entries, id), other) <==> holds(entries, other)),
        holds(entries, id) ==> after_confirm(entries, id).len() == entries.len() - 1,
{
    if holds(entries, id) {
        let p = position(entries, id);
        lemma_remove_keeps_distinct(entries, p);
        lemma_remove_takes_one(entries, p, id);
        assert forall|other: Seq<char>| other != id implies (holds(
            after_confirm(entries, id),
            other,
        ) <==> holds(entries, other)) by {
            lemma_remove_takes_one(entries, p, other);
        }
    }
}

/// A sweep resolves a pending alert whose deadline has been reached: exactly
/// one confirmation is made out for it, and it is pending no longer.
pub proof fn lemma_sweep_resolves_due(
    entries: Seq<PendingEntryView>,
    id: Seq<char>,
    timeout_secs: u64,
    now: Timestamp,
    client_id: Seq<char>,
    actor: ActorView,
)
    requires
        distinct_ids(entries),
        holds(entries, id),
        entries[position(entries, id)].registered_at.expired_by(timeout_secs, now),
    ensures
        exactly_one_for(synthesized(swept(entries, timeout_secs, now), client_id, actor, now), id),
        !holds(after_sweep(entries, timeout_secs, now), id),
{
    let due = is_due(timeout_secs, now);
    let waiting = is_waiting(timeout_secs, now);
    let resolved = swept(entries, timeout_secs, now);
    let kept = after_sweep(entries, timeout_secs, now);
    let made = synthesized(resolved, client_id, actor, now);
    let p = position(entries, id);
    lemma_filter_keeps_shape(entries, due);
    assert(due(entries[p]));
    let k = lemma_filter_has(entries, due, p);
    assert(made[k].alert_id == id);
    assert forall|m: int| 0 <= m < made.len() && (#[trigger] made[m]).alert_id == id implies m
        == k by {
        if m < k {
            assert(resolved[m].alert.id != resolved[k].alert.id);
        } else if k < m {
            assert(resolved[k].alert.id != resolved[m].alert.id);
        }
    }
    if holds(kept, id) {
        let q = position(kept, id);
        let j = lemma_filter_from(entries, waiting, q);
        assert(waiting(kept[q]));
        lemma_position(entries, j);
    }
}

/// A sweep leaves alone a pending alert whose deadline has not been reached:
/// no confirmation is made out for it, and it stays pending.
pub proof fn lemma_sweep_spares_waiting(
    entries: Seq<PendingEntryView>,
    id: Seq<char>,
    timeout_secs: u64,
    now: Timestamp,
    client_id: Seq<char>,
    actor: ActorView,
)
    requires
        distinct_ids(entries),
        holds(entries, id),
        !entries[position(entries, id)].registered_at.expired_by(timeout_secs, now),
    ensures
        none_for(synthesized(swept(entries, timeout_secs, now), client_id, actor, now), id),
        holds(after_sweep(entries, timeout_secs, now), id),
{
    let due = is_due(timeout_secs, now);
    let waiting = is_waiting(timeout_secs, now);
    let resolved = swept(entries, timeout_secs, now);
    let kept = after_sweep(entries, timeout_secs, now);
    let made = synthesized(resolved, client_id, actor, now);
    let p = position(entries, id);
    assert(waiting(entries[p]));
    let k = lemma_filter_has(entries, waiting, p);
    assert(kept[k].alert.id == id);
    assert forall|m: int| 0 <= m < made.len() implies (#[trigger] made[m]).alert_id != id by {
        if made[m].alert_id == id {
            let j = lemma_filter_from(entries, due, m);
            assert(due(resolved[m]));
            lemma_position(entries, j);
        }
    }
}

/// A sweep makes out no confirmation for an alert that is not pending.
pub proof fn lemma_sweep_ignores_absent(
    entries: Seq<PendingEntryView>,
    id: Seq<char>,
    timeout_secs: u64,
    now: Timestamp,
    client_id: Seq<char>,
    actor: ActorView,
)
    requires
        !holds(entries, id),
    ensures
        none_for(synthesized(swept(entries, timeout_secs, now), client_id, actor, now), id),
        !holds(after_sweep(entries, timeout_secs, now), id),
{
    let resolved = swept(entries, timeout_secs, now);
    let made = synthesized(resolved, client_id, actor, now);
    lemma_filter_keeps_shape(entries, is_due(timeout_secs, now));
    lemma_filter_keeps_shape(entries, is_waiting(timeout_secs, now));
    assert forall|m: int| 0 <= m < made.len() implies (#[trigger] made[m]).alert_id != id by {
        if made[m].alert_id == id {
            assert(resolved[m].alert.id == id);
            assert(holds(resolved, id));
        }
    }
}

/// A sweep keeps identifiers distinct, and every entry is either resolved or
/// kept: the count goes down by the number of confirmations made out.
pub proof fn lemma_sweep_counts(entries: Seq<PendingEntryView>, timeout_secs: u64, now: Timestamp)
    requires
        distinct_ids(entries),
    ensures
        distinct_ids(after_sweep(entries, timeout_secs, now)),
        after_sweep(entries, timeout_secs, now).len() + swept(entries, timeout_secs, now).len()
            == entries.len(),
{
    lemma_filter_keeps_shape(entries, is_waiting(timeout_secs, now));
    lemma_sweep_partition(entries, timeout_secs, now);
}

/// Where a kept entry comes from: it passes the filter and stands somewhere
/// in the sequence.
proof fn lemma_filter_from(
    entries: Seq<PendingEntryView>,
    keep: spec_fn(PendingEntryView) -> bool,
    k: int,
) -> (j: int)
    requires
        0 <= k < entries.filter(keep).len(),
    ensures
        keep(entries.filter(keep)[k]),
        0 <= j < entries.len(),
        entries[j] == entries.filter(keep)[k],
{
    lemma_filter_members(entries, keep);
    choose|j: int| 0 <= j < entries.len() && entries[j] == entries.filter(keep)[k]
}

/// Where an entry that passes the filter goes: it stands somewhere among the
/// kept ones.
proof fn lemma_filter_has(
    entries: Seq<PendingEntryView>,
    keep: spec_fn(PendingEntryView) -> bool,
    j: int,
) -> (k: int)
    requires
        0 <= j < entries.len(),
        keep(entries[j]),
    ensures
        0 <= k < entries.filter(keep).len(),
        entries.filter(keep)[k] == entries[j],
{
    lemma_filter_members(entries, keep);
    choose|k: int| 0 <= k < entries.filter(keep).len() && entries.filter(keep)[k] == entries[j]
}

/// A sweep parts the entries into those it resolves and those it keeps.
proof fn lemma_sweep_partition(entries: Seq<PendingEntryView>, timeout_secs: u64, now: Timestamp)
    ensures
        after_sweep(entries, timeout_secs, now).len() + swept(entries, timeout_secs, now).len()
            == entries.len(),
    decreases entries.len(),
{
    if entries.len() == 0 {
        lemma_sweep_of_nothing(timeout_secs, now);
        assert(entries =~= Seq::<PendingEntryView>::empty());
    } else {
        let front = entries.drop_last();
        lemma_sweep_partition(front, timeout_secs, now);
        assert(entries =~= front.push(entries.last()));
        front.lemma_filter_push(entries.last(), is_due(timeout_secs, now));
        front.lemma_filter_push(entries.last(), is_waiting(timeout_secs, now));
    }
}

/// A filter keeps exactly the entries that pass it.
proof fn lemma_filter_members(
    entries: Seq<PendingEntryView>,
    keep: spec_fn(PendingEntryView) -> bool,
)
    ensures
        forall|k: int|
            0 <= k < entries.filter(keep).len() ==> keep(#[trigger] entries.filter(keep)[k]) && (
            exists|j: int| 0 <= j < entries.len() && entries[j] == entries.filter(keep)[k]),
        forall|j: int|
            0 <= j < entries.len() && keep(#[trigger] entries[j]) ==> exists|k: int|
                0 <= k < entries.filter(keep).len() && entries.filter(keep)[k] == entries[j],
    decreases entries.len(),
{
    if entries.len() == 0 {
        reveal(Seq::filter);
    } else {
        let front = entries.drop_last();
        let last = entries.last();
        lemma_filter_members(front, keep);
        assert(entries =~= front.push(last));
        front.lemma_filter_push(last, keep);
        let kept = entries.filter(keep);
        let kept_front = front.filter(keep);
        assert forall|k: int| 0 <= k < kept.len() implies keep(#[trigger] kept[k]) && (exists|
            j: int,
        |
            0 <= j < entries.len() && entries[j] == kept[k]) by {
            if k < kept_front.len() {
                assert(kept[k] == kept_front[k]);
                let j = choose|j: int| 0 <= j < front.len() && front[j] == kept_front[k];
                assert(entries[j] == kept[k]);
            } else {
                assert(entries[entries.len() - 1] == kept[k]);
            }
        }
        assert forall|j: int| 0 <= j < entries.len() && keep(#[trigger] entries[j]) implies exists|
            k: int,
        |
            0 <= k < kept.len() && kept[k] == entries[j] by {
            if j < front.len() {
                assert(keep(front[j]));
                let k = choose|k: int| 0 <= k < kept_front.len() && kept_front[k] == front[j];
                assert(kept[k] == entries[j]);
            } else {
                assert(kept[kept.len() - 1] == entries[j]);
            }
        }
    }
}

/// Registering is insertion into the map of pending alerts: the alert maps to
/// the entry registered, whether or not it was pending before, and every
/// other alert maps to what it did.
pub proof fn lemma_register_is_insert(entries: Seq<PendingEntryView>, entry: PendingEntryView)
    requires
        distinct_ids(entries),
    ensures
        distinct_ids(after_register(entries, entry)),
        by_id(after_register(entries, entry)) == by_id(entries).insert(entry.alert.id, entry),
{
    let id = entry.alert.id;
    let after = after_register(entries, entry);
    lemma_register_holds(entries, entry);
    assert forall|other: Seq<char>| other != id && holds(entries, other) implies after[position(
        after,
        other,
    )] == entries[position(entries, other)] by {
        let k = position(entries, other);
        assert(after[k] == entries[k]);
        lemma_position(after, k);
    }
    assert(by_id(after) =~= by_id(entries).insert(id, entry));
}

/// Confirming is removal from the map of pending alerts: the alert maps to
/// nothing afterwards, and every other alert maps to what it did.
pub proof fn lemma_confirm_is_remove(entries: Seq<PendingEntryView>, id: Seq<char>)
    requires
        distinct_ids(entries),
    ensures
        distinct_ids(after_confirm(entries, id)),
        by_id(after_confirm(entries, id)) == by_id(entries).remove(id),
{
    let after = after_confirm(entries, id);
    lemma_confirm_resolves(entries, id);
    if holds(entries, id) {
        let p = position(entries, id);
        assert forall|other: Seq<char>| other != id && holds(entries, other) implies after[position(
            after,
            other,
        )] == entries[position(entries, other)] by {
            let k = position(entries, other);
            let a = if k < p {
                k
            } else {
                k - 1
            };
            assert(after[a] == entries[k]);
            lemma_position(after, a);
        }
    }
    assert(by_id(after) =~= by_id(entries).remove(id));
}

/// Sweeping is restriction of the map of pending alerts to those whose
/// deadline has not been reached: they map to what they did, and the others
/// to nothing.
pub proof fn lemma_sweep_is_restriction(
    entries: Seq<PendingEntryView>,
    timeout_secs: u64,
    now: Timestamp,
)
    requires
        distinct_ids(entries),
    ensures
        distinct_ids(after_sweep(entries, timeout_secs, now)),
        by_id(after_sweep(entries, timeout_secs, now)) == Map::new(
            |id: Seq<char>|
                holds(entries, id) && !by_id(entries)[id].registered_at.expired_by(
                    timeout_secs,
                    now,
                ),
            |id: Seq<char>| by_id(entries)[id],
        ),
{
    let waiting = is_waiting(timeout_secs, now);
    let kept = after_sweep(entries, timeout_secs, now);
    lemma_filter_keeps_shape(entries, waiting);
    assert forall|id: Seq<char>| holds(kept, id) implies holds(entries, id) && waiting(
        entries[position(entries, id)],
    ) && kept[position(kept, id)] == entries[position(entries, id)] by {
        let k = position(kept, id);
        let j = lemma_filter_from(entries, waiting, k);
        lemma_position(entries, j);
    }
    assert forall|id: Seq<char>|
        holds(entries, id) && waiting(entries[position(entries, id)]) implies holds(kept, id) by {
        let k = lemma_filter_has(entries, waiting, position(entries, id));
        assert(kept[k].alert.id == id);
    }
    assert(by_id(kept) =~= Map::new(
        |id: Seq<char>|
            holds(entries, id) && !by_id(entries)[id].registered_at.expired_by(timeout_secs, now),
        |id: Seq<char>| by_id(entries)[id],
    ));
}

/// An alert that is registered and then confirmed is resolved once: it is
/// pending after the registration, so the confirm finds it; it is pending no
/// longer after the confirm, and no sweep afterwards, at whatever instant and
/// with whatever timeout, makes out a confirmation for it.
pub proof fn lemma_confirmed_is_never_swept(
    entries: Seq<PendingEntryView>,
    entry: PendingEntryView,
    timeout_secs: u64,
    later: Timestamp,
    client_id: Seq<char>,
    actor: ActorView,
)
    requires
        distinct_ids(entries),
    ensures
        holds(after_register(entries, entry), entry.alert.id),
        !holds(after_confirm(after_register(entries, entry), entry.alert.id), entry.alert.id),
        none_for(
            synthesized(
                swept(
                    after_confirm(after_register(entries, entry), entry.alert.id),
                    timeout_secs,
                    later,
                ),
                client_id,
                actor,
                later,
            ),
            entry.alert.id,
        ),
{
    let id = entry.alert.id;
    lemma_register_holds(entries, entry);
    lemma_confirm_resolves(after_register(entries, entry), id);
    lemma_sweep_ignores_absent(
        after_confirm(after_register(entries, entry), id),
        id,
        timeout_secs,
        later,
        client_id,
        actor,
    );
}

/// An alert that is registered and not confirmed resolves itself at its
/// deadline and not before: a sweep at an instant that the deadline has not
/// reached makes out nothing for it and leaves it pending; a sweep at or
/// after the deadline makes out exactly one confirmation for it and removes
/// it, and the count goes down by as many as were resolved, which is one
/// when no other entry is due.
pub proof fn lemma_unconfirmed_times_out(
    entries: Seq<PendingEntryView>,
    entry: PendingEntryView,
    timeout_secs: u64,
    now: Timestamp,
    client_id: Seq<char>,
    actor: ActorView,
)
    requires
        distinct_ids(entries),
    ensures
        ({
            let pending = after_register(entries, entry);
            let made = synthesized(swept(pending, timeout_secs, now), client_id, actor, now);
            let kept = after_sweep(pending, timeout_secs, now);
            if entry.registered_at.expired_by(timeout_secs, now) {
                &&& exactly_one_for(made, entry.alert.id)
                &&& !holds(kept, entry.alert.id)
                &&& kept.len() == pending.len() - made.len()
                &&& made.len() >= 1
                &&& (forall|j: int|
                    0 <= j < pending.len() && (#[trigger] pending[j]).alert.id != entry.alert.id
                        ==> !pending[j].registered_at.expired_by(timeout_secs, now)) ==> kept.len()
                    == pending.len() - 1
            } else {
                &&& none_for(made, entry.alert.id)
                &&& holds(kept, entry.alert.id)
            }
        }),
{
    let id = entry.alert.id;
    let pending = after_register(entries, entry);
    let resolved = swept(pending, timeout_secs, now);
    lemma_register_holds(entries, entry);
    lemma_sweep_counts(pending, timeout_secs, now);
    if entry.registered_at.expired_by(timeout_secs, now) {
        lemma_sweep_resolves_due(pending, id, timeout_secs, now, client_id, actor);
        if forall|j: int|
            0 <= j < pending.len() && (#[trigger] pending[j]).alert.id != id
                ==> !pending[j].registered_at.expired_by(timeout_secs, now) {
            lemma_filter_keeps_shape(pending, is_due(timeout_secs, now));
            if resolved.len() >= 2 {
                let a = lemma_filter_from(pending, is_due(timeout_secs, now), 0);
                let b = lemma_filter_from(pending, is_due(timeout_secs, now), 1);
                assert(pending[a].alert.id == id);
                assert(pending[b].alert.id == id);
                assert(resolved[0].alert.id != resolved[1].alert.id);
            }
        }
    } else {
        lemma_sweep_spares_waiting(pending, id, timeout_secs, now, client_id, actor);
    }
}

/// A confirm and a sweep that race for a pending alert whose deadline has
/// been reached resolve it exactly once, whichever runs first. If the confirm
/// runs first it finds the alert, and the sweep that follows makes out
/// nothing for it. If the sweep runs first it makes out exactly one
/// confirmation for it, and the confirm that follows finds nothing.
pub proof fn lemma_confirm_sweep_race(
    entries: Seq<PendingEntryView>,
    id: Seq<char>,
    timeout_secs: u64,
    now: Timestamp,
    client_id: Seq<char>,
    actor: ActorView,
)
    requires
        distinct_ids(entries),
        holds(entries, id),
        entries[position(entries, id)].registered_at.expired_by(timeout_secs, now),
    ensures
        none_for(
            synthesized(
                swept(after_confirm(entries, id), timeout_secs, now),
                client_id,
                actor,
                now,
            ),
            id,
        ),
        exactly_one_for(synthesized(swept(entries, timeout_secs, now), client_id, actor, now), id),
        !holds(after_sweep(entries, timeout_secs, now), id),
{
    lemma_confirm_resolves(entries, id);
    lemma_sweep_ignores_absent(
        after_confirm(entries, id),
        id,
        timeout_secs,
        now,
        client_id,
        actor,
    );
    lemma_sweep_resolves_due(entries, id, timeout_secs, now, client_id, actor);
}

} // verus!
