use crate::clock::{now, Timestamp};
use crate::fields::{TicketDescription, TicketTitle};
use crate::ticket::{Status, TicketDraft, TicketPatch};
use std::collections::HashMap;
use vstd::prelude::*;
use vstd::std_specs::hash::spec_hash_map_iter;
use vstd::std_specs::iter::IteratorSpec;

verus! {

broadcast use vstd::std_specs::hash::group_hash_axioms;

/// The identity of a stored ticket.
pub type TicketId = u64;

/// A ticket held by the store, with its identity and its timestamps.
#[derive(Debug, Clone, PartialEq)]
pub struct Ticket {
    id: TicketId,
    title: TicketTitle,
    description: TicketDescription,
    status: Status,
    created_at: Timestamp,
    updated_at: Timestamp,
}

impl Ticket {
    pub closed spec fn spec_id(&self) -> TicketId {
        self.id
    }

    pub closed spec fn spec_title(&self) -> TicketTitle {
        self.title
    }

    pub closed spec fn spec_description(&self) -> TicketDescription {
        self.description
    }

    pub closed spec fn spec_status(&self) -> Status {
        self.status
    }

    pub closed spec fn spec_created_at(&self) -> Timestamp {
        self.created_at
    }

    pub closed spec fn spec_updated_at(&self) -> Timestamp {
        self.updated_at
    }

    /// A ticket as `save` creates it: identity `id`, the draft's title and
    /// description, status `ToDo`, and equal creation and update times.
    pub open spec fn is_fresh(&self, id: TicketId, draft: TicketDraft) -> bool {
        &&& self.spec_id() == id
        &&& self.spec_title() == draft.title
        &&& self.spec_description() == draft.description
        &&& self.spec_status() == Status::ToDo
        &&& self.spec_created_at() == self.spec_updated_at()
    }

    /// `self` is `before` with every field present in `patch` written over it;
    /// the identity and the creation time stay. The update time is not fixed here.
    pub open spec fn is_patched(&self, before: Ticket, patch: TicketPatch) -> bool {
        &&& self.spec_id() == before.spec_id()
        &&& self.spec_title() == match patch.title {
            Some(t) => t,
            None => before.spec_title(),
        }
        &&& self.spec_description() == match patch.description {
            Some(d) => d,
            None => before.spec_description(),
        }
        &&& self.spec_status() == match patch.status {
            Some(s) => s,
            None => before.spec_status(),
        }
        &&& self.spec_created_at() == before.spec_created_at()
    }

    pub fn title(&self) -> (r: &TicketTitle)
        ensures
            *r == self.spec_title(),
    {
        &self.title
    }

    pub fn description(&self) -> (r: &TicketDescription)
        ensures
            *r == self.spec_description(),
    {
        &self.description
    }

    pub fn status(&self) -> (r: &Status)
        ensures
            *r == self.spec_status(),
    {
        &self.status
    }

    pub fn created_at(&self) -> (r: &Timestamp)
        ensures
            *r == self.spec_created_at(),
    {
        &self.created_at
    }

    pub fn id(&self) -> (r: &TicketId)
        ensures
            *r == self.spec_id(),
    {
        &self.id
    }

    pub fn updated_at(&self) -> (r: &Timestamp)
        ensures
            *r == self.spec_updated_at(),
    {
        &self.updated_at
    }
}

/// A ticket removed from the store, with the time of its removal.
#[derive(Debug, Clone, PartialEq)]
pub struct DeletedTicket {
    ticket: Ticket,
    deleted_at: Timestamp,
}

impl DeletedTicket {
    pub closed spec fn spec_ticket(&self) -> Ticket {
        self.ticket
    }

    pub closed spec fn spec_deleted_at(&self) -> Timestamp {
        self.deleted_at
    }

    pub fn ticket(&self) -> (r: &Ticket)
        ensures
            *r == self.spec_ticket(),
    {
        &self.ticket
    }

    pub fn deleted_at(&self) -> (r: &Timestamp)
        ensures
            *r == self.spec_deleted_at(),
    {
        &self.deleted_at
    }
}

/// Tickets keyed by identity, and the last identity handed out.
pub struct TicketStore {
    data: HashMap<TicketId, Ticket>,
    current_id: TicketId,
}

impl TicketStore {
    /// The stored tickets, by identity.
    pub closed spec fn tickets(&self) -> Map<TicketId, Ticket> {
        self.data@
    }

    /// The last identity handed out; 0 before the first save.
    pub closed spec fn last_id(&self) -> TicketId {
        self.current_id
    }

    /// The identities handed out so far: 1 through `last_id`, deleted ones included.
    pub open spec fn issued(&self) -> Set<TicketId> {
        Set::new(|i: TicketId| 1 <= i <= self.last_id())
    }

    /// Each ticket is stored under its own identity, and that identity was issued.
    pub closed spec fn wf(&self) -> bool {
        forall|id: TicketId| #[trigger]
            self.data@.contains_key(id) ==> 1 <= id <= self.current_id && self.data@[id].id == id
    }

    /// `post` is `pre` after a save of `draft` that returned `id`.
    pub open spec fn saved(pre: TicketStore, post: TicketStore, draft: TicketDraft, id: TicketId) -> bool {
        &&& post.wf()
        &&& id == pre.last_id() + 1
        &&& post.last_id() == id
        &&& post.tickets().contains_key(id)
        &&& post.tickets() == pre.tickets().insert(id, post.tickets()[id])
        &&& post.tickets()[id].is_fresh(id, draft)
    }

    /// `post` is `pre` after a delete of `id` that returned `r`.
    pub open spec fn deleted(
        pre: TicketStore,
        post: TicketStore,
        id: TicketId,
        r: Option<DeletedTicket>,
    ) -> bool {
        &&& post.wf()
        &&& post.last_id() == pre.last_id()
        &&& post.tickets() == pre.tickets().remove(id)
        &&& (r is Some <==> pre.tickets().contains_key(id))
        &&& (r matches Some(d) ==> d.spec_ticket() == pre.tickets()[id])
    }

    /// `r` lists every stored ticket once, in some order.
    pub open spec fn lists(&self, r: Seq<&Ticket>) -> bool {
        &&& r.len() == self.tickets().len()
        &&& forall|i: int| #![trigger r[i]]
            0 <= i < r.len() ==> self.tickets().contains_key(r[i].spec_id())
                && self.tickets()[r[i].spec_id()] == *r[i]
        &&& forall|id: TicketId| #[trigger]
            self.tickets().contains_key(id) ==> exists|i: int|
                0 <= i < r.len() && *r[i] == self.tickets()[id]
    }

    pub fn new() -> (r: TicketStore)
        ensures
            r.wf(),
            r.tickets() == Map::<TicketId, Ticket>::empty(),
            r.last_id() == 0,
    {
        TicketStore { data: HashMap::new(), current_id: 0 }
    }

    /// Stores a new ticket built from `draft` and returns its identity, the
    /// one after the last handed out.
    pub fn save(&mut self, draft: TicketDraft) -> (id: TicketId)
        requires
            old(self).wf(),
            old(self).last_id() < TicketId::MAX,
        ensures
            Self::saved(*old(self), *final(self), draft, id),
            !old(self).issued().contains(id),
            final(self).issued() == old(self).issued().insert(id),
    {
        let id = self.generate_id();
        let timestamp = now();
        let ticket = Ticket {
            id,
            title: draft.title,
            description: draft.description,
            status: Status::ToDo,
            created_at: timestamp,
            updated_at: timestamp,
        };
        self.data.insert(id, ticket);
        proof {
            assert(final(self).issued() =~= old(self).issued().insert(id));
        }
        id
    }

    /// The ticket stored under `id`, if any.
    pub fn get(&self, id: &TicketId) -> (r: Option<&Ticket>)
        ensures
            r is Some <==> self.tickets().contains_key(*id),
            r matches Some(t) ==> *t == self.tickets()[*id],
    {
        self.data.get(id)
    }

    /// Every stored ticket, in no particular order.
    pub fn list(&self) -> (r: Vec<&Ticket>)
        requires
            self.wf(),
        ensures
            self.lists(r@),
    {
        let mut r: Vec<&Ticket> = Vec::new();
        for kv in it: self.data.iter()
            invariant
                it.seq() == spec_hash_map_iter(&self.data).remaining(),
                r@.len() == it.index(),
                forall|i: int| 0 <= i < r@.len() ==> r@[i] == it.seq()[i].1,
        {
            r.push(kv.1);
        }
        proof {
            let v = spec_hash_map_iter(&self.data).remaining();
            assert(r@.len() == v.len());
            assert forall|i: int| #![trigger r@[i]] 0 <= i < r@.len() implies self.tickets().contains_key(
                r@[i].spec_id(),
            ) && self.tickets()[r@[i].spec_id()] == *r@[i] by {
                assert(self.data@.contains_key(*v[i].0));
                assert(self.data@[*v[i].0] == *v[i].1);
            }
            assert forall|id: TicketId| #[trigger] self.tickets().contains_key(id) implies exists|i: int|
                0 <= i < r@.len() && *r@[i] == self.tickets()[id] by {
                assert(v.contains((&id, &self.data@[id])));
                let j = choose|j: int| 0 <= j < v.len() && v[j] == (&id, &self.data@[id]);
                assert(*r@[j] == self.tickets()[id]);
            }
        }
        r
    }

    /// Writes the fields present in `patch` over the ticket stored under `id`
    /// and sets its update time to now; returns the updated ticket, or `None`
    /// (and changes nothing) when no ticket has that identity.
    pub fn update(&mut self, id: &TicketId, patch: TicketPatch) -> (r: Option<&Ticket>)
        requires
            old(self).wf(),
        ensures
            final(self).wf(),
            final(self).last_id() == old(self).last_id(),
            r is Some <==> old(self).tickets().contains_key(*id),
            !old(self).tickets().contains_key(*id) ==> final(self).tickets() == old(self).tickets(),
            r matches Some(t) ==> {
                &&& final(self).tickets() == old(self).tickets().insert(*id, *t)
                &&& t.is_patched(old(self).tickets()[*id], patch)
            },
    {
        match self.data.remove(id) {
            None => None,
            Some(mut ticket) => {
                if let Some(title) = patch.title {
                    ticket.title = title;
                }
                if let Some(description) = patch.description {
                    ticket.description = description;
                }
                if let Some(status) = patch.status {
                    ticket.status = status;
                }
                ticket.updated_at = now();
                self.data.insert(*id, ticket);
                self.data.get(id)
            },
        }
    }

    /// Removes the ticket stored under `id` and returns it with the time of
    /// removal, or `None` when no ticket has that identity. The identity is
    /// never handed out again.
    pub fn delete(&mut self, id: &TicketId) -> (r: Option<DeletedTicket>)
        requires
            old(self).wf(),
        ensures
            Self::deleted(*old(self), *final(self), *id, r),
    {
        match self.data.remove(id) {
            None => None,
            Some(ticket) => Some(DeletedTicket { ticket, deleted_at: now() }),
        }
    }

    fn generate_id(&mut self) -> (id: TicketId)
        requires
            old(self).current_id < TicketId::MAX,
        ensures
            id == old(self).current_id + 1,
            final(self).current_id == id,
            final(self).data == old(self).data,
    {
        self.current_id += 1;
        self.current_id
    }
}

/// Each save returns an identity that no stored ticket holds, above every stored one.
pub proof fn lemma_saved_id_is_new(pre: TicketStore, post: TicketStore, draft: TicketDraft, id: TicketId)
    requires
        pre.wf(),
        TicketStore::saved(pre, post, draft, id),
    ensures
        !pre.tickets().contains_key(id),
        forall|k: TicketId| #[trigger] pre.tickets().contains_key(k) ==> k < id,
{
}

/// Identities from two saves in a row are strictly increasing and consecutive;
/// on a new store the first is 1.
pub proof fn lemma_ids_increase(
    s0: TicketStore,
    s1: TicketStore,
    s2: TicketStore,
    d1: TicketDraft,
    d2: TicketDraft,
    id1: TicketId,
    id2: TicketId,
)
    requires
        s0.wf(),
        TicketStore::saved(s0, s1, d1, id1),
        TicketStore::saved(s1, s2, d2, id2),
    ensures
        id1 < id2,
        id2 == id1 + 1,
        s0.last_id() == 0 ==> id1 == 1,
{
}

/// After a save, the new ticket is stored under the returned identity with
/// status `ToDo`, the draft's fields, and equal creation and update times.
pub proof fn lemma_get_after_save(pre: TicketStore, post: TicketStore, draft: TicketDraft, id: TicketId)
    requires
        pre.wf(),
        TicketStore::saved(pre, post, draft, id),
    ensures
        post.tickets().contains_key(id),
        post.tickets()[id].spec_id() == id,
        post.tickets()[id].spec_status() == Status::ToDo,
        post.tickets()[id].spec_created_at() == post.tickets()[id].spec_updated_at(),
        post.tickets()[id].spec_title() == draft.title,
        post.tickets()[id].spec_description() == draft.description,
{
}

/// A patch with every field absent leaves title, description and status as they were.
pub proof fn lemma_empty_patch_keeps_fields(before: Ticket, after: Ticket, patch: TicketPatch)
    requires
        patch.title is None,
        patch.description is None,
        patch.status is None,
        after.is_patched(before, patch),
    ensures
        after.spec_id() == before.spec_id(),
        after.spec_title() == before.spec_title(),
        after.spec_description() == before.spec_description(),
        after.spec_status() == before.spec_status(),
        after.spec_created_at() == before.spec_created_at(),
{
}

/// A patch with every field present overwrites title, description and status.
pub proof fn lemma_full_patch_overwrites(
    before: Ticket,
    after: Ticket,
    title: TicketTitle,
    description: TicketDescription,
    status: Status,
)
    requires
        after.is_patched(
            before,
            TicketPatch { title: Some(title), description: Some(description), status: Some(status) },
        ),
    ensures
        after.spec_id() == before.spec_id(),
        after.spec_title() == title,
        after.spec_description() == description,
        after.spec_status() == status,
        after.spec_created_at() == before.spec_created_at(),
{
}

/// After a delete, nothing is stored under the identity; the returned ticket is
/// the one that was stored, and nothing is returned for an unknown identity.
pub proof fn lemma_get_after_delete(
    pre: TicketStore,
    post: TicketStore,
    id: TicketId,
    r: Option<DeletedTicket>,
)
    requires
        pre.wf(),
        TicketStore::deleted(pre, post, id, r),
    ensures
        !post.tickets().contains_key(id),
        !pre.tickets().contains_key(id) ==> r is None && post.tickets() == pre.tickets(),
        pre.tickets().contains_key(id) ==> (r matches Some(d) && d.spec_ticket() == pre.tickets()[id]),
{
    assert(!pre.tickets().contains_key(id) ==> post.tickets() =~= pre.tickets());
}

/// An identity once issued stays issued through a save, and that save returns
/// another identity: an identity is never handed out twice.
pub proof fn lemma_issued_id_never_reassigned(
    pre: TicketStore,
    post: TicketStore,
    draft: TicketDraft,
    id: TicketId,
    new_id: TicketId,
)
    requires
        pre.wf(),
        pre.issued().contains(id),
        TicketStore::saved(pre, post, draft, new_id),
    ensures
        new_id != id,
        post.issued().contains(id),
{
}

/// The identity of a deleted ticket stays issued, so the next save returns another one.
pub proof fn lemma_deleted_id_not_reused(
    s0: TicketStore,
    s1: TicketStore,
    s2: TicketStore,
    id: TicketId,
    r: Option<DeletedTicket>,
    draft: TicketDraft,
    new_id: TicketId,
)
    requires
        s0.wf(),
        s0.tickets().contains_key(id),
        TicketStore::deleted(s0, s1, id, r),
        TicketStore::saved(s1, s2, draft, new_id),
    ensures
        s1.issued().contains(id),
        s2.issued().contains(id),
        new_id != id,
{
}

/// Each save adds exactly one ticket, so after N saves on a new store, N are listed.
pub proof fn lemma_save_adds_one(pre: TicketStore, post: TicketStore, draft: TicketDraft, id: TicketId)
    requires
        pre.wf(),
        TicketStore::saved(pre, post, draft, id),
    ensures
        post.tickets().len() == pre.tickets().len() + 1,
{
    assert(pre.tickets().dom().finite());
}

/// A listing of an empty store is empty.
pub proof fn lemma_list_of_empty_store(s: TicketStore, r: Seq<&Ticket>)
    requires
        s.tickets() == Map::<TicketId, Ticket>::empty(),
        s.lists(r),
    ensures
        r.len() == 0,
{
}

/// On a store holding a single ticket, the listing holds exactly that ticket.
pub proof fn lemma_single_ticket_list_agrees(s: TicketStore, id: TicketId, r: Seq<&Ticket>)
    requires
        s.tickets().dom() == set![id],
        s.lists(r),
    ensures
        r.len() == 1,
        *r[0] == s.tickets()[id],
{
    assert(s.tickets().dom().len() == 1) by {
        assert(set![id].len() == 1);
    }
    assert(s.tickets().contains_key(r[0].spec_id()));
}

} // verus!
