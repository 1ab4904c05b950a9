//! The registry of tool calls that wait for a decision.
//!
//! A call enters when a transcript proposes it and asks for confirmation, and
//! leaves when it is approved or denied. At most one call waits under an id.

use crate::model::views;
use crate::protocol::{PendingItem, PendingItemView, ToolCall, ToolCallView};
use vstd::prelude::*;

verus! {

/// No two of `calls` share an id.
pub open spec fn distinct_ids(calls: Seq<ToolCallView>) -> bool {
    forall|i: int, j: int|
        0 <= i < calls.len() && 0 <= j < calls.len() && i != j ==> (#[trigger] calls[i]).id != (
        #[trigger] calls[j]).id
}

/// A call with this id is among `calls`.
pub open spec fn has_id(calls: Seq<ToolCallView>, id: Seq<char>) -> bool {
    exists|i: int| 0 <= i < calls.len() && (#[trigger] calls[i]).id == id
}

/// Where the call with this id stands among `calls`, if `has_id(calls, id)`.
pub open spec fn slot_of(calls: Seq<ToolCallView>, id: Seq<char>) -> int {
    choose|i: int| 0 <= i < calls.len() && (#[trigger] calls[i]).id == id
}

/// The call that waits under this id.
pub open spec fn lookup(calls: Seq<ToolCallView>, id: Seq<char>) -> Option<ToolCallView> {
    if has_id(calls, id) {
        Some(calls[slot_of(calls, id)])
    } else {
        None
    }
}

/// `calls` after `call` is stored: it takes the place of a call with the same
/// id, and otherwise comes last.
pub open spec fn inserted(calls: Seq<ToolCallView>, call: ToolCallView) -> Seq<ToolCallView> {
    if has_id(calls, call.id) {
        calls.update(slot_of(calls, call.id), call)
    } else {
        calls.push(call)
    }
}

/// `calls` without the call that has this id.
pub open spec fn removed(calls: Seq<ToolCallView>, id: Seq<char>) -> Seq<ToolCallView> {
    if has_id(calls, id) {
        calls.remove(slot_of(calls, id))
    } else {
        calls
    }
}

/// What a listing shows of one call.
pub open spec fn item_of(call: ToolCallView) -> PendingItemView {
    PendingItemView { id: call.id, tool: call.tool, args: call.args }
}

/// What a listing shows of `calls`, one item for each call, in order.
pub open spec fn listing(calls: Seq<ToolCallView>) -> Seq<PendingItemView> {
    calls.map_values(|call: ToolCallView| item_of(call))
}

/// With distinct ids, a call found at a position is the one that `slot_of` names.
pub proof fn lemma_slot_is_unique(calls: Seq<ToolCallView>, id: Seq<char>, at: int)
    requires
        distinct_ids(calls),
        0 <= at < calls.len(),
        calls[at].id == id,
    ensures
        has_id(calls, id),
        slot_of(calls, id) == at,
{
    let chosen = slot_of(calls, id);
    assert(0 <= chosen < calls.len() && calls[chosen].id == id);
}

/// Storing a call keeps ids distinct.
pub proof fn lemma_inserted_distinct(calls: Seq<ToolCallView>, call: ToolCallView)
    requires
        distinct_ids(calls),
    ensures
        distinct_ids(inserted(calls, call)),
{
    let after = inserted(calls, call);
    if has_id(calls, call.id) {
        let at = slot_of(calls, call.id);
        assert forall|i: int, j: int|
            0 <= i < after.len() && 0 <= j < after.len() && i != j implies (#[trigger] after[i]).id
            != (#[trigger] after[j]).id by {
            assert(after[i].id == calls[i].id);
            assert(after[j].id == calls[j].id);
        }
    } else {
        assert forall|i: int, j: int|
            0 <= i < after.len() && 0 <= j < after.len() && i != j implies (#[trigger] after[i]).id
            != (#[trigger] after[j]).id by {
            if i < calls.len() {
                assert(after[i] == calls[i]);
            }
            if j < calls.len() {
                assert(after[j] == calls[j]);
            }
        }
    }
}

/// Taking a call out keeps ids distinct.
pub proof fn lemma_removed_distinct(calls: Seq<ToolCallView>, id: Seq<char>)
    requires
        distinct_ids(calls),
    ensures
        distinct_ids(removed(calls, id)),
{
    let after = removed(calls, id);
    if has_id(calls, id) {
        let at = slot_of(calls, id);
        assert forall|i: int, j: int|
            0 <= i < after.len() && 0 <= j < after.len() && i != j implies (#[trigger] after[i]).id
            != (#[trigger] after[j]).id by {
            let from_i = if i < at { i } else { i + 1 };
            let from_j = if j < at { j } else { j + 1 };
            assert(after[i] == calls[from_i]);
            assert(after[j] == calls[from_j]);
        }
    }
}

/// A listing shows an id exactly when a call waits under it.
pub proof fn lemma_listing_shows_waiting(calls: Seq<ToolCallView>, id: Seq<char>)
    ensures
        has_id(calls, id) <==> exists|i: int|
            0 <= i < listing(calls).len() && (#[trigger] listing(calls)[i]).id == id,
{
    if has_id(calls, id) {
        let at = slot_of(calls, id);
        assert(listing(calls)[at].id == id);
    }
    if exists|i: int| 0 <= i < listing(calls).len() && (#[trigger] listing(calls)[i]).id == id {
        let at = choose|i: int|
            0 <= i < listing(calls).len() && (#[trigger] listing(calls)[i]).id == id;
        assert(calls[at].id == id);
    }
}

/// A stored call waits under its id, and a listing shows it, whatever waited
/// under that id before.
pub proof fn lemma_inserted_waits(calls: Seq<ToolCallView>, call: ToolCallView)
    requires
        distinct_ids(calls),
    ensures
        lookup(inserted(calls, call), call.id) == Some(call),
        listing(inserted(calls, call)).contains(item_of(call)),
        inserted(calls, call).len() == if has_id(calls, call.id) {
            calls.len()
        } else {
            calls.len() + 1
        },
{
    let after = inserted(calls, call);
    let at = if has_id(calls, call.id) {
        slot_of(calls, call.id)
    } else {
        calls.len() as int
    };
    assert(after[at] == call);
    lemma_inserted_distinct(calls, call);
    lemma_slot_is_unique(after, call.id, at);
    assert(listing(after)[at] == item_of(call));
}

/// Storing a call leaves the calls under every other id as they were.
pub proof fn lemma_inserted_keeps_others(
    calls: Seq<ToolCallView>,
    call: ToolCallView,
    id: Seq<char>,
)
    requires
        distinct_ids(calls),
        id != call.id,
    ensures
        lookup(inserted(calls, call), id) == lookup(calls, id),
{
    let after = inserted(calls, call);
    lemma_inserted_distinct(calls, call);
    if has_id(calls, id) {
        let at = slot_of(calls, id);
        assert(after[at] == calls[at]);
        lemma_slot_is_unique(after, id, at);
    } else if has_id(after, id) {
        let at = slot_of(after, id);
        if at < calls.len() {
            assert(calls[at].id == id);
        }
    }
}

/// Taking out a call leaves the calls under every other id as they were.
pub proof fn lemma_removed_keeps_others(calls: Seq<ToolCallView>, gone: Seq<char>, id: Seq<char>)
    requires
        distinct_ids(calls),
        id != gone,
    ensures
        lookup(removed(calls, gone), id) == lookup(calls, id),
{
    let after = removed(calls, gone);
    lemma_removed_distinct(calls, gone);
    if has_id(calls, gone) {
        let hole = slot_of(calls, gone);
        if has_id(calls, id) {
            let at = slot_of(calls, id);
            let moved = if at < hole {
                at
            } else {
                at - 1
            };
            assert(after[moved] == calls[at]);
            lemma_slot_is_unique(after, id, moved);
        } else if has_id(after, id) {
            let at = slot_of(after, id);
            let from = if at < hole {
                at
            } else {
                at + 1
            };
            assert(calls[from].id == id);
        }
    }
}

/// Once a call is taken out, nothing waits under its id, no listing shows the
/// id, one call fewer waits, and taking it out again changes nothing.
pub proof fn lemma_removed_is_gone(calls: Seq<ToolCallView>, id: Seq<char>)
    requires
        distinct_ids(calls),
    ensures
        !has_id(removed(calls, id), id),
        lookup(removed(calls, id), id) is None,
        forall|i: int|
            0 <= i < listing(removed(calls, id)).len() ==> (#[trigger] listing(
                removed(calls, id),
            )[i]).id != id,
        removed(removed(calls, id), id) == removed(calls, id),
        removed(calls, id).len() == if has_id(calls, id) {
            calls.len() - 1
        } else {
            calls.len() as int
        },
{
    let after = removed(calls, id);
    if has_id(calls, id) {
        let hole = slot_of(calls, id);
        if has_id(after, id) {
            let at = slot_of(after, id);
            let from = if at < hole {
                at
            } else {
                at + 1
            };
            assert(calls[from].id == id);
        }
    }
    lemma_listing_shows_waiting(after, id);
}

/// The calls that wait for a decision, each under its own id.
pub struct PendingRegistry {
    calls: Vec<ToolCall>,
}

impl View for PendingRegistry {
    type V = Seq<ToolCallView>;

    /// The waiting calls, in the order in which their ids were first stored.
    closed spec fn view(&self) -> Seq<ToolCallView> {
        views(self.calls@)
    }
}

impl PendingRegistry {
    /// No two waiting calls share an id. Every registry that this module
    /// hands out is well formed, and its methods keep it so.
    pub open spec fn wf(&self) -> bool {
        distinct_ids(self@)
    }

    /// An empty registry.
    pub fn new() -> (registry: PendingRegistry)
        ensures
            registry.wf(),
            registry@ == Seq::<ToolCallView>::empty(),
    {
        let registry = PendingRegistry { calls: Vec::new() };
        assert(registry@ =~= Seq::<ToolCallView>::empty());
        registry
    }

    /// The number of waiting calls.
    pub fn len(&self) -> (count: usize)
        ensures
            count == self@.len(),
    {
        self.calls.len()
    }

    /// Where the call with this id is stored.
    fn position(&self, id: &String) -> (found: Option<usize>)
        requires
            self.wf(),
        ensures
            match found {
                Some(at) => at < self@.len() && self@[at as int].id == id@ && has_id(self@, id@)
                    && slot_of(self@, id@) == at,
                None => !has_id(self@, id@),
            },
    {
        let mut at: usize = 0;
        while at < self.calls.len()
            invariant
                at <= self.calls.len(),
                self@ == views(self.calls@),
                distinct_ids(self@),
                forall|k: int| 0 <= k < at ==> (#[trigger] self@[k]).id != id@,
            decreases self.calls.len() - at,
        {
            if self.calls[at].id == *id {
                proof {
                    lemma_slot_is_unique(self@, id@, at as int);
                }
                return Some(at);
            }
            at += 1;
        }
        None
    }

    /// Whether a call waits under this id.
    /// Stores `call` under its id. A call that already waits under that id is
    /// replaced: the last one stored wins.
    pub fn insert(&mut self, call: ToolCall)
        requires
            old(self).wf(),
        ensures
            final(self).wf(),
            final(self)@ == inserted(old(self)@, call@),
    {
        proof {
            lemma_inserted_distinct(old(self)@, call@);
        }
        match self.position(&call.id) {
            Some(at) => {
                self.calls[at] = call;
                assert(self@ =~= inserted(old(self)@, call@));
            },
            None => {
                self.calls.push(call);
                assert(self@ =~= inserted(old(self)@, call@));
            },
        }
    }

    /// A snapshot of the waiting calls for display. The registry is unchanged.
    pub fn list(&self) -> (items: Vec<PendingItem>)
        ensures
            views(items@) == listing(self@),
    {
        let mut items: Vec<PendingItem> = Vec::new();
        let mut at: usize = 0;
        while at < self.calls.len()
            invariant
                at <= self.calls.len(),
                self@ == views(self.calls@),
                items@.len() == at,
                forall|k: int| 0 <= k < at ==> (#[trigger] items@[k])@ == item_of(self@[k]),
            decreases self.calls.len() - at,
        {
            let call = &self.calls[at];
            items.push(
                PendingItem { id: call.id.clone(), tool: call.tool.clone(), args: call.args.clone() },
            );
            at += 1;
        }
        assert(views(items@) =~= listing(self@));
        items
    }

    /// Takes out the call that waits under this id and hands it over. Only the
    /// caller that gets the call may run it; when nothing waits under the id,
    /// nothing changes.
    pub fn remove(&mut self, id: &str) -> (taken: Option<ToolCall>)
        requires
            old(self).wf(),
        ensures
            final(self).wf(),
            final(self)@ == removed(old(self)@, id@),
            match taken {
                Some(call) => lookup(old(self)@, id@) == Some(call@),
                None => lookup(old(self)@, id@) is None,
            },
    {
        proof {
            lemma_removed_distinct(old(self)@, id@);
        }
        let key = id.to_owned();
        match self.position(&key) {
            Some(at) => {
                let call = self.calls.remove(at);
                assert(self@ =~= removed(old(self)@, id@));
                Some(call)
            },
            None => None,
        }
    }
}

} // verus!
