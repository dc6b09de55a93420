use crate::libs::db::{spec_after_save, spec_recorded_id, Model, SaveEvent};
use crate::libs::oid::ObjectId;
use vstd::prelude::*;

verus! {

/// The plan a page is on.
#[derive(Clone, Copy, Debug, PartialEq, Eq, Structural)]
pub enum SubType {
    BASIC,
}

/// The subscription attached to a page.
#[derive(Clone, Copy, Debug)]
pub struct Subscription {
    id: Option<ObjectId>,
    s_type: SubType,
}

impl Subscription {
    /// A basic subscription that has not been stored yet.
    pub fn new() -> (r: Subscription)
        ensures
            r.spec_id() is None,
            r.spec_s_type() == SubType::BASIC,
    {
        Subscription { id: None, s_type: SubType::BASIC }
    }

    /// The plan of this subscription.
    pub closed spec fn spec_s_type(&self) -> SubType {
        self.s_type
    }

    /// The plan of this subscription.
    pub fn s_type(&self) -> (r: SubType)
        ensures
            r == self.spec_s_type(),
    {
        self.s_type
    }
}

/// Giving a subscription an identifier keeps its plan.
pub proof fn lemma_with_id_keeps_plan(s: Subscription, id: Option<ObjectId>)
    ensures
        s.spec_with_id(id).spec_s_type() == s.spec_s_type(),
{
}

/// Giving a subscription an identifier, or recording the answer to saving
/// it, sets its identifier and keeps its plan.
pub proof fn law_subscription_id_changes_only_id(s: Subscription, id: Option<ObjectId>, event: SaveEvent)
    ensures
        s.spec_with_id(id).spec_id() == id,
        s.spec_with_id(id).spec_s_type() == s.spec_s_type(),
        spec_after_save(s, event).spec_id() == spec_recorded_id(s.spec_id(), event),
        spec_after_save(s, event).spec_s_type() == s.spec_s_type(),
{
}

impl Model for Subscription {
    closed spec fn spec_id(&self) -> Option<ObjectId> {
        self.id
    }

    closed spec fn spec_with_id(&self, id: Option<ObjectId>) -> Self {
        Subscription { id, ..*self }
    }

    open spec fn spec_collection() -> Seq<char> {
        "subscriptions"@
    }

    proof fn lemma_id_read_back(&self, id: Option<ObjectId>) {
    }

    proof fn lemma_id_overwrite(&self, first: Option<ObjectId>, second: Option<ObjectId>) {
    }

    proof fn lemma_id_rewrite(&self) {
    }

    fn id(&self) -> (r: Option<ObjectId>) {
        self.id
    }

    fn set_id(&mut self, id: Option<ObjectId>) {
        self.id = id;
    }

    fn collection_name() -> (r: &'static str) {
        let r = "subscriptions";
        proof {
            reveal_strlit("subscriptions");
        }
        r
    }
}

} // verus!
