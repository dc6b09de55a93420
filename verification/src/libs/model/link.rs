use crate::libs::db::{spec_after_save, spec_recorded_id, Model, SaveEvent};
use crate::libs::oid::ObjectId;
use vstd::prelude::*;

verus! {

/// What a link points to.
#[derive(Clone, Copy, Debug, PartialEq, Eq, Structural)]
pub enum LinkType {
    FILE,
    IMAGE,
    PAGE,
}

/// A titled link on a page; new links are public.
#[derive(Clone, Debug)]
pub struct Link {
    pub id: Option<ObjectId>,
    pub title: String,
    pub link: String,
    pub private: bool,
    pub l_type: LinkType,
}

impl Link {
    /// A link that has not been stored yet and is not private.
    pub fn new(title: String, link: String, l_type: LinkType) -> (r: Link)
        ensures
            r.id is None,
            r.title == title,
            r.link == link,
            !r.private,
            r.l_type == l_type,
    {
        Link { id: None, title, link, private: false, l_type }
    }
}

/// Whether two links agree on every field but the identifier.
pub open spec fn spec_same_link_fields(a: Link, b: Link) -> bool {
    &&& a.title == b.title
    &&& a.link == b.link
    &&& a.private == b.private
    &&& a.l_type == b.l_type
}

/// Giving a link an identifier, or recording the answer to saving it, sets
/// its identifier and keeps every other field: a saved link stays public or
/// private as it was.
pub proof fn law_link_id_changes_only_id(l: Link, id: Option<ObjectId>, event: SaveEvent)
    ensures
        l.spec_with_id(id).id == id,
        spec_same_link_fields(l.spec_with_id(id), l),
        spec_after_save(l, event).id == spec_recorded_id(l.id, event),
        spec_same_link_fields(spec_after_save(l, event), l),
{
}

impl Model for Link {
    open spec fn spec_id(&self) -> Option<ObjectId> {
        self.id
    }

    open spec fn spec_with_id(&self, id: Option<ObjectId>) -> Self {
        Link { id, ..*self }
    }

    open spec fn spec_collection() -> Seq<char> {
        "links"@
    }

    proof fn lemma_id_read_back(&self, id: Option<ObjectId>) {
    }

    proof fn lemma_id_overwrite(&self, first: Option<ObjectId>, second: Option<ObjectId>) {
    }

    proof fn lemma_id_rewrite(&self) {
    }

    fn id(&self) -> (r: Option<ObjectId>) {
        self.id
    }

    fn set_id(&mut self, id: Option<ObjectId>) {
        self.id = id;
    }

    fn collection_name() -> (r: &'static str) {
        let r = "links";
        proof {
            reveal_strlit("links");
        }
        r
    }
}

} // verus!
