use crate::libs::db::{spec_after_save, spec_recorded_id, Model, SaveEvent};
use crate::libs::model::page_element::{copy_folder, spec_folder_copy, PageElement};
use crate::libs::oid::ObjectId;
use vstd::prelude::*;

verus! {

/// A titled folder of links and further folders.
#[derive(Debug)]
pub struct Folder {
    pub id: Option<ObjectId>,
    pub title: String,
    pub sub_title: String,
    pub elements: Vec<PageElement>,
}

impl Folder {
    /// An empty folder that has not been stored yet.
    pub fn new(title: String, sub_title: String) -> (r: Folder)
        ensures
            r.id is None,
            r.title == title,
            r.sub_title == sub_title,
            r.elements@ == Seq::<PageElement>::empty(),
    {
        Folder { id: None, title, sub_title, elements: Vec::new() }
    }

    /// Appends `element` after the folder's other elements.
    pub fn add_element(&mut self, element: PageElement)
        ensures
            final(self).elements@ == old(self).elements@.push(element),
            final(self).id == old(self).id,
            final(self).title == old(self).title,
            final(self).sub_title == old(self).sub_title,
    {
        self.elements.push(element);
    }
}

/// Whether two folders agree on every field but the identifier.
pub open spec fn spec_same_folder_fields(a: Folder, b: Folder) -> bool {
    &&& a.title == b.title
    &&& a.sub_title == b.sub_title
    &&& a.elements == b.elements
}

/// Giving a folder an identifier, or recording the answer to saving it, sets
/// its identifier and keeps its title, sub-title and elements.
pub proof fn law_folder_id_changes_only_id(f: Folder, id: Option<ObjectId>, event: SaveEvent)
    ensures
        f.spec_with_id(id).id == id,
        spec_same_folder_fields(f.spec_with_id(id), f),
        spec_after_save(f, event).id == spec_recorded_id(f.id, event),
        spec_same_folder_fields(spec_after_save(f, event), f),
{
}

impl Clone for Folder {
    /// A copy down to the elements of nested folders.
    fn clone(&self) -> (r: Self)
        ensures
            spec_folder_copy(*self, r),
    {
        copy_folder(self)
    }
}

impl Model for Folder {
    open spec fn spec_id(&self) -> Option<ObjectId> {
        self.id
    }

    open spec fn spec_with_id(&self, id: Option<ObjectId>) -> Self {
        Folder { id, ..*self }
    }

    open spec fn spec_collection() -> Seq<char> {
        "folders"@
    }

    proof fn lemma_id_read_back(&self, id: Option<ObjectId>) {
    }

    proof fn lemma_id_overwrite(&self, first: Option<ObjectId>, second: Option<ObjectId>) {
    }

    proof fn lemma_id_rewrite(&self) {
    }

    fn id(&self) -> (r: Option<ObjectId>) {
        self.id
    }

    fn set_id(&mut self, id: Option<ObjectId>) {
        self.id = id;
    }

    fn collection_name() -> (r: &'static str) {
        let r = "folders";
        proof {
            reveal_strlit("folders");
        }
        r
    }
}

} // verus!
