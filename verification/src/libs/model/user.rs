use crate::libs::db::{spec_after_save, spec_recorded_id, Model, SaveEvent};
use crate::libs::model::page::{spec_page_copy, Page};
use crate::libs::oid::ObjectId;
use vstd::prelude::*;

verus! {

/// An account that owns pages.
#[derive(Debug)]
pub struct User {
    pub id: Option<ObjectId>,
    pub name: String,
    pub username: String,
    pub password: String,
    pub email: String,
    pub pages: Vec<Page>,
}

impl User {
    /// An account without pages that has not been stored yet.
    pub fn new(name: String, username: String, password: String, email: String) -> (r: User)
        ensures
            r.id is None,
            r.name == name,
            r.username == username,
            r.password == password,
            r.email == email,
            r.pages@ == Seq::<Page>::empty(),
    {
        User { id: None, name, username, password, email, pages: Vec::new() }
    }

    /// The identifiers of the user's pages, in order, as a stored user
    /// refers to them.
    pub fn page_ids(&self) -> (r: Vec<Option<ObjectId>>)
        ensures
            r@ == self.pages@.map_values(|p: Page| p.id),
    {
        let mut ids: Vec<Option<ObjectId>> = Vec::new();
        let n = self.pages.len();
        for i in 0..n
            invariant
                n == self.pages.len(),
                ids.len() == i,
                forall|j: int| 0 <= j < i ==> ids@[j] == (#[trigger] self.pages@[j]).id,
        {
            ids.push(self.pages[i].id);
        }
        assert(ids@ =~= self.pages@.map_values(|p: Page| p.id));
        ids
    }
}

impl Clone for User {
    /// A copy down to the elements of nested folders.
    fn clone(&self) -> (r: Self)
        ensures
            r.id == self.id,
            r.name@ == self.name@,
            r.username@ == self.username@,
            r.password@ == self.password@,
            r.email@ == self.email@,
            r.pages@.len() == self.pages@.len(),
            forall|i: int| 0 <= i < self.pages@.len() ==> spec_page_copy(#[trigger] self.pages@[i], r.pages@[i]),
    {
        let mut pages: Vec<Page> = Vec::new();
        let n = self.pages.len();
        for i in 0..n
            invariant
                n == self.pages.len(),
                pages.len() == i,
                forall|j: int| 0 <= j < i ==> spec_page_copy(#[trigger] self.pages@[j], pages@[j]),
        {
            pages.push(self.pages[i].clone());
        }
        User {
            id: self.id,
            name: self.name.clone(),
            username: self.username.clone(),
            password: self.password.clone(),
            email: self.email.clone(),
            pages,
        }
    }
}

/// Giving a user an identifier, or recording the answer to saving it, sets
/// its identifier and keeps every other field.
pub proof fn law_user_id_changes_only_id(u: User, id: Option<ObjectId>, event: SaveEvent)
    ensures
        u.spec_with_id(id).id == id,
        u.spec_with_id(id).name == u.name,
        u.spec_with_id(id).username == u.username,
        u.spec_with_id(id).password == u.password,
        u.spec_with_id(id).email == u.email,
        u.spec_with_id(id).pages == u.pages,
        spec_after_save(u, event).id == spec_recorded_id(u.id, event),
        spec_after_save(u, event).name == u.name,
        spec_after_save(u, event).username == u.username,
        spec_after_save(u, event).password == u.password,
        spec_after_save(u, event).email == u.email,
        spec_after_save(u, event).pages == u.pages,
{
}

impl Model for User {
    open spec fn spec_id(&self) -> Option<ObjectId> {
        self.id
    }

    open spec fn spec_with_id(&self, id: Option<ObjectId>) -> Self {
        User { id, ..*self }
    }

    /// Users are kept in the same collection as pages.
    open spec fn spec_collection() -> Seq<char> {
        "pages"@
    }

    proof fn lemma_id_read_back(&self, id: Option<ObjectId>) {
    }

    proof fn lemma_id_overwrite(&self, first: Option<ObjectId>, second: Option<ObjectId>) {
    }

    proof fn lemma_id_rewrite(&self) {
    }

    fn id(&self) -> (r: Option<ObjectId>) {
        self.id
    }

    fn set_id(&mut self, id: Option<ObjectId>) {
        self.id = id;
    }

    fn collection_name() -> (r: &'static str) {
        let r = "pages";
        proof {
            reveal_strlit("pages");
        }
        r
    }
}

} // verus!
