use crate::libs::db::Model;
use crate::libs::db::{
    spec_after_save, spec_answer, spec_recorded_id, spec_save_action, SaveAction, SaveError, SaveEvent,
};
use crate::libs::model::page_element::{
    copy_elements, finish_element_save, spec_answers, spec_elements_copy, spec_decode_ref, spec_decode_refs, spec_element_after_save,
    spec_element_save_result, spec_stored_refs, ElementRef, PageElement, StoredRef,
    law_refs_read_back,
};
use crate::libs::oid::ObjectId;
use vstd::prelude::*;

verus! {

/// A titled group of links and folders shown on a page.
#[derive(Debug)]
pub struct Group {
    pub id: Option<ObjectId>,
    pub title: String,
    pub elements: Vec<PageElement>,
}

/// A group with its title taken as a sequence of characters.
pub struct GroupView {
    pub id: Option<ObjectId>,
    pub title: Seq<char>,
    pub elements: Seq<PageElement>,
}

impl View for Group {
    type V = GroupView;

    open spec fn view(&self) -> GroupView {
        GroupView { id: self.id, title: self.title@, elements: self.elements@ }
    }
}

/// The document a group is stored as: its elements are not embedded but
/// referred to by kind and identifier, each kept in its own collection.
#[derive(Debug)]
pub struct GroupDocument {
    pub id: Option<ObjectId>,
    pub title: String,
    pub elements: Vec<StoredRef>,
}

impl GroupDocument {
    /// Whether this is the document of `group`: same identifier and title, and
    /// one reference per element, in order.
    pub open spec fn describes(&self, group: Group) -> bool {
        &&& self.id == group.id
        &&& self.title@ == group.title@
        &&& self.elements@ == spec_stored_refs(group.elements@)
    }
}

impl Group {
    /// An empty group that has not been stored yet.
    pub fn new(title: String) -> (r: Group)
        ensures
            r.id is None,
            r.title == title,
            r.elements@ == Seq::<PageElement>::empty(),
    {
        Group { id: None, title, elements: Vec::new() }
    }

    /// Appends `element` after the group's other elements.
    pub fn add_element(&mut self, element: PageElement)
        ensures
            final(self).elements@ == old(self).elements@.push(element),
            final(self).id == old(self).id,
            final(self).title == old(self).title,
    {
        self.elements.push(element);
    }

    /// The document this group is stored as.
    pub fn as_document(&self) -> (d: GroupDocument)
        ensures
            d.describes(*self),
    {
        let mut refs: Vec<StoredRef> = Vec::new();
        let n = self.elements.len();
        for i in 0..n
            invariant
                n == self.elements.len(),
                refs.len() == i,
                forall|j: int|
                    0 <= j < i ==> refs@[j] == (#[trigger] self.elements@[j]).spec_stored_ref(),
        {
            refs.push(self.elements[i].stored_ref());
        }
        assert(refs@ =~= spec_stored_refs(self.elements@));
        GroupDocument { id: self.id, title: self.title.clone(), elements: refs }
    }

    /// The group that a stored document stands for, once the elements its
    /// references name have been fetched.
    pub fn from_stored(doc: GroupDocument, elements: Vec<PageElement>) -> (g: Group)
        ensures
            g.id == doc.id,
            g.title == doc.title,
            g.elements == elements,
    {
        Group { id: doc.id, title: doc.title, elements }
    }
}

/// The document of a group keeps the group's identifier and title, and refers
/// to each element, in its place, by that element's own kind and identifier.
pub proof fn law_group_document_names_elements(group: Group, doc: GroupDocument)
    requires
        doc.describes(group),
    ensures
        doc.id == group.id,
        doc.title@ == group.title@,
        doc.elements@.len() == group.elements@.len(),
        forall|i: int|
            0 <= i < group.elements@.len() ==> match #[trigger] group.elements@[i] {
                PageElement::Folder(f) => doc.elements@[i] == StoredRef::Folder(f.id),
                PageElement::Link(l) => doc.elements@[i] == StoredRef::Link(l.id),
            },
{
}

/// A group read back has the stored identifier and title and the fetched
/// elements, in the order they were fetched.
pub proof fn law_group_from_stored(doc: GroupDocument, elements: Vec<PageElement>)
    ensures
        spec_group_from_stored(doc, elements).id == doc.id,
        spec_group_from_stored(doc, elements).title == doc.title,
        spec_group_from_stored(doc, elements).elements == elements,
{
}

/// A group counts as saved exactly when it and each of its elements carry an
/// identifier.
pub proof fn law_group_saved(group: Group)
    ensures
        spec_group_saved(group) <==> (group.id is Some && forall|i: int|
            0 <= i < group.elements@.len() ==> match #[trigger] group.elements@[i] {
                PageElement::Folder(f) => f.id is Some,
                PageElement::Link(l) => l.id is Some,
            }),
{
    if group.id is Some && forall|i: int|
        0 <= i < group.elements@.len() ==> match #[trigger] group.elements@[i] {
            PageElement::Folder(f) => f.id is Some,
            PageElement::Link(l) => l.id is Some,
        } {
        assert forall|i: int| 0 <= i < group.elements@.len() implies (
        #[trigger] group.elements@[i].spec_id()) is Some by {
            match group.elements@[i] {
                PageElement::Folder(f) => {},
                PageElement::Link(l) => {},
            }
        }
    }
    if spec_group_saved(group) {
        assert forall|i: int| 0 <= i < group.elements@.len() implies match #[trigger] group.elements@[i] {
            PageElement::Folder(f) => f.id is Some,
            PageElement::Link(l) => l.id is Some,
        } by {
            assert(group.elements@[i].spec_id() is Some);
        }
    }
}

/// What a group reads back as: the stored document with its references
/// replaced by the fetched elements.
pub open spec fn spec_group_from_stored(doc: GroupDocument, elements: Vec<PageElement>) -> Group {
    Group { id: doc.id, title: doc.title, elements }
}

/// A stored group reads back as the group that was stored, when every element
/// carried an identifier at the time and fetching an element by its kind and
/// identifier gives back that element: the references read back name the
/// elements in order, and fetching them in that order rebuilds the group.
pub proof fn law_group_read_back(
    group: Group,
    doc: GroupDocument,
    fetch: spec_fn(ElementRef) -> PageElement,
    fetched: Vec<PageElement>,
)
    requires
        doc.describes(group),
        forall|i: int|
            0 <= i < group.elements@.len() ==> (#[trigger] group.elements@[i].spec_id()) is Some,
        forall|i: int|
            0 <= i < group.elements@.len() ==> fetch(
                spec_decode_ref(#[trigger] group.elements@[i].spec_stored_ref())->0,
            ) == group.elements@[i],
        spec_decode_refs(doc.elements@) matches Some(refs) && fetched@ == refs.map_values(fetch),
    ensures
        spec_decode_refs(doc.elements@) matches Some(refs) && refs.len() == group.elements@.len()
            && forall|i: int|
            0 <= i < refs.len() ==> spec_answers(#[trigger] refs[i], fetched@[i]),
        spec_group_from_stored(doc, fetched)@ == group@,
{
    law_refs_read_back(group.elements@);
    let refs = spec_decode_refs(doc.elements@)->0;
    assert forall|i: int| 0 <= i < refs.len() implies spec_answers(
        #[trigger] refs[i],
        fetched@[i],
    ) by {
        assert(group.elements@[i].spec_id() is Some);
        assert(Some(refs[i]) == spec_decode_ref(group.elements@[i].spec_stored_ref()));
    }
    assert(fetched@ =~= group.elements@) by {
        assert forall|i: int| 0 <= i < refs.len() implies fetched@[i] == group.elements@[i] by {
            assert(group.elements@[i].spec_id() is Some);
            assert(Some(refs[i]) == spec_decode_ref(group.elements@[i].spec_stored_ref()));
        }
    }
}

/// Whether `b` is a copy of group `a`: the same identifier and title, and a
/// copy of each element in the same place.
pub open spec fn spec_group_copy(a: Group, b: Group) -> bool {
    &&& a.id == b.id
    &&& a.title@ == b.title@
    &&& spec_elements_copy(a.elements@, b.elements@)
}

impl Clone for Group {
    /// A copy down to the elements of nested folders.
    fn clone(&self) -> (r: Self)
        ensures
            spec_group_copy(*self, r),
    {
        Group { id: self.id, title: self.title.clone(), elements: copy_elements(&self.elements) }
    }
}

/// A group whose elements have all been saved, and which has then been saved
/// itself, reads back as it was saved: it has an identifier, its document's
/// references can all be read back, and fetching the elements they name, when
/// fetching gives back what was saved, rebuilds the group.
pub proof fn law_saved_group_reads_back(
    group: Group,
    inserted: ObjectId,
    doc: GroupDocument,
    fetch: spec_fn(ElementRef) -> PageElement,
    fetched: Vec<PageElement>,
)
    requires
        spec_all_saved(group.elements@),
        doc.describes(spec_after_save(group, spec_answer(spec_save_action(group.id), inserted))),
        forall|i: int|
            0 <= i < group.elements@.len() ==> fetch(
                spec_decode_ref(#[trigger] group.elements@[i].spec_stored_ref())->0,
            ) == group.elements@[i],
        fetched@ == spec_decode_refs(doc.elements@)->0.map_values(fetch),
    ensures
        ({
            let saved = spec_after_save(group, spec_answer(spec_save_action(group.id), inserted));
            &&& saved.id is Some
            &&& saved.elements == group.elements
            &&& saved.title == group.title
            &&& spec_decode_refs(doc.elements@) is Some
            &&& spec_group_from_stored(doc, fetched)@ == saved@
        }),
{
    let saved = spec_after_save(group, spec_answer(spec_save_action(group.id), inserted));
    crate::libs::db::law_save_assigns_id(group, inserted);
    law_refs_read_back(saved.elements@);
    law_group_read_back(saved, doc, fetch, fetched);
}

/// Whether every element of `elements` carries an identifier.
pub open spec fn spec_all_saved(elements: Seq<PageElement>) -> bool {
    forall|i: int| 0 <= i < elements.len() ==> (#[trigger] elements[i].spec_id()) is Some
}

/// Whether `group` and every element of it carry an identifier, as they do
/// once the group has been saved.
pub open spec fn spec_group_saved(group: Group) -> bool {
    group.id is Some && spec_all_saved(group.elements@)
}

impl Group {
    /// Whether the group and every element of it carry an identifier.
    pub fn is_saved(&self) -> (r: bool)
        ensures
            r == spec_group_saved(*self),
    {
        if self.id.is_none() {
            return false;
        }
        let n = self.elements.len();
        for i in 0..n
            invariant
                n == self.elements.len(),
                forall|j: int| 0 <= j < i ==> (#[trigger] self.elements@[j].spec_id()) is Some,
        {
            if self.elements[i].id().is_none() {
                return false;
            }
        }
        true
    }
}

/// Saves a group's elements one after the other, before the group itself.
///
/// The caller asks [`GroupSaver::next_action`] how the next element is saved,
/// has the database carry that out on [`GroupSaver::next_element`], and hands
/// the answer to [`GroupSaver::record`], until no action is left or recording
/// fails; [`GroupSaver::into_group`] then gives the group back, to be saved
/// itself.
pub struct GroupSaver {
    group: Group,
    next: usize,
}

impl GroupSaver {
    /// The group with the answers recorded so far.
    pub closed spec fn spec_group(&self) -> Group {
        self.group
    }

    /// How many elements have been saved.
    pub closed spec fn spec_next(&self) -> nat {
        self.next as nat
    }

    /// The saved elements are the first ones, and each carries an identifier.
    pub open spec fn wf(&self) -> bool {
        &&& self.spec_next() <= self.spec_group().elements@.len()
        &&& forall|i: int|
            0 <= i < self.spec_next() ==> (#[trigger] self.spec_group().elements@[i].spec_id()) is Some
    }

    /// Whether every element has been saved.
    pub open spec fn spec_done(&self) -> bool {
        self.spec_next() >= self.spec_group().elements@.len()
    }

    /// A saver that has saved nothing yet.
    pub fn new(group: Group) -> (r: GroupSaver)
        ensures
            r.wf(),
            r.spec_group() == group,
            r.spec_next() == 0,
    {
        GroupSaver { group, next: 0 }
    }

    /// The element to save next, or `None` once all are saved.
    pub fn next_element(&self) -> (r: Option<&PageElement>)
        requires
            self.wf(),
        ensures
            self.spec_done() ==> r is None,
            !self.spec_done() ==> r == Some(&self.spec_group().elements@[self.spec_next() as int]),
    {
        if self.next < self.group.elements.len() {
            Some(&self.group.elements[self.next])
        } else {
            None
        }
    }

    /// How the next element is saved, or `None` once all are saved.
    pub fn next_action(&self) -> (r: Option<SaveAction>)
        requires
            self.wf(),
        ensures
            self.spec_done() ==> r is None,
            !self.spec_done() ==> r == Some(
                spec_save_action(self.spec_group().elements@[self.spec_next() as int].spec_id()),
            ),
    {
        if self.next < self.group.elements.len() {
            match self.group.elements[self.next].id() {
                None => Some(SaveAction::Insert),
                Some(x) => Some(SaveAction::Update(x)),
            }
        } else {
            None
        }
    }

    /// Records the database's answer to saving the next element. When the
    /// element then carries an identifier it counts as saved and the saver
    /// moves on; otherwise the error is reported and nothing changes.
    pub fn record(&mut self, event: SaveEvent) -> (r: Result<ObjectId, SaveError>)
        requires
            old(self).wf(),
            !old(self).spec_done(),
        ensures
            final(self).wf(),
            ({
                let i = old(self).spec_next() as int;
                let element = old(self).spec_group().elements@[i];
                &&& r == spec_element_save_result(element, event)
                &&& r is Ok ==> {
                    &&& final(self).spec_next() == old(self).spec_next() + 1
                    &&& final(self).spec_group().id == old(self).spec_group().id
                    &&& final(self).spec_group().title == old(self).spec_group().title
                    &&& final(self).spec_group().elements@ == old(self).spec_group().elements@.update(
                        i,
                        spec_element_after_save(element, event),
                    )
                }
                &&& r is Err ==> *final(self) == *old(self)
            }),
    {
        let i = self.next;
        let n = self.group.elements.len();
        assert(i < n);
        if let SaveEvent::Updated = event {
            if self.group.elements[i].id().is_none() {
                return Err(SaveError::NoIdAfterSaving);
            }
        }
        let ghost before = self.group.elements@;
        proof {
            if let SaveEvent::Inserted(x) = event {
                match before[i as int] {
                    PageElement::Folder(f) => f.lemma_id_read_back(Some(x)),
                    PageElement::Link(l) => l.lemma_id_read_back(Some(x)),
                }
            }
        }
        let element = self.group.elements.remove(i);
        let (saved, r) = finish_element_save(element, event);
        self.group.elements.insert(i, saved);
        assert(self.group.elements@ =~= before.update(i as int, saved));
        self.next = i + 1;
        r
    }

    /// The group with the answers recorded so far; once every element is
    /// saved, each carries an identifier and the group's document can be
    /// read back.
    pub fn into_group(self) -> (g: Group)
        requires
            self.wf(),
        ensures
            g == self.spec_group(),
            self.spec_done() ==> spec_all_saved(g.elements@),
            self.spec_done() ==> spec_decode_refs(spec_stored_refs(g.elements@)) is Some,
    {
        proof {
            law_refs_read_back(self.group.elements@);
        }
        self.group
    }
}

/// Giving a group an identifier, or recording the answer to saving it, sets
/// its identifier and keeps its title and elements.
pub proof fn law_group_id_changes_only_id(g: Group, id: Option<ObjectId>, event: SaveEvent)
    ensures
        g.spec_with_id(id).id == id,
        g.spec_with_id(id).title == g.title,
        g.spec_with_id(id).elements == g.elements,
        spec_after_save(g, event).id == spec_recorded_id(g.id, event),
        spec_after_save(g, event).title == g.title,
        spec_after_save(g, event).elements == g.elements,
{
}

impl Model for Group {
    open spec fn spec_id(&self) -> Option<ObjectId> {
        self.id
    }

    open spec fn spec_with_id(&self, id: Option<ObjectId>) -> Self {
        Group { id, ..*self }
    }

    open spec fn spec_collection() -> Seq<char> {
        "groups"@
    }

    proof fn lemma_id_read_back(&self, id: Option<ObjectId>) {
    }

    proof fn lemma_id_overwrite(&self, first: Option<ObjectId>, second: Option<ObjectId>) {
    }

    proof fn lemma_id_rewrite(&self) {
    }

    fn id(&self) -> (r: Option<ObjectId>) {
        self.id
    }

    fn set_id(&mut self, id: Option<ObjectId>) {
        self.id = id;
    }

    fn collection_name() -> (r: &'static str) {
        let r = "groups";
        proof {
            reveal_strlit("groups");
        }
        r
    }
}

} // verus!
