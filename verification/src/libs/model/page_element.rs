use crate::libs::db::{
    finish_save, spec_after_save, spec_recorded_id, spec_save_result, Model, SaveError, SaveEvent,
};
use crate::libs::model::folder::Folder;
use crate::libs::model::link::Link;
use crate::libs::oid::ObjectId;
use vstd::prelude::*;

verus! {

/// One entry of a group or folder: a folder or a link.
#[derive(Debug)]
pub enum PageElement {
    Folder(Folder),
    Link(Link),
}

/// How a stored group refers to one of its elements: by kind and by the
/// identifier the element carried when the group was stored.
#[derive(Clone, Copy, Debug)]
pub enum StoredRef {
    Folder(Option<ObjectId>),
    Link(Option<ObjectId>),
}

/// A reference read back from a stored group, which names an element that
/// can be fetched: its kind and its identifier.
#[derive(Clone, Copy, Debug)]
pub enum ElementRef {
    Folder(ObjectId),
    Link(ObjectId),
}

impl PageElement {
    /// The identifier of the folder or link.
    pub open spec fn spec_id(&self) -> Option<ObjectId> {
        match self {
            PageElement::Folder(f) => f.id,
            PageElement::Link(l) => l.id,
        }
    }

    /// The reference a stored group keeps for this element.
    pub open spec fn spec_stored_ref(&self) -> StoredRef {
        match self {
            PageElement::Folder(f) => StoredRef::Folder(f.id),
            PageElement::Link(l) => StoredRef::Link(l.id),
        }
    }

    /// The identifier of the folder or link.
    pub fn id(&self) -> (r: Option<ObjectId>)
        ensures
            r == self.spec_id(),
    {
        match self {
            PageElement::Folder(f) => f.id,
            PageElement::Link(l) => l.id,
        }
    }

    /// The reference a stored group keeps for this element.
    pub fn stored_ref(&self) -> (r: StoredRef)
        ensures
            r == self.spec_stored_ref(),
    {
        match self {
            PageElement::Folder(f) => StoredRef::Folder(f.id),
            PageElement::Link(l) => StoredRef::Link(l.id),
        }
    }
}

/// Whether `b` is a copy of link `a`: the same fields, text by content.
pub open spec fn spec_link_copy(a: Link, b: Link) -> bool {
    &&& a.id == b.id
    &&& a.title@ == b.title@
    &&& a.link@ == b.link@
    &&& a.private == b.private
    &&& a.l_type == b.l_type
}

/// Whether `b` is a copy of element `a`: the same kind, and a copy of the
/// folder or link it holds.
pub open spec fn spec_element_copy(a: PageElement, b: PageElement) -> bool
    decreases a, 1nat,
{
    match a {
        PageElement::Folder(f) => match b {
            PageElement::Folder(g) => spec_folder_copy(f, g),
            PageElement::Link(_) => false,
        },
        PageElement::Link(l) => match b {
            PageElement::Link(m) => spec_link_copy(l, m),
            PageElement::Folder(_) => false,
        },
    }
}

/// Whether `b` is a copy of folder `a`: the same identifier and text, and a
/// copy of each element in the same place.
pub open spec fn spec_folder_copy(a: Folder, b: Folder) -> bool
    decreases a, 0nat,
{
    &&& a.id == b.id
    &&& a.title@ == b.title@
    &&& a.sub_title@ == b.sub_title@
    &&& spec_elements_copy(a.elements@, b.elements@)
}

/// Whether `b` holds a copy of each element of `a`, in the same places.
pub open spec fn spec_elements_copy(a: Seq<PageElement>, b: Seq<PageElement>) -> bool
    decreases a, 2nat,
{
    &&& a.len() == b.len()
    &&& forall|i: int| 0 <= i < a.len() ==> spec_element_copy(#[trigger] a[i], b[i])
}

/// A copy of link `l`, field by field.
pub fn copy_link(l: &Link) -> (r: Link)
    ensures
        spec_link_copy(*l, r),
{
    Link {
        id: l.id,
        title: l.title.clone(),
        link: l.link.clone(),
        private: l.private,
        l_type: l.l_type,
    }
}

/// A copy of `e`, down to the elements of nested folders.
pub fn copy_element(e: &PageElement) -> (r: PageElement)
    ensures
        spec_element_copy(*e, r),
    decreases *e, 1nat,
{
    match e {
        PageElement::Folder(f) => PageElement::Folder(copy_folder(f)),
        PageElement::Link(l) => PageElement::Link(copy_link(l)),
    }
}

/// A copy of folder `f`, down to the elements of nested folders.
pub fn copy_folder(f: &Folder) -> (r: Folder)
    ensures
        spec_folder_copy(*f, r),
    decreases *f, 0nat,
{
    Folder {
        id: f.id,
        title: f.title.clone(),
        sub_title: f.sub_title.clone(),
        elements: copy_elements(&f.elements),
    }
}

/// A copy of each element of `v`, in order.
pub fn copy_elements(v: &Vec<PageElement>) -> (r: Vec<PageElement>)
    ensures
        spec_elements_copy(v@, r@),
    decreases v@, 2nat,
{
    let mut r: Vec<PageElement> = Vec::new();
    let n = v.len();
    for i in 0..n
        invariant
            n == v.len(),
            r.len() == i,
            forall|j: int| 0 <= j < i ==> spec_element_copy(#[trigger] v@[j], r@[j]),
    {
        proof {
            assert(decreases_to!(v@ => v@[i as int]));
        }
        r.push(copy_element(&v[i]));
    }
    r
}

impl Clone for PageElement {
    /// A copy down to the elements of nested folders.
    fn clone(&self) -> (r: Self)
        ensures
            spec_element_copy(*self, r),
    {
        copy_element(self)
    }
}

/// The element once the database's answer to its save has been recorded in it.
pub open spec fn spec_element_after_save(element: PageElement, event: SaveEvent) -> PageElement {
    match element {
        PageElement::Folder(f) => PageElement::Folder(spec_after_save(f, event)),
        PageElement::Link(l) => PageElement::Link(spec_after_save(l, event)),
    }
}

/// What saving the element reports once the database's answer is recorded.
pub open spec fn spec_element_save_result(element: PageElement, event: SaveEvent) -> Result<
    ObjectId,
    SaveError,
> {
    match element {
        PageElement::Folder(f) => spec_save_result(f, event),
        PageElement::Link(l) => spec_save_result(l, event),
    }
}

/// Records the database's answer to saving `element` in the folder or link
/// it holds, as saving that model does.
pub fn finish_element_save(element: PageElement, event: SaveEvent) -> (r: (
    PageElement,
    Result<ObjectId, SaveError>,
))
    ensures
        r.0 == spec_element_after_save(element, event),
        r.1 == spec_element_save_result(element, event),
        r.0.spec_id() == (match r.1 {
            Ok(x) => Some(x),
            Err(_) => element.spec_id(),
        }),
{
    match element {
        PageElement::Folder(mut f) => {
            let ghost before = f;
            proof {
                if let SaveEvent::Inserted(x) = event {
                    before.lemma_id_read_back(Some(x));
                }
            }
            let r = finish_save(&mut f, event);
            (PageElement::Folder(f), r)
        },
        PageElement::Link(mut l) => {
            let ghost before = l;
            proof {
                if let SaveEvent::Inserted(x) = event {
                    before.lemma_id_read_back(Some(x));
                }
            }
            let r = finish_save(&mut l, event);
            (PageElement::Link(l), r)
        },
    }
}

/// The reference stored for an element names that element's own kind and its
/// own identifier, whatever the element holds.
pub proof fn law_stored_ref_names_element(e: PageElement)
    ensures
        match e {
            PageElement::Folder(f) => e.spec_stored_ref() == StoredRef::Folder(f.id),
            PageElement::Link(l) => e.spec_stored_ref() == StoredRef::Link(l.id),
        },
        e.spec_id() == (match e {
            PageElement::Folder(f) => f.id,
            PageElement::Link(l) => l.id,
        }),
{
}

/// Recording the database's answer to saving an element keeps it the same
/// folder or link with every field but the identifier as it was, and gives
/// it the recorded identifier.
pub proof fn law_element_save_changes_only_id(e: PageElement, event: SaveEvent)
    ensures
        match (e, spec_element_after_save(e, event)) {
            (PageElement::Folder(f), PageElement::Folder(g)) => {
                &&& g.id == spec_recorded_id(f.id, event)
                &&& g.title == f.title
                &&& g.sub_title == f.sub_title
                &&& g.elements == f.elements
            },
            (PageElement::Link(l), PageElement::Link(m)) => {
                &&& m.id == spec_recorded_id(l.id, event)
                &&& m.title == l.title
                &&& m.link == l.link
                &&& m.private == l.private
                &&& m.l_type == l.l_type
            },
            _ => false,
        },
        spec_element_save_result(e, event) == (match spec_recorded_id(e.spec_id(), event) {
            Some(x) => Ok(x),
            None => Err(SaveError::NoIdAfterSaving),
        }),
{
}

/// The references kept for a sequence of elements are one per element, each
/// naming its element's own kind and identifier, in the same places.
pub proof fn law_stored_refs(elements: Seq<PageElement>)
    ensures
        spec_stored_refs(elements).len() == elements.len(),
        forall|i: int|
            0 <= i < elements.len() ==> match #[trigger] elements[i] {
                PageElement::Folder(f) => spec_stored_refs(elements)[i] == StoredRef::Folder(f.id),
                PageElement::Link(l) => spec_stored_refs(elements)[i] == StoredRef::Link(l.id),
            },
{
}

/// An element answers a reference exactly when it is of the kind the
/// reference names.
pub proof fn law_answers(r: ElementRef, e: PageElement)
    ensures
        spec_answers(r, e) <==> ((r is Folder && e is Folder) || (r is Link && e is Link)),
{
}

/// A copy of a link has the same identifier, text, privacy and type.
pub proof fn law_link_copy(a: Link, b: Link)
    ensures
        spec_link_copy(a, b) <==> (a.id == b.id && a.title@ == b.title@ && a.link@ == b.link@
            && a.private == b.private && a.l_type == b.l_type),
{
}

/// A copy of an element is of the same kind with the same identifier; a copy
/// of a folder has its identifier, title and sub-title and a copy of each of
/// its elements in the same place.
pub proof fn law_element_copy(a: PageElement, b: PageElement, f: Folder, g: Folder)
    ensures
        spec_element_copy(a, b) ==> (a is Folder <==> b is Folder) && a.spec_id() == b.spec_id(),
        spec_element_copy(PageElement::Folder(f), PageElement::Folder(g)) <==> spec_folder_copy(f, g),
        spec_folder_copy(f, g) ==> {
            &&& f.id == g.id
            &&& f.title@ == g.title@
            &&& f.sub_title@ == g.sub_title@
            &&& f.elements@.len() == g.elements@.len()
            &&& forall|i: int|
                0 <= i < f.elements@.len() ==> spec_element_copy(
                    #[trigger] f.elements@[i],
                    g.elements@[i],
                )
        },
{
}

/// A stored reference reads back exactly when an identifier was stored with
/// it, and then names the same kind and that identifier.
pub proof fn law_decode_ref(r: StoredRef)
    ensures
        match r {
            StoredRef::Folder(Some(x)) => spec_decode_ref(r) == Some(ElementRef::Folder(x)),
            StoredRef::Link(Some(x)) => spec_decode_ref(r) == Some(ElementRef::Link(x)),
            _ => spec_decode_ref(r) is None,
        },
{
}

/// The references a stored group keeps for `elements`, in order.
pub open spec fn spec_stored_refs(elements: Seq<PageElement>) -> Seq<StoredRef> {
    elements.map_values(|e: PageElement| e.spec_stored_ref())
}

/// A stored reference read back: it names an element only when an identifier
/// was stored with it.
pub open spec fn spec_decode_ref(r: StoredRef) -> Option<ElementRef> {
    match r {
        StoredRef::Folder(Some(x)) => Some(ElementRef::Folder(x)),
        StoredRef::Link(Some(x)) => Some(ElementRef::Link(x)),
        _ => None,
    }
}

/// All stored references read back, or `None` when one of them has no
/// identifier.
pub open spec fn spec_decode_refs(stored: Seq<StoredRef>) -> Option<Seq<ElementRef>> {
    if forall|i: int| 0 <= i < stored.len() ==> (#[trigger] spec_decode_ref(stored[i])) is Some {
        Some(stored.map_values(|r: StoredRef| spec_decode_ref(r)->0))
    } else {
        None
    }
}

/// Whether `element` is of the kind that `r` asks for.
pub open spec fn spec_answers(r: ElementRef, element: PageElement) -> bool {
    match (r, element) {
        (ElementRef::Folder(_), PageElement::Folder(_)) => true,
        (ElementRef::Link(_), PageElement::Link(_)) => true,
        _ => false,
    }
}

/// Reads back the references of a stored group; `None` when one of them was
/// stored without an identifier.
pub fn decode_refs(stored: &Vec<StoredRef>) -> (r: Option<Vec<ElementRef>>)
    ensures
        r is Some <==> forall|i: int|
            0 <= i < stored@.len() ==> (#[trigger] spec_decode_ref(stored@[i])) is Some,
        r matches Some(v) ==> spec_decode_refs(stored@) == Some(v@),
        r is None ==> spec_decode_refs(stored@) is None,
{
    let mut out: Vec<ElementRef> = Vec::new();
    let n = stored.len();
    for i in 0..n
        invariant
            n == stored.len(),
            out.len() == i,
            forall|j: int| 0 <= j < i ==> (#[trigger] spec_decode_ref(stored@[j])) is Some,
            forall|j: int| 0 <= j < i ==> out@[j] == (#[trigger] spec_decode_ref(stored@[j]))->0,
    {
        let decoded = match stored[i] {
            StoredRef::Folder(Some(x)) => ElementRef::Folder(x),
            StoredRef::Link(Some(x)) => ElementRef::Link(x),
            _ => {
                assert(spec_decode_ref(stored@[i as int]) is None);
                return None;
            },
        };
        out.push(decoded);
    }
    assert(out@ =~= stored@.map_values(|r: StoredRef| spec_decode_ref(r)->0));
    Some(out)
}

/// Reading back the references that were stored for `elements` succeeds
/// exactly when every element carried an identifier, and then names each
/// element by its own kind and identifier, in order.
pub proof fn law_refs_read_back(elements: Seq<PageElement>)
    ensures
        spec_decode_refs(spec_stored_refs(elements)) is Some <==> (forall|i: int|
            0 <= i < elements.len() ==> (#[trigger] elements[i].spec_id()) is Some),
        spec_decode_refs(spec_stored_refs(elements)) matches Some(refs) ==> {
            &&& refs.len() == elements.len()
            &&& forall|i: int|
                0 <= i < elements.len() ==> spec_answers(#[trigger] refs[i], elements[i])
                    && Some(refs[i]) == spec_decode_ref(elements[i].spec_stored_ref())
        },
{
    let stored = spec_stored_refs(elements);
    if forall|i: int| 0 <= i < elements.len() ==> (#[trigger] elements[i].spec_id()) is Some {
        assert forall|i: int| 0 <= i < stored.len() implies (#[trigger] spec_decode_ref(
            stored[i],
        )) is Some by {
            assert(elements[i].spec_id() is Some);
        }
    } else {
        let k = choose|i: int| 0 <= i < elements.len() && !((#[trigger] elements[i].spec_id()) is Some);
        assert(spec_decode_ref(stored[k]) is None);
    }
}

/// Fetches the elements of a stored group one reference at a time.
///
/// The caller asks [`ElementResolver::next_request`] which element to fetch,
/// fetches it and hands it to [`ElementResolver::supply`], until no request is
/// left; [`ElementResolver::into_elements`] then gives the elements in the
/// order of the references.
pub struct ElementResolver {
    refs: Vec<ElementRef>,
    resolved: Vec<PageElement>,
}

/// A resolver asks for the references in order: the request made next is the
/// reference at the place of the first element not yet supplied, and none is
/// made once every reference is answered. So supplying, for each request, the
/// element fetched for it yields the fetched elements in the order of the
/// references.
pub proof fn law_resolver_asks_in_order(
    r: ElementResolver,
    fetch: spec_fn(ElementRef) -> PageElement,
)
    requires
        r.wf(),
    ensures
        r.spec_resolved().len() < r.spec_refs().len() ==> r.spec_next() == Some(
            r.spec_refs()[r.spec_resolved().len() as int],
        ),
        r.spec_resolved().len() >= r.spec_refs().len() ==> r.spec_next() is None,
        ({
            let k = r.spec_resolved().len() as int;
            (k < r.spec_refs().len() && r.spec_resolved() == r.spec_refs().take(k).map_values(fetch))
                ==> r.spec_resolved().push(fetch(r.spec_next()->0)) == r.spec_refs().take(
                k + 1,
            ).map_values(fetch)
        }),
{
    let k = r.spec_resolved().len() as int;
    if k < r.spec_refs().len() && r.spec_resolved() == r.spec_refs().take(k).map_values(fetch) {
        assert(r.spec_resolved().push(fetch(r.spec_next()->0)) =~= r.spec_refs().take(
            k + 1,
        ).map_values(fetch));
    }
}

impl ElementResolver {
    /// The references to resolve, in order.
    pub closed spec fn spec_refs(&self) -> Seq<ElementRef> {
        self.refs@
    }

    /// The elements fetched so far, in the order of the references.
    pub closed spec fn spec_resolved(&self) -> Seq<PageElement> {
        self.resolved@
    }

    /// No more elements than references have been fetched, and each is of
    /// the kind its reference asks for.
    pub open spec fn wf(&self) -> bool {
        &&& self.spec_resolved().len() <= self.spec_refs().len()
        &&& forall|i: int|
            0 <= i < self.spec_resolved().len() ==> spec_answers(
                #[trigger] self.spec_refs()[i],
                self.spec_resolved()[i],
            )
    }

    /// The reference whose element is to be fetched next, if any is left.
    pub open spec fn spec_next(&self) -> Option<ElementRef> {
        if self.spec_resolved().len() < self.spec_refs().len() {
            Some(self.spec_refs()[self.spec_resolved().len() as int])
        } else {
            None
        }
    }

    /// A resolver that has fetched nothing yet.
    pub fn new(refs: Vec<ElementRef>) -> (r: ElementResolver)
        ensures
            r.wf(),
            r.spec_refs() == refs@,
            r.spec_resolved() == Seq::<PageElement>::empty(),
    {
        ElementResolver { refs, resolved: Vec::new() }
    }

    /// The element to fetch next, or `None` once every reference is resolved.
    pub fn next_request(&self) -> (r: Option<ElementRef>)
        requires
            self.wf(),
        ensures
            r == self.spec_next(),
    {
        if self.resolved.len() < self.refs.len() {
            Some(self.refs[self.resolved.len()])
        } else {
            None
        }
    }

    /// Records `element` as the answer to the pending request.
    pub fn supply(&mut self, element: PageElement)
        requires
            old(self).wf(),
            old(self).spec_next() matches Some(r) && spec_answers(r, element),
        ensures
            final(self).wf(),
            final(self).spec_refs() == old(self).spec_refs(),
            final(self).spec_resolved() == old(self).spec_resolved().push(element),
    {
        self.resolved.push(element);
    }

    /// The fetched elements, once every reference is resolved.
    pub fn into_elements(self) -> (r: Vec<PageElement>)
        requires
            self.wf(),
            self.spec_next() is None,
        ensures
            r@ == self.spec_resolved(),
            r@.len() == self.spec_refs().len(),
            forall|i: int| 0 <= i < r@.len() ==> spec_answers(#[trigger] self.spec_refs()[i], r@[i]),
    {
        self.resolved
    }
}

} // verus!
