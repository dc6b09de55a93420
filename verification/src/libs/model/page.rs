use crate::libs::db::{spec_after_save, spec_recorded_id, Model, SaveEvent};
use crate::libs::model::group::{spec_group_copy, spec_group_saved, Group};
use crate::libs::model::page_element::PageElement;
use crate::libs::model::media::{copy_medias, medias_view, Media, MediaView};
use crate::libs::model::subscription::{SubType, Subscription};
use crate::libs::oid::ObjectId;
use vstd::prelude::*;

verus! {

/// A public page, reached by its handle, with its social media entries and its
/// groups of links.
#[derive(Debug)]
pub struct Page {
    pub id: Option<ObjectId>,
    pub title: String,
    pub handle: String,
    pub logo: String,
    pub medias: Vec<Media>,
    pub groups: Vec<Group>,
    pub subscription: Subscription,
}

/// A page with its text taken as sequences of characters.
pub struct PageView {
    pub id: Option<ObjectId>,
    pub title: Seq<char>,
    pub handle: Seq<char>,
    pub logo: Seq<char>,
    pub medias: Seq<MediaView>,
    pub groups: Seq<Group>,
    pub subscription: Subscription,
}

impl View for Page {
    type V = PageView;

    open spec fn view(&self) -> PageView {
        PageView {
            id: self.spec_id(),
            title: self.title@,
            handle: self.handle@,
            logo: self.logo@,
            medias: medias_view(self.medias@),
            groups: self.groups@,
            subscription: self.subscription,
        }
    }
}

/// The document a page is stored as: its media entries and subscription are
/// embedded, its groups are referred to by identifier.
#[derive(Debug)]
pub struct PageDocument {
    pub id: Option<ObjectId>,
    pub title: String,
    pub handle: String,
    pub logo: String,
    pub medias: Vec<Media>,
    pub groups: Vec<Option<ObjectId>>,
    pub subscription: Subscription,
}

/// The identifiers of `groups`, in order.
pub open spec fn spec_group_ids(groups: Seq<Group>) -> Seq<Option<ObjectId>> {
    groups.map_values(|g: Group| g.id)
}

impl PageDocument {
    /// Whether this is the document of `page`.
    pub open spec fn describes(&self, page: Page) -> bool {
        &&& self.id == page.spec_id()
        &&& self.title@ == page.title@
        &&& self.handle@ == page.handle@
        &&& self.logo@ == page.logo@
        &&& medias_view(self.medias@) == medias_view(page.medias@)
        &&& self.groups@ == spec_group_ids(page.groups@)
        &&& self.subscription == page.subscription
    }
}

impl Page {
    /// An empty page on the basic plan that has not been stored yet.
    pub fn new(title: String, handle: String, logo: String) -> (r: Page)
        ensures
            r.spec_id() is None,
            r.title == title,
            r.handle == handle,
            r.logo == logo,
            r.medias@ == Seq::<Media>::empty(),
            r.groups@ == Seq::<Group>::empty(),
            r.subscription.spec_id() is None,
            r.subscription.spec_s_type() == SubType::BASIC,
    {
        Page {
            id: None,
            title,
            handle,
            logo,
            medias: Vec::new(),
            groups: Vec::new(),
            subscription: Subscription::new(),
        }
    }

    /// Replaces the page's media entries.
    pub fn set_medias(&mut self, medias: Vec<Media>)
        ensures
            *final(self) == (Page { medias, ..*old(self) }),
    {
        self.medias = medias;
    }

    /// Replaces the page's groups.
    pub fn set_groups(&mut self, groups: Vec<Group>)
        ensures
            *final(self) == (Page { groups, ..*old(self) }),
    {
        self.groups = groups;
    }

    /// Appends `group` after the page's other groups.
    pub fn add_group(&mut self, group: Group)
        ensures
            final(self).groups@ == old(self).groups@.push(group),
            final(self).spec_id() == old(self).spec_id(),
            final(self).title == old(self).title,
            final(self).handle == old(self).handle,
            final(self).logo == old(self).logo,
            final(self).medias == old(self).medias,
            final(self).subscription == old(self).subscription,
    {
        self.groups.push(group);
    }

    /// Appends `media` after the page's other media entries.
    pub fn add_media(&mut self, media: Media)
        ensures
            final(self).medias@ == old(self).medias@.push(media),
            final(self).spec_id() == old(self).spec_id(),
            final(self).title == old(self).title,
            final(self).handle == old(self).handle,
            final(self).logo == old(self).logo,
            final(self).groups == old(self).groups,
            final(self).subscription == old(self).subscription,
    {
        self.medias.push(media);
    }

    /// The document this page is stored as.
    pub fn as_document(&self) -> (d: PageDocument)
        ensures
            d.describes(*self),
    {
        let mut ids: Vec<Option<ObjectId>> = Vec::new();
        let n = self.groups.len();
        for i in 0..n
            invariant
                n == self.groups.len(),
                ids.len() == i,
                forall|j: int| 0 <= j < i ==> ids@[j] == (#[trigger] self.groups@[j]).id,
        {
            ids.push(self.groups[i].id);
        }
        assert(ids@ =~= spec_group_ids(self.groups@));
        PageDocument {
            id: self.id,
            title: self.title.clone(),
            handle: self.handle.clone(),
            logo: self.logo.clone(),
            medias: copy_medias(&self.medias),
            groups: ids,
            subscription: self.subscription,
        }
    }

    /// The page that a stored document stands for, holding `groups` in place
    /// of the identifiers the document keeps.
    pub fn from_stored(doc: PageDocument, groups: Vec<Group>) -> (p: Page)
        ensures
            p == spec_page_from_stored(doc, groups),
    {
        Page {
            id: doc.id,
            title: doc.title,
            handle: doc.handle,
            logo: doc.logo,
            medias: doc.medias,
            groups,
            subscription: doc.subscription,
        }
    }
}

/// What a page reads back as: the stored document with `groups` in place of
/// the identifiers it keeps.
pub open spec fn spec_page_from_stored(doc: PageDocument, groups: Vec<Group>) -> Page {
    Page {
        id: doc.id,
        title: doc.title,
        handle: doc.handle,
        logo: doc.logo,
        medias: doc.medias,
        groups,
        subscription: doc.subscription,
    }
}

/// The identifiers of a sequence of groups are one per group, in the same
/// places.
pub proof fn law_group_ids(groups: Seq<Group>)
    ensures
        spec_group_ids(groups).len() == groups.len(),
        forall|i: int| 0 <= i < groups.len() ==> spec_group_ids(groups)[i] == (#[trigger] groups[i]).id,
{
}

/// The document of a page keeps the page's identifier, text, media entries and
/// subscription, and refers to each group, in its place, by that group's
/// identifier.
pub proof fn law_page_document(page: Page, doc: PageDocument)
    requires
        doc.describes(page),
    ensures
        doc.id == page.id,
        doc.title@ == page.title@,
        doc.handle@ == page.handle@,
        doc.logo@ == page.logo@,
        doc.medias@.len() == page.medias@.len(),
        forall|i: int|
            0 <= i < page.medias@.len() ==> (#[trigger] doc.medias@[i]).id == page.medias@[i].id
                && doc.medias@[i].media_type == page.medias@[i].media_type
                && doc.medias@[i].link@ == page.medias@[i].link@,
        doc.groups@.len() == page.groups@.len(),
        forall|i: int| 0 <= i < page.groups@.len() ==> doc.groups@[i] == (#[trigger] page.groups@[i]).id,
        doc.subscription == page.subscription,
{
    assert(medias_view(doc.medias@).len() == doc.medias@.len());
    assert(medias_view(page.medias@).len() == page.medias@.len());
    assert(spec_group_ids(page.groups@).len() == page.groups@.len());
    assert forall|i: int| 0 <= i < page.medias@.len() implies (#[trigger] doc.medias@[i]).id
        == page.medias@[i].id && doc.medias@[i].media_type == page.medias@[i].media_type
        && doc.medias@[i].link@ == page.medias@[i].link@ by {
        assert(medias_view(doc.medias@)[i] == medias_view(page.medias@)[i]);
    }
}

/// A page read back has the stored identifier, text, media entries and
/// subscription, and the groups given in place of its references.
pub proof fn law_page_from_stored(doc: PageDocument, groups: Vec<Group>)
    ensures
        ({
            let p = spec_page_from_stored(doc, groups);
            &&& p.id == doc.id
            &&& p.title == doc.title
            &&& p.handle == doc.handle
            &&& p.logo == doc.logo
            &&& p.medias == doc.medias
            &&& p.groups == groups
            &&& p.subscription == doc.subscription
        }),
{
}

/// A stored page is read back with every stored group in place of the
/// references it keeps. It reads back as the page that was stored exactly
/// when those groups are the page's own, as when the page's groups are all
/// the groups there are; its references are then their identifiers.
pub proof fn law_page_read_back(page: Page, doc: PageDocument, groups: Vec<Group>)
    requires
        doc.describes(page),
        groups@ == page.groups@,
    ensures
        spec_page_from_stored(doc, groups)@ == page@,
        doc.groups@ == spec_group_ids(groups@),
{
}

/// Whether `b` is a copy of page `a`: the same identifier, text, media
/// entries and subscription, and a copy of each group in the same place.
pub open spec fn spec_page_copy(a: Page, b: Page) -> bool {
    &&& a.id == b.id
    &&& a.title@ == b.title@
    &&& a.handle@ == b.handle@
    &&& a.logo@ == b.logo@
    &&& medias_view(a.medias@) == medias_view(b.medias@)
    &&& a.groups@.len() == b.groups@.len()
    &&& forall|i: int| 0 <= i < a.groups@.len() ==> spec_group_copy(#[trigger] a.groups@[i], b.groups@[i])
    &&& a.subscription == b.subscription
}

impl Clone for Page {
    /// A copy down to the elements of nested folders.
    fn clone(&self) -> (r: Self)
        ensures
            spec_page_copy(*self, r),
    {
        let mut groups: Vec<Group> = Vec::new();
        let n = self.groups.len();
        for i in 0..n
            invariant
                n == self.groups.len(),
                groups.len() == i,
                forall|j: int| 0 <= j < i ==> spec_group_copy(#[trigger] self.groups@[j], groups@[j]),
        {
            groups.push(self.groups[i].clone());
        }
        Page {
            id: self.id,
            title: self.title.clone(),
            handle: self.handle.clone(),
            logo: self.logo.clone(),
            medias: copy_medias(&self.medias),
            groups,
            subscription: self.subscription,
        }
    }
}

/// Saves a page's groups one after the other, before the page itself.
///
/// The caller takes the next group with [`PageSaver::take_group`], saves it
/// with its elements, and hands it back with [`PageSaver::give_back`]; a group
/// handed back saved counts as saved and the saver moves on. Once no group is
/// left, or saving one failed, [`PageSaver::into_page`] gives the page back.
pub struct PageSaver {
    page: Page,
    next: usize,
}

impl PageSaver {
    /// The page with the groups handed back so far.
    pub closed spec fn spec_page(&self) -> Page {
        self.page
    }

    /// How many groups have been saved.
    pub closed spec fn spec_next(&self) -> nat {
        self.next as nat
    }

    /// The saved groups are the first ones, and each is saved with its
    /// elements.
    pub open spec fn wf(&self) -> bool {
        &&& self.spec_next() <= self.spec_page().groups@.len()
        &&& forall|i: int|
            0 <= i < self.spec_next() ==> spec_group_saved(#[trigger] self.spec_page().groups@[i])
    }

    /// Whether every group has been saved.
    pub open spec fn spec_done(&self) -> bool {
        self.spec_next() >= self.spec_page().groups@.len()
    }

    /// A saver that has saved nothing yet.
    pub fn new(page: Page) -> (r: PageSaver)
        ensures
            r.wf(),
            r.spec_page() == page,
            r.spec_next() == 0,
    {
        PageSaver { page, next: 0 }
    }

    /// Whether a group is left to save.
    pub fn has_next(&self) -> (r: bool)
        requires
            self.wf(),
        ensures
            r == !self.spec_done(),
    {
        self.next < self.page.groups.len()
    }

    /// Takes the next group out of the page to be saved; an empty group
    /// stands in its place until it is handed back.
    pub fn take_group(&mut self) -> (g: Group)
        requires
            old(self).wf(),
            !old(self).spec_done(),
        ensures
            final(self).wf(),
            final(self).spec_next() == old(self).spec_next(),
            g == old(self).spec_page().groups@[old(self).spec_next() as int],
            final(self).spec_page().groups@.len() == old(self).spec_page().groups@.len(),
            ({
                let i = old(self).spec_next() as int;
                let stand_in = final(self).spec_page().groups@[i];
                &&& final(self).spec_page().groups@ == old(self).spec_page().groups@.update(i, stand_in)
                &&& stand_in.id is None
                &&& stand_in.title@ == Seq::<char>::empty()
                &&& stand_in.elements@ == Seq::<PageElement>::empty()
            }),
            final(self).spec_page().id == old(self).spec_page().id,
            final(self).spec_page().title == old(self).spec_page().title,
            final(self).spec_page().handle == old(self).spec_page().handle,
            final(self).spec_page().logo == old(self).spec_page().logo,
            final(self).spec_page().medias == old(self).spec_page().medias,
            final(self).spec_page().subscription == old(self).spec_page().subscription,
    {
        let i = self.next;
        let ghost before = self.page.groups@;
        let g = self.page.groups.remove(i);
        self.page.groups.insert(i, Group::new(String::new()));
        assert(self.page.groups@ =~= before.update(i as int, self.page.groups@[i as int]));
        g
    }

    /// Puts `group` back in the place of the group taken last; when it is
    /// saved with its elements the saver moves on to the next group.
    pub fn give_back(&mut self, group: Group)
        requires
            old(self).wf(),
            !old(self).spec_done(),
        ensures
            final(self).wf(),
            final(self).spec_page().groups@ == old(self).spec_page().groups@.update(
                old(self).spec_next() as int,
                group,
            ),
            final(self).spec_next() == if spec_group_saved(group) {
                old(self).spec_next() + 1
            } else {
                old(self).spec_next()
            },
            final(self).spec_page().id == old(self).spec_page().id,
            final(self).spec_page().title == old(self).spec_page().title,
            final(self).spec_page().handle == old(self).spec_page().handle,
            final(self).spec_page().logo == old(self).spec_page().logo,
            final(self).spec_page().medias == old(self).spec_page().medias,
            final(self).spec_page().subscription == old(self).spec_page().subscription,
    {
        let i = self.next;
        let n = self.page.groups.len();
        assert(i < n);
        let saved = group.is_saved();
        let ghost before = self.page.groups@;
        let _stand_in = self.page.groups.remove(i);
        self.page.groups.insert(i, group);
        assert(self.page.groups@ =~= before.update(i as int, group));
        if saved {
            self.next = i + 1;
        }
    }

    /// The page with the groups handed back so far; once every group is
    /// saved, each is saved with its elements and the page's document refers
    /// to every one of them by an identifier.
    pub fn into_page(self) -> (p: Page)
        requires
            self.wf(),
        ensures
            p == self.spec_page(),
            self.spec_done() ==> forall|i: int|
                0 <= i < p.groups@.len() ==> spec_group_saved(#[trigger] p.groups@[i]),
            self.spec_done() ==> forall|i: int|
                0 <= i < p.groups@.len() ==> (#[trigger] spec_group_ids(p.groups@)[i]) is Some,
    {
        self.page
    }
}

/// Whether two pages agree on every field but the identifier.
pub open spec fn spec_same_page_fields(a: Page, b: Page) -> bool {
    &&& a.title == b.title
    &&& a.handle == b.handle
    &&& a.logo == b.logo
    &&& a.medias == b.medias
    &&& a.groups == b.groups
    &&& a.subscription == b.subscription
}

/// Giving a page an identifier, or recording the answer to saving it, sets
/// its identifier and keeps its title, handle, logo, media entries, groups
/// and subscription.
pub proof fn law_page_id_changes_only_id(p: Page, id: Option<ObjectId>, event: SaveEvent)
    ensures
        p.spec_with_id(id).id == id,
        spec_same_page_fields(p.spec_with_id(id), p),
        spec_after_save(p, event).id == spec_recorded_id(p.id, event),
        spec_same_page_fields(spec_after_save(p, event), p),
{
}

impl Model for Page {
    open spec fn spec_id(&self) -> Option<ObjectId> {
        self.id
    }

    open spec fn spec_with_id(&self, id: Option<ObjectId>) -> Self {
        Page { id, ..*self }
    }

    open spec fn spec_collection() -> Seq<char> {
        "pages"@
    }

    proof fn lemma_id_read_back(&self, id: Option<ObjectId>) {
    }

    proof fn lemma_id_overwrite(&self, first: Option<ObjectId>, second: Option<ObjectId>) {
    }

    proof fn lemma_id_rewrite(&self) {
    }

    fn id(&self) -> (r: Option<ObjectId>) {
        self.id
    }

    fn set_id(&mut self, id: Option<ObjectId>) {
        self.id = id;
    }

    fn collection_name() -> (r: &'static str) {
        let r = "pages";
        proof {
            reveal_strlit("pages");
        }
        r
    }
}

} // verus!
