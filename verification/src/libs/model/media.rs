use crate::libs::db::{spec_after_save, spec_recorded_id, Model, SaveEvent};
use crate::libs::oid::ObjectId;
use vstd::prelude::*;

verus! {

/// The social network a media entry points to.
#[derive(Clone, Copy, Debug, PartialEq, Eq, Structural)]
pub enum MediaType {
    INSTAGRAM,
    FACEBOOK,
    WHATSAPP,
    LINKEDIN,
    BEHANCE,
    PINTEREST,
    TWITTER,
    MEDIUM,
}

/// A link to the owner's profile on a social network.
#[derive(Clone, Debug)]
pub struct Media {
    pub id: Option<ObjectId>,
    pub media_type: MediaType,
    pub link: String,
}

/// A media entry with its text taken as a sequence of characters.
pub struct MediaView {
    pub id: Option<ObjectId>,
    pub media_type: MediaType,
    pub link: Seq<char>,
}

impl View for Media {
    type V = MediaView;

    open spec fn view(&self) -> MediaView {
        MediaView { id: self.id, media_type: self.media_type, link: self.link@ }
    }
}

/// The views of a sequence of media entries.
pub open spec fn medias_view(medias: Seq<Media>) -> Seq<MediaView> {
    medias.map_values(|m: Media| m@)
}

/// The views of media entries are one per entry, each with the entry's
/// identifier, network and link text, in the same places.
pub proof fn law_medias_view(medias: Seq<Media>)
    ensures
        medias_view(medias).len() == medias.len(),
        forall|i: int|
            0 <= i < medias.len() ==> (#[trigger] medias_view(medias)[i]).id == medias[i].id
                && medias_view(medias)[i].media_type == medias[i].media_type
                && medias_view(medias)[i].link == medias[i].link@,
{
}

impl Media {
    /// A media entry that has not been stored yet.
    pub fn new(media_type: MediaType, link: String) -> (r: Media)
        ensures
            r.id is None,
            r.media_type == media_type,
            r.link == link,
    {
        Media { id: None, media_type, link }
    }

    /// A copy of this entry, field by field.
    pub fn copy(&self) -> (r: Media)
        ensures
            r@ == self@,
    {
        Media { id: self.id, media_type: self.media_type, link: self.link.clone() }
    }
}

/// Copies every entry of `medias`, in order.
pub fn copy_medias(medias: &Vec<Media>) -> (r: Vec<Media>)
    ensures
        medias_view(r@) == medias_view(medias@),
{
    let mut r: Vec<Media> = Vec::new();
    let n = medias.len();
    for i in 0..n
        invariant
            n == medias.len(),
            r.len() == i,
            forall|j: int| 0 <= j < i ==> #[trigger] r@[j]@ == medias@[j]@,
    {
        r.push(medias[i].copy());
    }
    assert(medias_view(r@) =~= medias_view(medias@));
    r
}

/// Giving a media entry an identifier, or recording the answer to saving it,
/// sets its identifier and keeps its network and link.
pub proof fn law_media_id_changes_only_id(m: Media, id: Option<ObjectId>, event: SaveEvent)
    ensures
        m.spec_with_id(id).id == id,
        m.spec_with_id(id).media_type == m.media_type,
        m.spec_with_id(id).link == m.link,
        spec_after_save(m, event).id == spec_recorded_id(m.id, event),
        spec_after_save(m, event).media_type == m.media_type,
        spec_after_save(m, event).link == m.link,
{
}

impl Model for Media {
    open spec fn spec_id(&self) -> Option<ObjectId> {
        self.id
    }

    open spec fn spec_with_id(&self, id: Option<ObjectId>) -> Self {
        Media { id, ..*self }
    }

    open spec fn spec_collection() -> Seq<char> {
        "medias"@
    }

    proof fn lemma_id_read_back(&self, id: Option<ObjectId>) {
    }

    proof fn lemma_id_overwrite(&self, first: Option<ObjectId>, second: Option<ObjectId>) {
    }

    proof fn lemma_id_rewrite(&self) {
    }

    fn id(&self) -> (r: Option<ObjectId>) {
        self.id
    }

    fn set_id(&mut self, id: Option<ObjectId>) {
        self.id = id;
    }

    fn collection_name() -> (r: &'static str) {
        let r = "medias";
        proof {
            reveal_strlit("medias");
        }
        r
    }
}

} // verus!
