use gudlink::libs::db::{finish_save, save_action, Model, SaveAction, SaveError, SaveEvent};
use gudlink::libs::model::folder::Folder;
use gudlink::libs::model::group::Group;
use gudlink::libs::model::link::{Link, LinkType};
use gudlink::libs::model::media::{Media, MediaType};
use gudlink::libs::model::page::Page;
use gudlink::libs::model::page_element::{decode_refs, ElementRef, ElementResolver, PageElement, StoredRef};
use gudlink::libs::model::subscription::SubType;
use gudlink::libs::oid::ObjectId;

fn oid(n: u8) -> ObjectId {
    let mut bytes = [7u8; 12];
    bytes[11] = n;
    ObjectId { bytes }
}

fn id_bytes(id: Option<ObjectId>) -> Option<[u8; 12]> {
    id.map(|x| x.bytes)
}

#[test]
fn new_model_is_inserted() {
    let l = Link::new("t".to_string(), "l".to_string(), LinkType::FILE);
    assert!(matches!(save_action(&l), SaveAction::Insert));
}

#[test]
fn stored_model_is_updated() {
    let mut l = Link::new("t".to_string(), "l".to_string(), LinkType::FILE);
    l.set_id(Some(oid(9)));
    match save_action(&l) {
        SaveAction::Update(x) => assert_eq!(x.bytes, oid(9).bytes),
        SaveAction::Insert => panic!("a stored link is updated"),
    }
}

#[test]
fn insertion_records_the_new_id() {
    let mut g = Group::new("g".to_string());
    let r = finish_save(&mut g, SaveEvent::Inserted(oid(3)));
    assert_eq!(r.map(|x| x.bytes), Ok(oid(3).bytes));
    assert_eq!(id_bytes(g.id), Some(oid(3).bytes));
    assert_eq!(g.title, "g");
}

#[test]
fn update_keeps_the_id() {
    let mut f = Folder::new("f".to_string(), "s".to_string());
    f.set_id(Some(oid(5)));
    let r = finish_save(&mut f, SaveEvent::Updated);
    assert_eq!(r.map(|x| x.bytes), Ok(oid(5).bytes));
    assert_eq!(id_bytes(f.id), Some(oid(5).bytes));
}

#[test]
fn update_of_unsaved_model_has_no_id() {
    let mut f = Folder::new("f".to_string(), "s".to_string());
    let r = finish_save(&mut f, SaveEvent::Updated);
    assert_eq!(r.map(|x| x.bytes), Err(SaveError::NoIdAfterSaving));
    assert!(f.id.is_none());
}

#[test]
fn second_save_updates_same_document() {
    let mut p = Page::new("p".to_string(), "h".to_string(), "".to_string());
    assert!(matches!(save_action(&p), SaveAction::Insert));
    let first = finish_save(&mut p, SaveEvent::Inserted(oid(1))).unwrap();
    match save_action(&p) {
        SaveAction::Update(x) => assert_eq!(x.bytes, first.bytes),
        SaveAction::Insert => panic!("a saved page is updated"),
    }
    let second = finish_save(&mut p, SaveEvent::Updated).unwrap();
    assert_eq!(second.bytes, oid(1).bytes);
}

fn sample_group() -> Group {
    let mut g = Group::new("Projects".to_string());
    let mut f = Folder::new("Folder".to_string(), "sub".to_string());
    f.id = Some(oid(10));
    let mut l = Link::new("Link".to_string(), "https://l".to_string(), LinkType::IMAGE);
    l.id = Some(oid(11));
    g.add_element(PageElement::Folder(f));
    g.add_element(PageElement::Link(l));
    g
}

#[test]
fn group_document_refers_to_elements() {
    let mut g = sample_group();
    g.id = Some(oid(20));
    let d = g.as_document();
    assert_eq!(id_bytes(d.id), Some(oid(20).bytes));
    assert_eq!(d.title, "Projects");
    assert_eq!(d.elements.len(), 2);
    assert!(matches!(d.elements[0], StoredRef::Folder(Some(x)) if x.bytes == oid(10).bytes));
    assert!(matches!(d.elements[1], StoredRef::Link(Some(x)) if x.bytes == oid(11).bytes));
}

#[test]
fn unsaved_element_is_stored_without_id() {
    let mut g = Group::new("g".to_string());
    g.add_element(PageElement::Link(Link::new("l".to_string(), "u".to_string(), LinkType::PAGE)));
    let d = g.as_document();
    assert!(matches!(d.elements[0], StoredRef::Link(None)));
    assert!(decode_refs(&d.elements).is_none());
}

#[test]
fn decode_refs_reads_kinds_and_ids() {
    let stored = vec![StoredRef::Link(Some(oid(1))), StoredRef::Folder(Some(oid(2)))];
    let refs = decode_refs(&stored).unwrap();
    assert_eq!(refs.len(), 2);
    assert!(matches!(refs[0], ElementRef::Link(x) if x.bytes == oid(1).bytes));
    assert!(matches!(refs[1], ElementRef::Folder(x) if x.bytes == oid(2).bytes));
}

#[test]
fn decode_refs_of_nothing_is_empty() {
    let refs = decode_refs(&vec![]).unwrap();
    assert!(refs.is_empty());
}

#[test]
fn decode_refs_fails_on_missing_folder_id() {
    let stored = vec![StoredRef::Link(Some(oid(1))), StoredRef::Folder(None)];
    assert!(decode_refs(&stored).is_none());
}

#[test]
fn resolver_asks_in_order_and_collects() {
    let refs = vec![ElementRef::Folder(oid(1)), ElementRef::Link(oid(2))];
    let mut r = ElementResolver::new(refs);
    match r.next_request() {
        Some(ElementRef::Folder(x)) => assert_eq!(x.bytes, oid(1).bytes),
        _ => panic!("the folder is asked for first"),
    }
    r.supply(PageElement::Folder(Folder::new("a".to_string(), "b".to_string())));
    match r.next_request() {
        Some(ElementRef::Link(x)) => assert_eq!(x.bytes, oid(2).bytes),
        _ => panic!("the link is asked for second"),
    }
    r.supply(PageElement::Link(Link::new("c".to_string(), "d".to_string(), LinkType::FILE)));
    assert!(r.next_request().is_none());
    let elements = r.into_elements();
    assert_eq!(elements.len(), 2);
    assert!(matches!(&elements[0], PageElement::Folder(f) if f.title == "a"));
    assert!(matches!(&elements[1], PageElement::Link(l) if l.title == "c"));
}

#[test]
fn resolver_with_no_refs_is_done() {
    let r = ElementResolver::new(vec![]);
    assert!(r.next_request().is_none());
    assert!(r.into_elements().is_empty());
}

fn fetch(r: ElementRef) -> PageElement {
    match r {
        ElementRef::Folder(x) => {
            let mut f = Folder::new("Folder".to_string(), "sub".to_string());
            f.id = Some(x);
            PageElement::Folder(f)
        }
        ElementRef::Link(x) => {
            let mut l = Link::new("Link".to_string(), "https://l".to_string(), LinkType::IMAGE);
            l.id = Some(x);
            PageElement::Link(l)
        }
    }
}

#[test]
fn stored_group_reads_back() {
    let mut g = sample_group();
    g.id = Some(oid(30));
    let d = g.as_document();
    let refs = decode_refs(&d.elements).unwrap();
    let mut r = ElementResolver::new(refs);
    while let Some(req) = r.next_request() {
        r.supply(fetch(req));
    }
    let back = Group::from_stored(d, r.into_elements());
    assert_eq!(id_bytes(back.id), Some(oid(30).bytes));
    assert_eq!(back.title, g.title);
    assert_eq!(back.elements.len(), 2);
    assert!(matches!(&back.elements[0], PageElement::Folder(f)
        if f.title == "Folder" && f.sub_title == "sub" && id_bytes(f.id) == Some(oid(10).bytes)));
    assert!(matches!(&back.elements[1], PageElement::Link(l)
        if l.title == "Link" && l.link == "https://l" && l.l_type == LinkType::IMAGE && id_bytes(l.id) == Some(oid(11).bytes)));
}

#[test]
fn page_document_refers_to_groups() {
    let mut p = Page::new("Me".to_string(), "me".to_string(), "logo".to_string());
    p.id = Some(oid(40));
    let mut g1 = Group::new("one".to_string());
    g1.id = Some(oid(41));
    p.add_group(g1);
    p.add_group(Group::new("two".to_string()));
    p.add_media(Media::new(MediaType::TWITTER, "t".to_string()));
    let d = p.as_document();
    assert_eq!(id_bytes(d.id), Some(oid(40).bytes));
    assert_eq!(d.title, "Me");
    assert_eq!(d.handle, "me");
    assert_eq!(d.logo, "logo");
    assert_eq!(d.groups.len(), 2);
    assert_eq!(id_bytes(d.groups[0]), Some(oid(41).bytes));
    assert!(d.groups[1].is_none());
    assert_eq!(d.medias.len(), 1);
    assert_eq!(d.medias[0].link, "t");
    assert_eq!(d.subscription.s_type(), SubType::BASIC);
}

#[test]
fn stored_page_reads_back_with_given_groups() {
    let mut p = Page::new("Me".to_string(), "me".to_string(), "logo".to_string());
    p.id = Some(oid(50));
    p.add_media(Media::new(MediaType::INSTAGRAM, "i".to_string()));
    let d = p.as_document();
    let back = Page::from_stored(d, vec![Group::new("loaded".to_string())]);
    assert_eq!(id_bytes(back.id), Some(oid(50).bytes));
    assert_eq!(back.title, "Me");
    assert_eq!(back.handle, "me");
    assert_eq!(back.logo, "logo");
    assert_eq!(back.medias.len(), 1);
    assert_eq!(back.medias[0].media_type, MediaType::INSTAGRAM);
    assert_eq!(back.groups.len(), 1);
    assert_eq!(back.groups[0].title, "loaded");
}
