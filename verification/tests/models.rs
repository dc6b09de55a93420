use gudlink::libs::db::Model;
use gudlink::libs::model::folder::Folder;
use gudlink::libs::model::group::Group;
use gudlink::libs::model::link::{Link, LinkType};
use gudlink::libs::model::media::{copy_medias, Media, MediaType};
use gudlink::libs::model::page::Page;
use gudlink::libs::model::page_element::PageElement;
use gudlink::libs::model::subscription::{SubType, Subscription};
use gudlink::libs::model::user::User;
use gudlink::libs::oid::ObjectId;

fn oid(n: u8) -> ObjectId {
    let mut bytes = [0u8; 12];
    bytes[11] = n;
    bytes[0] = 0x65;
    ObjectId { bytes }
}

fn id_bytes(id: Option<ObjectId>) -> Option<[u8; 12]> {
    id.map(|x| x.bytes)
}

#[test]
fn link_new_is_public_and_unsaved() {
    let l = Link::new("Docs".to_string(), "https://example.com/docs".to_string(), LinkType::PAGE);
    assert!(l.id.is_none());
    assert_eq!(l.title, "Docs");
    assert_eq!(l.link, "https://example.com/docs");
    assert!(!l.private);
    assert_eq!(l.l_type, LinkType::PAGE);
}

#[test]
fn media_new_is_unsaved() {
    let m = Media::new(MediaType::TWITTER, "https://twitter.com/someone".to_string());
    assert!(m.id.is_none());
    assert_eq!(m.media_type, MediaType::TWITTER);
    assert_eq!(m.link, "https://twitter.com/someone");
}

#[test]
fn media_copy_keeps_every_field() {
    let mut m = Media::new(MediaType::MEDIUM, "https://medium.com/@a".to_string());
    m.set_id(Some(oid(4)));
    let c = m.copy();
    assert_eq!(id_bytes(c.id), Some(oid(4).bytes));
    assert_eq!(c.media_type, MediaType::MEDIUM);
    assert_eq!(c.link, "https://medium.com/@a");
}

#[test]
fn copy_medias_keeps_order() {
    let medias = vec![
        Media::new(MediaType::INSTAGRAM, "i".to_string()),
        Media::new(MediaType::BEHANCE, "b".to_string()),
    ];
    let c = copy_medias(&medias);
    assert_eq!(c.len(), 2);
    assert_eq!(c[0].media_type, MediaType::INSTAGRAM);
    assert_eq!(c[0].link, "i");
    assert_eq!(c[1].media_type, MediaType::BEHANCE);
    assert_eq!(c[1].link, "b");
}

#[test]
fn subscription_new_is_basic() {
    let s = Subscription::new();
    assert!(s.id().is_none());
    assert_eq!(s.s_type(), SubType::BASIC);
}

#[test]
fn folder_new_is_empty() {
    let f = Folder::new("Work".to_string(), "things I made".to_string());
    assert!(f.id.is_none());
    assert_eq!(f.title, "Work");
    assert_eq!(f.sub_title, "things I made");
    assert!(f.elements.is_empty());
}

#[test]
fn folder_add_element_appends() {
    let mut f = Folder::new("Work".to_string(), "".to_string());
    f.add_element(PageElement::Link(Link::new("a".to_string(), "x".to_string(), LinkType::FILE)));
    f.add_element(PageElement::Folder(Folder::new("inner".to_string(), "".to_string())));
    assert_eq!(f.elements.len(), 2);
    assert!(matches!(&f.elements[0], PageElement::Link(l) if l.title == "a"));
    assert!(matches!(&f.elements[1], PageElement::Folder(g) if g.title == "inner"));
    assert_eq!(f.title, "Work");
}

#[test]
fn group_add_element_appends() {
    let mut g = Group::new("Links".to_string());
    assert!(g.id.is_none());
    assert!(g.elements.is_empty());
    g.add_element(PageElement::Link(Link::new("one".to_string(), "1".to_string(), LinkType::PAGE)));
    g.add_element(PageElement::Link(Link::new("two".to_string(), "2".to_string(), LinkType::IMAGE)));
    assert_eq!(g.elements.len(), 2);
    assert!(matches!(&g.elements[0], PageElement::Link(l) if l.title == "one"));
    assert!(matches!(&g.elements[1], PageElement::Link(l) if l.title == "two" && l.l_type == LinkType::IMAGE));
    assert_eq!(g.title, "Links");
}

#[test]
fn page_new_is_empty_and_basic() {
    let p = Page::new("Me".to_string(), "me".to_string(), "logo.png".to_string());
    assert!(p.id().is_none());
    assert_eq!(p.title, "Me");
    assert_eq!(p.handle, "me");
    assert_eq!(p.logo, "logo.png");
    assert!(p.medias.is_empty());
    assert!(p.groups.is_empty());
    assert!(p.subscription.id().is_none());
    assert_eq!(p.subscription.s_type(), SubType::BASIC);
}

#[test]
fn page_setters_and_adders() {
    let mut p = Page::new("Me".to_string(), "me".to_string(), "".to_string());
    p.add_media(Media::new(MediaType::FACEBOOK, "f".to_string()));
    p.add_group(Group::new("first".to_string()));
    assert_eq!(p.medias.len(), 1);
    assert_eq!(p.groups.len(), 1);
    p.set_medias(vec![
        Media::new(MediaType::WHATSAPP, "w".to_string()),
        Media::new(MediaType::LINKEDIN, "l".to_string()),
    ]);
    assert_eq!(p.medias.len(), 2);
    assert_eq!(p.medias[1].media_type, MediaType::LINKEDIN);
    p.set_groups(vec![]);
    assert!(p.groups.is_empty());
    p.add_group(Group::new("again".to_string()));
    assert_eq!(p.groups[0].title, "again");
    assert_eq!(p.title, "Me");
}

#[test]
fn user_new_has_no_pages() {
    let u = User::new("Ann".to_string(), "ann".to_string(), "secret".to_string(), "ann@example.com".to_string());
    assert!(u.id.is_none());
    assert_eq!(u.name, "Ann");
    assert_eq!(u.username, "ann");
    assert_eq!(u.password, "secret");
    assert_eq!(u.email, "ann@example.com");
    assert!(u.pages.is_empty());
}

#[test]
fn set_id_reads_back_on_every_model() {
    let mut l = Link::new("t".to_string(), "l".to_string(), LinkType::FILE);
    l.set_id(Some(oid(1)));
    assert_eq!(id_bytes(l.id()), Some(oid(1).bytes));
    l.set_id(Some(oid(2)));
    assert_eq!(id_bytes(l.id()), Some(oid(2).bytes));
    assert_eq!(l.title, "t");

    let mut m = Media::new(MediaType::PINTEREST, "p".to_string());
    m.set_id(Some(oid(3)));
    assert_eq!(id_bytes(m.id()), Some(oid(3).bytes));

    let mut s = Subscription::new();
    s.set_id(Some(oid(4)));
    assert_eq!(id_bytes(s.id()), Some(oid(4).bytes));
    assert_eq!(s.s_type(), SubType::BASIC);

    let mut f = Folder::new("f".to_string(), "s".to_string());
    f.set_id(Some(oid(5)));
    assert_eq!(id_bytes(f.id()), Some(oid(5).bytes));

    let mut g = Group::new("g".to_string());
    g.set_id(Some(oid(6)));
    assert_eq!(id_bytes(g.id()), Some(oid(6).bytes));
    g.set_id(None);
    assert!(g.id().is_none());

    let mut p = Page::new("p".to_string(), "h".to_string(), "".to_string());
    p.set_id(Some(oid(7)));
    assert_eq!(id_bytes(p.id()), Some(oid(7).bytes));

    let mut u = User::new("n".to_string(), "u".to_string(), "p".to_string(), "e".to_string());
    u.set_id(Some(oid(8)));
    assert_eq!(id_bytes(u.id()), Some(oid(8).bytes));
}

#[test]
fn collection_names() {
    assert_eq!(Link::collection_name(), "links");
    assert_eq!(Media::collection_name(), "medias");
    assert_eq!(Subscription::collection_name(), "subscriptions");
    assert_eq!(Folder::collection_name(), "folders");
    assert_eq!(Group::collection_name(), "groups");
    assert_eq!(Page::collection_name(), "pages");
    assert_eq!(User::collection_name(), "pages");
}

#[test]
fn user_page_ids_in_order() {
    let mut u = User::new("n".to_string(), "u".to_string(), "p".to_string(), "e".to_string());
    let mut p1 = Page::new("a".to_string(), "a".to_string(), "".to_string());
    p1.id = Some(oid(1));
    u.pages.push(p1);
    u.pages.push(Page::new("b".to_string(), "b".to_string(), "".to_string()));
    let ids = u.page_ids();
    assert_eq!(ids.len(), 2);
    assert_eq!(id_bytes(ids[0]), Some(oid(1).bytes));
    assert!(ids[1].is_none());
}
