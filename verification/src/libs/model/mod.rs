pub mod folder;
pub mod group;
pub mod link;
pub mod media;
pub mod page;
pub mod page_element;
pub mod subscription;
pub mod user;
