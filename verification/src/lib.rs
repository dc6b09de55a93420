//! Link pages: users own pages, pages hold groups of links and folders,
//! and every model is stored as a document in its own collection.
pub mod libs;
