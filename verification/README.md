# gudlink

A link-page service: a user owns pages, a page has social media entries and
groups, and a group holds links and folders (which hold links and folders in
turn). Every model is stored as a document in a collection of its own.

- `src/` is the verified library (Verus):
  - `libs/oid.rs`: the identifier a document gets when it is inserted.
  - `libs/db.rs`: the `Model` trait (identifier, collection name) and how a
    save is decided and recorded, with its laws.
  - `libs/model/`: the models, their constructors and builders, the documents
    a group and a page are stored as, and how a stored group's references are
    read back and resolved into elements, how a group's elements and a page's
    groups are saved before the group or page itself, with the read-back laws.
  - `libs/routes.rs`, `libs/config.rs`: what the routes answer and the server
    settings.
- `app/` is the server around it: database round trips, serde forms of the
  models, templates and routes.
- `tests/` runs the library on concrete values.
