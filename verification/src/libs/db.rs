use crate::libs::oid::ObjectId;
use vstd::prelude::*;

verus! {

/// A value that is stored as one document of a collection and is known there
/// by its identifier.
pub trait Model: Sized {
    /// The identifier the value carries; `None` until it has been inserted.
    spec fn spec_id(&self) -> Option<ObjectId>;

    /// The value with its identifier replaced by `id` and every other field kept.
    spec fn spec_with_id(&self, id: Option<ObjectId>) -> Self;

    /// The name of the collection that holds values of this type.
    spec fn spec_collection() -> Seq<char>;

    /// An identifier written with `spec_with_id` is the one read back.
    proof fn lemma_id_read_back(&self, id: Option<ObjectId>)
        ensures
            self.spec_with_id(id).spec_id() == id,
    ;

    /// Writing an identifier twice keeps only the second one.
    proof fn lemma_id_overwrite(&self, first: Option<ObjectId>, second: Option<ObjectId>)
        ensures
            self.spec_with_id(first).spec_with_id(second) == self.spec_with_id(second),
    ;

    /// Writing back the identifier a value already carries changes nothing.
    proof fn lemma_id_rewrite(&self)
        ensures
            self.spec_with_id(self.spec_id()) == *self,
    ;

    fn id(&self) -> (r: Option<ObjectId>)
        ensures
            r == self.spec_id(),
    ;

    fn set_id(&mut self, id: Option<ObjectId>)
        ensures
            *final(self) == old(self).spec_with_id(id),
    ;

    fn collection_name() -> (r: &'static str)
        ensures
            r@ == Self::spec_collection(),
    ;
}

/// What saving a model asks of the database.
#[derive(Clone, Copy, Debug)]
pub enum SaveAction {
    /// The model has no identifier yet: insert it as a new document.
    Insert,
    /// The model already carries this identifier: replace that document.
    Update(ObjectId),
}

/// What the database answered to a [`SaveAction`].
#[derive(Clone, Copy, Debug)]
pub enum SaveEvent {
    /// The document was inserted and received this identifier.
    Inserted(ObjectId),
    /// The document was replaced.
    Updated,
}

/// Why saving failed after the database had answered.
#[derive(Clone, Copy, Debug, PartialEq, Eq, Structural)]
pub enum SaveError {
    /// The model still has no identifier once the database has answered.
    NoIdAfterSaving,
}

/// The action that saving a model with identifier `id` takes.
pub open spec fn spec_save_action(id: Option<ObjectId>) -> SaveAction {
    match id {
        None => SaveAction::Insert,
        Some(x) => SaveAction::Update(x),
    }
}

/// The model once the database's answer has been recorded in it.
pub open spec fn spec_after_save<T: Model>(obj: T, event: SaveEvent) -> T {
    match event {
        SaveEvent::Inserted(x) => obj.spec_with_id(Some(x)),
        SaveEvent::Updated => obj,
    }
}

/// What saving reports once the answer has been recorded: the identifier the
/// model then carries.
pub open spec fn spec_save_result<T: Model>(obj: T, event: SaveEvent) -> Result<ObjectId, SaveError> {
    match spec_after_save(obj, event).spec_id() {
        Some(x) => Ok(x),
        None => Err(SaveError::NoIdAfterSaving),
    }
}

/// The answer that a database which carries out `action` gives, where an
/// insertion receives the identifier `inserted`.
pub open spec fn spec_answer(action: SaveAction, inserted: ObjectId) -> SaveEvent {
    match action {
        SaveAction::Insert => SaveEvent::Inserted(inserted),
        SaveAction::Update(_) => SaveEvent::Updated,
    }
}

/// The identifier a model carries once the database's answer to saving it is
/// recorded: the one an insertion received, or the one it had before an update.
pub open spec fn spec_recorded_id(before: Option<ObjectId>, event: SaveEvent) -> Option<ObjectId> {
    match event {
        SaveEvent::Inserted(x) => Some(x),
        SaveEvent::Updated => before,
    }
}

/// A model without an identifier is inserted; a model with one updates the
/// document of that identifier.
pub proof fn law_save_action(id: Option<ObjectId>)
    ensures
        spec_save_action(id) is Insert <==> id is None,
        forall|x: ObjectId| spec_save_action(id) == SaveAction::Update(x) <==> id == Some(x),
{
}

/// Recording the database's answer gives the model the recorded identifier,
/// and reports it when there is one.
pub proof fn law_save_records_id<T: Model>(obj: T, event: SaveEvent)
    ensures
        spec_after_save(obj, event).spec_id() == spec_recorded_id(obj.spec_id(), event),
        spec_save_result(obj, event) == (match spec_recorded_id(obj.spec_id(), event) {
            Some(x) => Ok(x),
            None => Err(SaveError::NoIdAfterSaving),
        }),
        event is Updated ==> spec_after_save(obj, event) == obj,
{
    if let SaveEvent::Inserted(x) = event {
        obj.lemma_id_read_back(Some(x));
    }
}

/// Decides how `obj` is saved: a model without an identifier is inserted, one
/// with an identifier replaces the document that has it.
pub fn save_action<T: Model>(obj: &T) -> (a: SaveAction)
    ensures
        a == spec_save_action(obj.spec_id()),
{
    match obj.id() {
        None => SaveAction::Insert,
        Some(x) => SaveAction::Update(x),
    }
}

/// Records the database's answer in `obj` and reports the identifier that it
/// carries afterwards.
pub fn finish_save<T: Model>(obj: &mut T, event: SaveEvent) -> (r: Result<ObjectId, SaveError>)
    ensures
        *final(obj) == spec_after_save(*old(obj), event),
        r == spec_save_result(*old(obj), event),
{
    match event {
        SaveEvent::Inserted(x) => {
            obj.set_id(Some(x));
        },
        SaveEvent::Updated => {},
    }
    match obj.id() {
        Some(x) => Ok(x),
        None => Err(SaveError::NoIdAfterSaving),
    }
}

/// Saving always leaves the model with an identifier and reports it: a model
/// that had one keeps it, a model that had none gets the one its insertion
/// received, and nothing but the identifier changes.
pub proof fn law_save_assigns_id<T: Model>(obj: T, inserted: ObjectId)
    ensures
        ({
            let event = spec_answer(spec_save_action(obj.spec_id()), inserted);
            let after = spec_after_save(obj, event);
            &&& spec_save_result(obj, event) is Ok
            &&& after.spec_id() == Some(spec_save_result(obj, event)->Ok_0)
            &&& (obj.spec_id() is Some ==> after == obj)
            &&& (obj.spec_id() is None ==> after == obj.spec_with_id(Some(inserted)))
        }),
{
    obj.lemma_id_read_back(Some(inserted));
}

/// Saving a model a second time, once the first save has given it an
/// identifier, updates that same document and leaves the model as it was.
pub proof fn law_save_twice_updates<T: Model>(obj: T, first: ObjectId, second: ObjectId)
    ensures
        ({
            let once = spec_after_save(obj, spec_answer(spec_save_action(obj.spec_id()), first));
            let action = spec_save_action(once.spec_id());
            let twice = spec_after_save(once, spec_answer(action, second));
            &&& action == SaveAction::Update(spec_save_result(obj, spec_answer(spec_save_action(obj.spec_id()), first))->Ok_0)
            &&& twice == once
        }),
{
    obj.lemma_id_read_back(Some(first));
}

} // verus!
