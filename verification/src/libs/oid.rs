use vstd::prelude::*;

verus! {

/// The twelve bytes that identify a stored document.
///
/// The database assigns one to every model when it is first inserted.
#[derive(Clone, Copy, Debug)]
pub struct ObjectId {
    pub bytes: [u8; 12],
}

} // verus!
