use vstd::prelude::*;

verus! {

/// The domain error taxonomy.
#[derive(Debug, Clone)]
pub enum SceneError {
    /// The operation referenced an identifier with no live record.
    UnknownEntity(u64),
    /// A required input artifact (for example tessellation output) was absent
    /// or invalid.
    ResourceMissing(&'static str),
    /// The operation's preconditions on existing state were violated, for
    /// example a duplicate identifier on creation.
    InvalidState(&'static str),
    /// An underlying transport or storage failure, carried as its message.
    Io(String),
    /// The external rendering backend reported failure.
    Backend(&'static str),
}

pub type SceneResult<T> = Result<T, SceneError>;

} // verus!
