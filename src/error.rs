use vstd::prelude::*;

verus! {

/// The file operation that an I/O failure interrupted.
#[derive(Clone, Copy, Debug, PartialEq, Eq, Structural)]
pub enum IoOp {
    CreateDir,
    Read,
    Write,
}

/// Why a store operation failed; each kind carries the underlying detail.
pub enum StoreError {
    /// The platform could not supply the application-data directory.
    DirectoryResolution(String),
    /// Creating the directory, reading or writing the file failed.
    Io(IoOp, String),
    /// The collection could not be encoded.
    Serialization(String),
    /// The stored document is not a valid collection.
    Deserialization(String),
    /// The database file could not be opened.
    Connection(String),
    /// A schema migration failed to apply.
    Schema(String),
    /// A row with the same id already exists.
    ConstraintViolation(String),
}

/// The one-line description of an error that crosses to the caller.
pub open spec fn error_message(e: StoreError) -> Seq<char> {
    match e {
        StoreError::DirectoryResolution(d) => d@,
        StoreError::Io(IoOp::CreateDir, d) => d@,
        StoreError::Io(IoOp::Read, d) => "Failed to read file: "@ + d@,
        StoreError::Io(IoOp::Write, d) => "Failed to write file: "@ + d@,
        StoreError::Serialization(d) => d@,
        StoreError::Deserialization(d) => "Failed to parse JSON: "@ + d@,
        StoreError::Connection(d) => "Failed to open database: "@ + d@,
        StoreError::Schema(d) => "Failed to apply migration: "@ + d@,
        StoreError::ConstraintViolation(d) => "Duplicate todo id: "@ + d@,
    }
}

/// `prefix` followed by `detail`.
fn prefixed(prefix: &str, detail: &String) -> (r: String)
    ensures
        r@ == prefix@ + detail@,
{
    let mut r = String::from_str(prefix);
    r.append(detail.as_str());
    r
}

impl StoreError {
    /// The description of this error as a string, for the caller to show.
    pub fn message(&self) -> (r: String)
        ensures
            r@ == error_message(*self),
    {
        match self {
            StoreError::DirectoryResolution(d) => d.clone(),
            StoreError::Io(IoOp::CreateDir, d) => d.clone(),
            StoreError::Io(IoOp::Read, d) => prefixed("Failed to read file: ", d),
            StoreError::Io(IoOp::Write, d) => prefixed("Failed to write file: ", d),
            StoreError::Serialization(d) => d.clone(),
            StoreError::Deserialization(d) => prefixed("Failed to parse JSON: ", d),
            StoreError::Connection(d) => prefixed("Failed to open database: ", d),
            StoreError::Schema(d) => prefixed("Failed to apply migration: ", d),
            StoreError::ConstraintViolation(d) => prefixed("Duplicate todo id: ", d),
        }
    }

    /// Whether the stored document was unreadable as a collection.
    pub fn is_deserialization(&self) -> (r: bool)
        ensures
            r == (*self is Deserialization),
    {
        match self {
            StoreError::Deserialization(_) => true,
            _ => false,
        }
    }
}

} // verus!
