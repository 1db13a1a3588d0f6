use vstd::prelude::*;

verus! {

/// The ways an operation on the store can fail.
#[derive(Debug, Clone, Copy, PartialEq, Eq, Structural)]
pub enum DbError {
    /// The lock guarding the records could not be taken (a holder panicked).
    DatabaseError,
    /// `insert` on a key that is already present.
    InsertKeyExist,
    /// `update` on an absent key.
    UpdateKeyNotExist,
    /// `update` with the value that is already stored.
    UpdateValueMatch,
    /// `delete` on an absent key.
    DeleteKeyNotExist,
    /// `get` on an absent key.
    GetKeyNotExist,
    /// The records could not be encoded as a snapshot.
    SerializeFailure,
    /// A snapshot text could not be parsed.
    ParseFailure,
}

/// The HTTP status that answers an error: 500 where the store itself failed,
/// 400 where the request was refused.
pub open spec fn status_of(e: DbError) -> u16 {
    match e {
        DbError::DatabaseError | DbError::SerializeFailure | DbError::ParseFailure => 500,
        _ => 400,
    }
}

/// The response body that answers an error: empty where the store itself
/// failed.
pub open spec fn message_of(e: DbError) -> Seq<char> {
    match e {
        DbError::InsertKeyExist => "Error. INSERT operation: Key already exists.\n"@,
        DbError::UpdateKeyNotExist => "Error. UPDATE operation: Key does not exist.\n"@,
        DbError::UpdateValueMatch => "Error. UPDATE operation: Value matches content.\n"@,
        DbError::DeleteKeyNotExist => "Error. DELETE operation: Key does not exist.\n"@,
        DbError::GetKeyNotExist => "Error. GET operation: Key does not exist.\n"@,
        _ => ""@,
    }
}

impl DbError {
    /// The HTTP status for this error.
    pub fn http_status(&self) -> (r: u16)
        ensures
            r == status_of(*self),
    {
        match self {
            DbError::DatabaseError | DbError::SerializeFailure | DbError::ParseFailure => 500,
            _ => 400,
        }
    }

    /// The response body for this error.
    pub fn message(&self) -> (r: &'static str)
        ensures
            r@ == message_of(*self),
    {
        match self {
            DbError::InsertKeyExist => "Error. INSERT operation: Key already exists.\n",
            DbError::UpdateKeyNotExist => "Error. UPDATE operation: Key does not exist.\n",
            DbError::UpdateValueMatch => "Error. UPDATE operation: Value matches content.\n",
            DbError::DeleteKeyNotExist => "Error. DELETE operation: Key does not exist.\n",
            DbError::GetKeyNotExist => "Error. GET operation: Key does not exist.\n",
            _ => "",
        }
    }
}

} // verus!
