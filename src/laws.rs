use vstd::prelude::*;

use crate::codec::pretty_json_of;
use crate::dbdata::dump_reply;
use crate::error::DbError;
use crate::store::{
    delete_post, delete_result, dump_writes, get_result, insert_post, insert_result,
    modified_after_dump, update_post, update_result,
};

verus! {

/// Inserting an absent key succeeds, and a later `get` of that key returns
/// the inserted value.
pub proof fn law_insert_then_get(m: Map<Seq<char>, Seq<char>>, k: Seq<char>, v: Seq<char>)
    requires
        !m.contains_key(k),
    ensures
        insert_result(m, k) == Ok::<(), DbError>(()),
        get_result(insert_post(m, k, v), k) == Ok::<Seq<char>, DbError>(v),
{
}

/// Inserting a present key fails with `InsertKeyExist` and leaves the
/// records, and so the stored value, unchanged.
pub proof fn law_insert_existing(m: Map<Seq<char>, Seq<char>>, k: Seq<char>, v: Seq<char>)
    requires
        m.contains_key(k),
    ensures
        insert_result(m, k) == Err::<(), DbError>(DbError::InsertKeyExist),
        insert_post(m, k, v) == m,
        get_result(insert_post(m, k, v), k) == get_result(m, k),
{
}

/// Updating an absent key fails with `UpdateKeyNotExist`; updating with the
/// stored value fails with `UpdateValueMatch`; updating with another value
/// succeeds, and a later `get` returns the new value.
pub proof fn law_update(m: Map<Seq<char>, Seq<char>>, k: Seq<char>, v: Seq<char>)
    ensures
        !m.contains_key(k) ==> update_result(m, k, v) == Err::<(), DbError>(
            DbError::UpdateKeyNotExist,
        ),
        m.contains_key(k) && m[k] == v ==> update_result(m, k, v) == Err::<(), DbError>(
            DbError::UpdateValueMatch,
        ),
        m.contains_key(k) && m[k] != v ==> update_result(m, k, v) == Ok::<(), DbError>(())
            && get_result(update_post(m, k, v), k) == Ok::<Seq<char>, DbError>(v),
{
}

/// Deleting an absent key fails with `DeleteKeyNotExist`; deleting a present
/// key succeeds, and a later `get` of it fails with `GetKeyNotExist`.
pub proof fn law_delete(m: Map<Seq<char>, Seq<char>>, k: Seq<char>)
    ensures
        !m.contains_key(k) ==> delete_result(m, k) == Err::<(), DbError>(
            DbError::DeleteKeyNotExist,
        ),
        m.contains_key(k) ==> delete_result(m, k) == Ok::<(), DbError>(())
            && get_result(delete_post(m, k), k) == Err::<Seq<char>, DbError>(
            DbError::GetKeyNotExist,
        ),
{
}

/// Of two dumps in a row with no mutation between them, exactly one
/// produces a snapshot to write where the records were modified, and none
/// where they were not: a dump that produced its text leaves the flag clear,
/// so the next one answers `Ok(None)`.
pub proof fn law_dump_twice(
    m: Map<Seq<char>, Seq<char>>,
    modified: bool,
    first: Result<Option<String>, DbError>,
    second: Result<Option<String>, DbError>,
)
    requires
        dump_reply(m, modified, first),
        dump_reply(m, modified_after_dump(modified, first is Ok), second),
    ensures
        dump_writes(modified) ==> (first matches Ok(Some(t)) && t@ == pretty_json_of(m)),
        !dump_writes(modified) ==> first == Ok::<Option<String>, DbError>(None),
        second == Ok::<Option<String>, DbError>(None),
{
}

} // verus!
