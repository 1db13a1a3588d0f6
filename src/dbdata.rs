use vstd::prelude::*;

use std::sync::atomic::{AtomicU32, Ordering};
use std::sync::Mutex;

use crate::codec::{parsed_json_of, pretty_json_of};
use crate::error::DbError;
use crate::report::{render_statistics, report_text, Tallies};
use crate::store::{
    delete_post, delete_result, get_result, insert_post, insert_result, modified_after,
    modified_after_dump, update_post, update_result, value_view, DbMap,
};

verus! {

/// `std::sync::Mutex`, carried opaquely: what it guards is reached only
/// through `serve_locked`.
#[verifier::external_type_specification]
#[verifier::external_body]
#[verifier::reject_recursive_types(T)]
pub struct ExMutex<T: ?Sized>(Mutex<T>);

/// Relies on `std::sync::Mutex::new`: it wraps the value, unlocked; nothing
/// more is stated.
pub assume_specification<T>[ Mutex::<T>::new ](t: T) -> Mutex<T>;

/// One operation on the guarded store.
pub enum Request {
    Insert(String, String),
    Update(String, String),
    Delete(String),
    Get(String),
    Dump,
    Flush,
    MarkModified,
    Count,
}

/// What the guarded store answers to a `Request`.
pub enum Reply {
    Status(Result<(), DbError>),
    Value(Result<String, DbError>),
    Snapshot(Result<Option<String>, DbError>),
    Flushed(Result<String, DbError>),
    Records(usize),
}

/// The answer of a dump of the records `m` with modified flag `modified`.
pub open spec fn dump_reply(
    m: Map<Seq<char>, Seq<char>>,
    modified: bool,
    res: Result<Option<String>, DbError>,
) -> bool {
    &&& !modified ==> res == Ok::<Option<String>, DbError>(None)
    &&& modified ==> (res matches Ok(Some(t)) && t@ == pretty_json_of(m))
}

/// `rep` is the answer to `req` of a store holding `m`, with flag `modified`.
pub open spec fn serves(m: Map<Seq<char>, Seq<char>>, modified: bool, req: Request, rep: Reply) -> bool {
    match req {
        Request::Insert(k, _) => rep == Reply::Status(insert_result(m, k@)),
        Request::Update(k, v) => rep == Reply::Status(update_result(m, k@, v@)),
        Request::Delete(k) => rep == Reply::Status(delete_result(m, k@)),
        Request::Get(k) => rep matches Reply::Value(res) && value_view(res) == get_result(m, k@),
        Request::Dump => rep matches Reply::Snapshot(res) && dump_reply(m, modified, res),
        Request::Flush => rep matches Reply::Flushed(Ok(t)) && t@ == pretty_json_of(m),
        Request::MarkModified => rep == Reply::Status(Ok(())),
        Request::Count => rep matches Reply::Records(n) && n == m.len(),
    }
}

impl DbMap {
    /// Carries out one request.
    pub fn serve(&mut self, req: Request) -> (r: Reply)
        ensures
            serves(old(self).records(), old(self).is_modified(), req, r),
            req matches Request::Insert(k, v) ==> final(self).records() == insert_post(
                old(self).records(),
                k@,
                v@,
            ),
            req matches Request::Update(k, v) ==> final(self).records() == (if r
                == Reply::Status(Ok(())) {
                update_post(old(self).records(), k@, v@)
            } else {
                old(self).records()
            }),
            req matches Request::Delete(k) ==> final(self).records() == delete_post(
                old(self).records(),
                k@,
            ),
            req is Get || req is Dump || req is Flush || req is MarkModified || req is Count ==> final(self).records() == old(
                self,
            ).records(),
            req is Get || req is Count ==> final(self).is_modified() == old(self).is_modified(),
            req is MarkModified ==> final(self).is_modified(),
            req is Insert || req is Update || req is Delete ==> (r matches Reply::Status(s)
                && final(self).is_modified() == modified_after(old(self).is_modified(), s)),
            req is Dump ==> (r matches Reply::Snapshot(s) && final(self).is_modified()
                == modified_after_dump(old(self).is_modified(), s is Ok)),
            req is Flush ==> (r matches Reply::Flushed(s) && final(self).is_modified()
                == modified_after_dump(old(self).is_modified(), s is Ok)),
    {
        match req {
            Request::Insert(k, v) => Reply::Status(self.insert(k, v)),
            Request::Update(k, v) => Reply::Status(self.update(k, v)),
            Request::Delete(k) => Reply::Status(self.delete(k)),
            Request::Get(k) => Reply::Value(self.get(k)),
            Request::Dump => Reply::Snapshot(self.dump_text()),
            Request::Flush => Reply::Flushed(self.flush_text()),
            Request::MarkModified => {
                self.mark_modified();
                Reply::Status(Ok(()))
            },
            Request::Count => Reply::Records(self.len()),
        }
    }
}

/// Relies on `std::sync::Mutex::lock`: while the lock is held the guarded
/// store serves the request; the call fails where the lock is poisoned.
/// Every store in the mutex keeps its type invariant, and `DbMap::serve`
/// answers as `serves` says for the records it held when the lock was taken;
/// which records those were depends on other threads, so only their
/// existence is stated.
#[verifier::external_body]
fn serve_locked(db: &Mutex<DbMap>, req: Request) -> (r: Result<Reply, ()>)
    ensures
        r matches Ok(rep) ==> exists|m: Map<Seq<char>, Seq<char>>, f: bool| serves(m, f, req, rep),
{
    db.lock().map(move |mut store| store.serve(req)).map_err(|_| ())
}

/// A store shared between threads: the records and their modified flag
/// behind one lock, and a lock-free tally per operation kind and outcome.
pub struct DbData {
    db: Mutex<DbMap>,
    inserts_successful: AtomicU32,
    inserts_failed: AtomicU32,
    updates_successful: AtomicU32,
    updates_failed: AtomicU32,
    deletes_successful: AtomicU32,
    deletes_failed: AtomicU32,
    gets_successful: AtomicU32,
    gets_failed: AtomicU32,
}

impl DbData {
    /// A store holding the records of a snapshot text, or no records where
    /// there is no snapshot; all tallies zero.
    pub fn create(snapshot: Option<&str>) -> (r: Result<DbData, DbError>)
        ensures
            r is Err <==> (snapshot matches Some(t) && parsed_json_of(t@) is None),
            r matches Err(e) ==> e == DbError::ParseFailure,
    {
        let map = match snapshot {
            None => DbMap::new(),
            Some(text) => match DbMap::load(text) {
                Ok(m) => m,
                Err(e) => return Err(e),
            },
        };
        Ok(
            DbData {
                db: Mutex::new(map),
                inserts_successful: AtomicU32::new(0),
                inserts_failed: AtomicU32::new(0),
                updates_successful: AtomicU32::new(0),
                updates_failed: AtomicU32::new(0),
                deletes_successful: AtomicU32::new(0),
                deletes_failed: AtomicU32::new(0),
                gets_successful: AtomicU32::new(0),
                gets_failed: AtomicU32::new(0),
            },
        )
    }

    /// Adds `key` with `value`: the outcome is that of an insert on the
    /// records as they stood when the lock was held, or `DatabaseError`.
    pub fn insert(&self, key: String, value: String) -> (r: Result<(), DbError>)
        ensures
            r == Err::<(), DbError>(DbError::DatabaseError) || exists|
                m: Map<Seq<char>, Seq<char>>,
            | r == insert_result(m, key@),
    {
        let r = match serve_locked(&self.db, Request::Insert(key, value)) {
            Ok(Reply::Status(s)) => s,
            _ => Err(DbError::DatabaseError),
        };
        if r.is_ok() {
            self.inserts_successful.fetch_add(1, Ordering::Relaxed);
        } else {
            self.inserts_failed.fetch_add(1, Ordering::Relaxed);
        }
        r
    }

    /// Replaces the value of `key`: the outcome is that of an update on the
    /// records as they stood when the lock was held, or `DatabaseError`.
    pub fn update(&self, key: String, value: String) -> (r: Result<(), DbError>)
        ensures
            r == Err::<(), DbError>(DbError::DatabaseError) || exists|
                m: Map<Seq<char>, Seq<char>>,
            | r == update_result(m, key@, value@),
    {
        let r = match serve_locked(&self.db, Request::Update(key, value)) {
            Ok(Reply::Status(s)) => s,
            _ => Err(DbError::DatabaseError),
        };
        if r.is_ok() {
            self.updates_successful.fetch_add(1, Ordering::Relaxed);
        } else {
            self.updates_failed.fetch_add(1, Ordering::Relaxed);
        }
        r
    }

    /// Removes `key`: the outcome is that of a delete on the records as they
    /// stood when the lock was held, or `DatabaseError`.
    pub fn delete(&self, key: String) -> (r: Result<(), DbError>)
        ensures
            r == Err::<(), DbError>(DbError::DatabaseError) || exists|
                m: Map<Seq<char>, Seq<char>>,
            | r == delete_result(m, key@),
    {
        let r = match serve_locked(&self.db, Request::Delete(key)) {
            Ok(Reply::Status(s)) => s,
            _ => Err(DbError::DatabaseError),
        };
        if r.is_ok() {
            self.deletes_successful.fetch_add(1, Ordering::Relaxed);
        } else {
            self.deletes_failed.fetch_add(1, Ordering::Relaxed);
        }
        r
    }

    /// A copy of the value of `key`: the outcome is that of a lookup in the
    /// records as they stood when the lock was held, or `DatabaseError`.
    pub fn get(&self, key: String) -> (r: Result<String, DbError>)
        ensures
            r == Err::<String, DbError>(DbError::DatabaseError) || exists|
                m: Map<Seq<char>, Seq<char>>,
            | value_view(r) == get_result(m, key@),
    {
        let r = match serve_locked(&self.db, Request::Get(key)) {
            Ok(Reply::Value(s)) => s,
            _ => Err(DbError::DatabaseError),
        };
        if r.is_ok() {
            self.gets_successful.fetch_add(1, Ordering::Relaxed);
        } else {
            self.gets_failed.fetch_add(1, Ordering::Relaxed);
        }
        r
    }

    /// The snapshot text to write where the records were modified since the
    /// last dump, `None` where they were not. The modified flag is cleared
    /// under the same lock that read the records.
    pub fn dump(&self) -> (r: Result<Option<String>, DbError>)
        ensures
            r matches Ok(Some(t)) ==> exists|m: Map<Seq<char>, Seq<char>>| t@ == pretty_json_of(m),
            r matches Err(e) ==> e == DbError::DatabaseError,
    {
        match serve_locked(&self.db, Request::Dump) {
            Ok(Reply::Snapshot(s)) => s,
            _ => Err(DbError::DatabaseError),
        }
    }

    /// The snapshot text of the records, whether or not they were modified,
    /// for the last dump before shutdown.
    pub fn dump_final(&self) -> (r: Result<String, DbError>)
        ensures
            r matches Ok(t) ==> exists|m: Map<Seq<char>, Seq<char>>| t@ == pretty_json_of(m),
            r matches Err(e) ==> e == DbError::DatabaseError,
    {
        match serve_locked(&self.db, Request::Flush) {
            Ok(Reply::Flushed(s)) => s,
            _ => Err(DbError::DatabaseError),
        }
    }

    /// Settles a dump whose text was handed out for writing: where the write
    /// failed the records are marked modified again, so that the next dump
    /// retries it; where it succeeded nothing is done.
    pub fn settle_write(&self, written: bool) -> (r: Result<(), DbError>)
        ensures
            written ==> r == Ok::<(), DbError>(()),
            r matches Err(e) ==> e == DbError::DatabaseError,
    {
        if written {
            return Ok(());
        }
        match serve_locked(&self.db, Request::MarkModified) {
            Ok(Reply::Status(s)) => s,
            _ => Err(DbError::DatabaseError),
        }
    }

    /// The report of the record count and the eight tallies; the tallies are
    /// read one by one, not as one snapshot.
    pub fn statistics(&self) -> (r: Result<String, ()>)
        ensures
            r matches Ok(text) ==> exists|n: nat, t: Tallies| text@ == report_text(n, t),
    {
        let records = match serve_locked(&self.db, Request::Count) {
            Ok(Reply::Records(n)) => n,
            _ => return Err(()),
        };
        let t = Tallies {
            inserts_successful: self.inserts_successful.load(Ordering::Relaxed),
            inserts_failed: self.inserts_failed.load(Ordering::Relaxed),
            updates_successful: self.updates_successful.load(Ordering::Relaxed),
            updates_failed: self.updates_failed.load(Ordering::Relaxed),
            deletes_successful: self.deletes_successful.load(Ordering::Relaxed),
            deletes_failed: self.deletes_failed.load(Ordering::Relaxed),
            gets_successful: self.gets_successful.load(Ordering::Relaxed),
            gets_failed: self.gets_failed.load(Ordering::Relaxed),
        };
        let text = render_statistics(records, &t);
        assert(text@ == report_text(records as nat, t));
        Ok(text)
    }
}

} // verus!
