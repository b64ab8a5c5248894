//! The context of one update: the one key that its result may be written to.

use crate::error::CommitError;
use crate::projection::Projection;
use crate::store;
use std::marker::PhantomData;
use vstd::prelude::*;

verus! {

/// What a commit hands to the store: the namespace, the key in it, and the
/// bytes to put there.
pub struct Record {
    pub namespace: String,
    pub key: String,
    pub bytes: Vec<u8>,
}

/// The pair of namespace and instance that one update was loaded for.
///
/// A context is made on the repository's load path only, afresh for every
/// update, and holds no handle on the store. A view is committed through the
/// context it was loaded with, and so can reach no key but its own.
pub struct QueryContext<V: Projection> {
    query_name: String,
    query_instance_id: String,
    _phantom: PhantomData<V>,
}

/// Renders a value through its `Debug` impl, as `format!` with `{:?}` does.
/// Nothing is claimed of the text.
#[verifier::external_body]
fn debug_text<V: std::fmt::Debug>(value: &V) -> (text: String) {
    format!("{:?}", value)
}

/// How a commit ends for each outcome of the write, under the key
/// `query_instance_id` of the namespace `query_name`: well where the store
/// took the record, and otherwise with the error that names both and carries
/// the store's own words.
pub open spec fn settled(
    query_name: Seq<char>,
    query_instance_id: Seq<char>,
    written: Result<(), String>,
    committed: Result<(), CommitError>,
) -> bool {
    match written {
        Ok(_) => committed is Ok,
        Err(cause) => committed matches Err(
            CommitError::StorageWrite { query_name: namespace, query_instance_id: key, cause: told },
        ) && namespace@ == query_name && key@ == query_instance_id && told == cause,
    }
}

/// `committed` is how one commit of `view` under the key `query_instance_id`
/// of the namespace `query_name` ended.
///
/// A view without a serialized form ends it with an error before anything is
/// written. Any other view has its bytes written once, under that key and in
/// that namespace, and the commit ends as [`settled`] says for what the store
/// answered.
pub open spec fn commit_gave<V: Projection>(
    db: sled::Db,
    query_name: Seq<char>,
    query_instance_id: Seq<char>,
    view: V,
    committed: Result<(), CommitError>,
) -> bool {
    match view.serialized() {
        Some(bytes) => exists|written: Result<(), String>|
            store::write_gave(db, query_name, query_instance_id, bytes, written) && settled(
                query_name,
                query_instance_id,
                written,
                committed,
            ),
        None => committed matches Err(error) && error is Serialization && error.query_name()
            == query_name && error.query_instance_id() == query_instance_id,
    }
}

impl<V: Projection> QueryContext<V> {
    /// The namespace that the context writes to.
    pub closed spec fn query_name(&self) -> Seq<char> {
        self.query_name@
    }

    /// The instance, which is also the key, that the context writes under.
    pub closed spec fn query_instance_id(&self) -> Seq<char> {
        self.query_instance_id@
    }

    pub(crate) fn new(query_name: String, query_instance_id: String) -> (context: Self)
        ensures
            context.query_name() == query_name@,
            context.query_instance_id() == query_instance_id@,
    {
        QueryContext { query_name, query_instance_id, _phantom: PhantomData }
    }

    /// Serializes `view` and addresses the bytes to the key of this context.
    ///
    /// A view without a serialized form gives no record but the error that
    /// names the namespace, the instance, the cause and the view itself.
    pub fn record(&self, view: &V) -> (record: Result<Record, CommitError>)
        ensures
            match view.serialized() {
                Some(bytes) => record matches Ok(record) && record.namespace@ == self.query_name()
                    && record.key@ == self.query_instance_id() && record.bytes@ == bytes,
                None => record matches Err(error) && error is Serialization && error.query_name()
                    == self.query_name() && error.query_instance_id()
                    == self.query_instance_id(),
            },
    {
        match view.to_bytes() {
            Ok(bytes) => Ok(
                Record {
                    namespace: self.query_name.clone(),
                    key: self.query_instance_id.clone(),
                    bytes,
                },
            ),
            Err(cause) => Err(
                CommitError::Serialization {
                    query_name: self.query_name.clone(),
                    query_instance_id: self.query_instance_id.clone(),
                    cause,
                    view: debug_text(view),
                },
            ),
        }
    }

    /// Says how a commit ends for each outcome of the write: well where the
    /// store took the record, and otherwise with the error that names the
    /// namespace, the instance and the store's own words.
    pub fn settle(&self, written: Result<(), String>) -> (committed: Result<(), CommitError>)
        ensures
            settled(self.query_name(), self.query_instance_id(), written, committed),
    {
        match written {
            Ok(_) => Ok(()),
            Err(cause) => Err(
                CommitError::StorageWrite {
                    query_name: self.query_name.clone(),
                    query_instance_id: self.query_instance_id.clone(),
                    cause,
                },
            ),
        }
    }

    /// Writes `view` to the store under the key of this context, in place of
    /// the record that the key held.
    ///
    /// The write is made exactly where the view has a serialized form, and
    /// then with the record that [`QueryContext::record`] gives: these bytes,
    /// under this key, in this namespace. What the store answers is not known
    /// beforehand; the commit ends as [`QueryContext::settle`] says for the
    /// answer that came. An error is meant to stop the caller: it is not an
    /// event that an error handler should swallow.
    pub fn commit(&self, db: &sled::Db, view: V) -> (committed: Result<(), CommitError>)
        ensures
            commit_gave(*db, self.query_name(), self.query_instance_id(), view, committed),
    {
        match self.record(&view) {
            Ok(record) => {
                let written = store::write(
                    db,
                    record.namespace.as_str(),
                    record.key.as_str(),
                    record.bytes.as_slice(),
                );
                self.settle(written)
            },
            Err(error) => Err(error),
        }
    }
}

} // verus!
