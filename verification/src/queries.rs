//! The repository: load a view, fold events into it, write it back.

use crate::context::{commit_gave, QueryContext};
use crate::error::{CommitError, QueryError};
use crate::projection::{fold, fold_events, Projection};
use crate::store::{self, read_gave};
use std::marker::PhantomData;
use vstd::prelude::*;

verus! {

/// Takes the errors that a repository meets while it reads a view back.
///
/// A handler is called in line, on the thread that made the call into the
/// repository, once for each error. It returns nothing and must not panic:
/// the repository goes on as if the error had been dropped, and has no way to
/// recover from a handler that fails.
pub trait ErrorHandler {
    /// Takes one error.
    fn handle(&self, error: QueryError);
}

/// The bytes of a record, where there is one.
pub open spec fn bytes_of(record: Option<Vec<u8>>) -> Option<Seq<u8>> {
    match record {
        Some(bytes) => Some(bytes@),
        None => None,
    }
}

/// What a query answers when the key holds `record`: the view that the bytes
/// stand for, and nothing where there is no record or the bytes stand for no
/// view.
pub open spec fn answer<V: Projection>(record: Option<Seq<u8>>) -> Option<V> {
    match record {
        Some(bytes) => V::deserialized(bytes),
        None => None,
    }
}

/// The view that an update starts from when the key holds `record`: the view
/// that the bytes stand for, the initial view where there is no record, and
/// none where the bytes stand for no view.
pub open spec fn starting_view<V: Projection>(record: Option<Seq<u8>>) -> Option<V> {
    match record {
        Some(bytes) => V::deserialized(bytes),
        None => Some(V::initial()),
    }
}

/// What a query answers for each outcome of the read: what [`answer`] gives
/// for the record that was read, and nothing where the read failed.
pub open spec fn answer_for<V: Projection>(read: Result<Option<Vec<u8>>, String>) -> Option<V> {
    match read {
        Ok(record) => answer::<V>(bytes_of(record)),
        Err(_) => None,
    }
}

/// `loaded` is what an update of `query_instance_id` in the namespace
/// `query_name` starts from, for the outcome `read` of the read.
///
/// A stored view and a missing record both let the update begin, the second
/// from the initial view, with the context of exactly this namespace and
/// instance. A read that failed ends it with the store's own words, and a
/// record whose bytes stand for no view with a deserialization error.
pub open spec fn began<V: Projection>(
    query_name: Seq<char>,
    query_instance_id: Seq<char>,
    read: Result<Option<Vec<u8>>, String>,
    loaded: Result<(V, QueryContext<V>), QueryError>,
) -> bool {
    match read {
        Ok(record) => match starting_view::<V>(bytes_of(record)) {
            Some(start) => loaded matches Ok((view, context)) && view == start
                && context.query_name() == query_name && context.query_instance_id()
                == query_instance_id,
            None => loaded matches Err(error) && error is Deserialization,
        },
        Err(cause) => loaded matches Err(error) && error == (QueryError::StorageRead { cause }),
    }
}

/// `applied` is how an update of `query_instance_id` in the namespace
/// `query_name` with `events` ended, for the outcome `read` of the read.
///
/// Where the read gave a view to start from, the events are folded into it
/// and the result is committed under the same key: the update ends as that
/// commit ends. Where it gave none, because the read failed or the bytes
/// stand for no view, nothing is folded or written, and the update ends well.
pub open spec fn applied_as<V: Projection>(
    db: sled::Db,
    query_name: Seq<char>,
    query_instance_id: Seq<char>,
    read: Result<Option<Vec<u8>>, String>,
    events: Seq<V::Event>,
    applied: Result<(), CommitError>,
) -> bool {
    match read {
        Ok(record) => match starting_view::<V>(bytes_of(record)) {
            Some(start) => commit_gave(
                db,
                query_name,
                query_instance_id,
                fold(start, events),
                applied,
            ),
            None => applied is Ok,
        },
        Err(_) => applied is Ok,
    }
}

/// Turns the outcome of a read into a view.
///
/// A read that failed and a record whose bytes stand for no view are errors;
/// the first carries the store's own words. A missing record is no error.
pub fn read_view<V: Projection>(read: Result<Option<Vec<u8>>, String>) -> (view: Result<
    Option<V>,
    QueryError,
>)
    ensures
        match read {
            Ok(record) => match record {
                Some(bytes) => match V::deserialized(bytes@) {
                    Some(stored) => view == Ok::<Option<V>, QueryError>(Some(stored)),
                    None => view matches Err(error) && error is Deserialization,
                },
                None => view == Ok::<Option<V>, QueryError>(None),
            },
            Err(cause) => view == Err::<Option<V>, QueryError>(QueryError::StorageRead { cause }),
        },
{
    match read {
        Ok(Some(bytes)) => match V::from_bytes(bytes.as_slice()) {
            Ok(stored) => Ok(Some(stored)),
            Err(cause) => Err(QueryError::Deserialization { cause }),
        },
        Ok(None) => Ok(None),
        Err(cause) => Err(QueryError::StorageRead { cause }),
    }
}

/// The views of one kind, one for each aggregate instance, kept in one
/// namespace of a sled database.
///
/// The namespace is fixed when the repository is made. The database handle may
/// be shared with other repositories; this one makes no attempt to keep two
/// updates of the same instance apart, so where they run at the same time the
/// later write wins.
pub struct GenericQueryRepository<V: Projection> {
    db: sled::Db,
    query_name: String,
    error_handler: Option<Box<dyn ErrorHandler>>,
    _phantom: PhantomData<V>,
}

impl<V: Projection> GenericQueryRepository<V> {
    /// The namespace that the repository is bound to.
    pub closed spec fn name(&self) -> Seq<char> {
        self.query_name@
    }

    /// The database that the repository reads and writes.
    pub closed spec fn database(&self) -> sled::Db {
        self.db
    }

    /// The handler that load errors go to, if one is registered.
    pub closed spec fn handler(&self) -> Option<Box<dyn ErrorHandler>> {
        self.error_handler
    }

    /// Binds a repository to the namespace `query_name` of `db`. Nothing is
    /// read or written yet, and no error handler is registered.
    #[must_use]
    pub fn new(query_name: &str, db: sled::Db) -> (repository: Self)
        ensures
            repository.name() == query_name@,
            repository.database() == db,
            repository.handler() is None,
    {
        GenericQueryRepository {
            query_name: query_name.to_owned(),
            db,
            error_handler: None,
            _phantom: PhantomData,
        }
    }

    /// Registers `error_handler` in place of the one registered before, if
    /// there was one.
    pub fn with_error_handler(&mut self, error_handler: Box<dyn ErrorHandler>)
        ensures
            final(self).handler() == Some(error_handler),
            final(self).name() == old(self).name(),
            final(self).database() == old(self).database(),
    {
        let registered = Some(error_handler);
        self.error_handler = registered;
    }

    /// The namespace that the repository is bound to.
    pub fn view_name(&self) -> (name: String)
        ensures
            name@ == self.name(),
    {
        self.query_name.clone()
    }

    /// Hands `error` to the handler, or drops it where none is registered.
    fn report(&self, error: QueryError) {
        match &self.error_handler {
            None => {},
            Some(handler) => handler.handle(error),
        }
    }

    /// Says what an update starts from for each outcome of the read.
    ///
    /// A stored view and a missing record both let the update begin, the
    /// second from the initial view, and the update gets the context of
    /// exactly this namespace and instance. A read that failed and a record
    /// whose bytes stand for no view end it with an error.
    pub fn load_mut_from(
        &self,
        query_instance_id: String,
        read: Result<Option<Vec<u8>>, String>,
    ) -> (loaded: Result<(V, QueryContext<V>), QueryError>)
        ensures
            began(self.name(), query_instance_id@, read, loaded),
    {
        match read_view::<V>(read) {
            Ok(stored) => {
                let view = match stored {
                    Some(view) => view,
                    None => V::default_view(),
                };
                Ok((view, QueryContext::new(self.query_name.clone(), query_instance_id)))
            },
            Err(error) => Err(error),
        }
    }

    /// Reads the view of `query_instance_id` for an update, together with the
    /// context that the result is committed through.
    ///
    /// The key `query_instance_id` is read once, in the namespace of this
    /// repository. What the store holds is not known beforehand; what is
    /// returned is what [`GenericQueryRepository::load_mut_from`] gives for
    /// the outcome of that read.
    pub fn load_mut(&self, query_instance_id: String) -> (loaded: Result<
        (V, QueryContext<V>),
        QueryError,
    >)
        ensures
            exists|read: Result<Option<Vec<u8>>, String>|
                read_gave(self.database(), self.name(), query_instance_id@, read) && began(
                    self.name(),
                    query_instance_id@,
                    read,
                    loaded,
                ),
    {
        let read = store::read(&self.db, self.query_name.as_str(), query_instance_id.as_str());
        self.load_mut_from(query_instance_id, read)
    }

    /// Brings the view of `query_instance_id` up to date with `events`.
    ///
    /// The view is loaded, or begun afresh where the instance has no record;
    /// the events are folded into it in the order given, with no reordering
    /// and nothing left out; and the result is written back under the same
    /// key, also where `events` is empty.
    ///
    /// A view that cannot be loaded goes to the error handler, and the call
    /// ends there: nothing is folded and nothing written. A view that cannot
    /// be written is returned as an error that names this namespace and this
    /// instance, and is meant to stop the caller.
    ///
    /// The key is read once and, where a view is committed, written once,
    /// both in the namespace of this repository. What the store answers is
    /// not known beforehand; the call ends as [`applied_as`] says for the
    /// answers that came.
    pub fn apply_events(&self, query_instance_id: &str, events: &[V::Event]) -> (applied: Result<
        (),
        CommitError,
    >)
        ensures
            exists|read: Result<Option<Vec<u8>>, String>|
                read_gave(self.database(), self.name(), query_instance_id@, read) && applied_as::<V>(
                    self.database(),
                    self.name(),
                    query_instance_id@,
                    read,
                    events@,
                    applied,
                ),
    {
        match self.load_mut(query_instance_id.to_owned()) {
            Ok((mut view, context)) => {
                fold_events(&mut view, events);
                context.commit(&self.db, view)
            },
            Err(error) => {
                self.report(error);
                Ok(())
            },
        }
    }

    /// Says what a query answers for each outcome of the read, and reports
    /// what went wrong.
    ///
    /// Only a record whose bytes stand for a view gives that view. A missing
    /// record gives nothing and is no error. A read that failed and a record
    /// whose bytes stand for no view give nothing either, and the error goes to
    /// the handler once, where one is registered.
    pub fn load_from(&self, read: Result<Option<Vec<u8>>, String>) -> (view: Option<V>)
        ensures
            view == answer_for::<V>(read),
    {
        match read_view::<V>(read) {
            Ok(stored) => stored,
            Err(error) => {
                self.report(error);
                None
            },
        }
    }

    /// Reads the view of `query_instance_id`.
    ///
    /// The key `query_instance_id` is read once, in the namespace of this
    /// repository. What the store holds is not known beforehand; what is
    /// returned is what [`answer_for`] gives for the outcome of that read.
    pub fn load(&self, query_instance_id: String) -> (view: Option<V>)
        ensures
            exists|read: Result<Option<Vec<u8>>, String>|
                read_gave(self.database(), self.name(), query_instance_id@, read) && view
                    == answer_for::<V>(read),
    {
        let read = store::read(&self.db, self.query_name.as_str(), query_instance_id.as_str());
        self.load_from(read)
    }

    /// The entry point for an event-sourcing framework: the same as
    /// [`GenericQueryRepository::apply_events`].
    pub fn dispatch(&self, query_instance_id: &str, events: &[V::Event]) -> (applied: Result<
        (),
        CommitError,
    >)
        ensures
            exists|read: Result<Option<Vec<u8>>, String>|
                read_gave(self.database(), self.name(), query_instance_id@, read) && applied_as::<V>(
                    self.database(),
                    self.name(),
                    query_instance_id@,
                    read,
                    events@,
                    applied,
                ),
    {
        self.apply_events(query_instance_id, events)
    }
}

} // verus!
