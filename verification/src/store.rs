//! The keyed store: a namespace for each kind of view, bytes under a key in it.
//!
//! This is the one place that calls into sled. What a call returns depends on
//! what the database holds at that moment, which nothing here can know, so
//! nothing is promised of it. What can be said is which calls were made: the
//! relations [`read_gave`] and [`write_gave`] hold of an outcome exactly where
//! it came back from a call that was made with the names in question. The
//! rest of the crate takes each outcome as a plain value and says what it
//! does with it.

use vstd::prelude::*;

verus! {

/// `sled::Db`, the handle of an open database. Verus carries it through and
/// sees nothing inside it.
#[verifier::external_type_specification]
#[verifier::external_body]
pub struct ExDb(sled::Db);

/// `sled::Tree`, the handle of one keyspace of a database.
#[verifier::external_type_specification]
#[verifier::external_body]
pub struct ExTree(sled::Tree);

/// `sled::Error`, what a failed call into the database returns.
#[verifier::external_type_specification]
#[verifier::external_body]
pub struct ExError(sled::Error);

/// Calls `sled::Db::open_tree` with the bytes of `name`, which opens the
/// keyspace of that name and makes it first where there is none. Nothing is
/// claimed of the outcome.
#[verifier::external_body]
fn open_tree(db: &sled::Db, name: &str) -> (tree: Result<sled::Tree, sled::Error>) {
    db.open_tree(name.as_bytes())
}

/// Calls `sled::Tree::get` with the bytes of `key` and copies the value found
/// into a vector. Nothing is claimed of the outcome.
#[verifier::external_body]
fn tree_get(tree: &sled::Tree, key: &str) -> (found: Result<Option<Vec<u8>>, sled::Error>) {
    tree.get(key.as_bytes()).map(|found| found.map(|value| value.to_vec()))
}

/// Calls `sled::Tree::insert` with the bytes of `key` and with `value`, and
/// copies the value that the key held before into a vector. Nothing is
/// claimed of the outcome.
#[verifier::external_body]
fn tree_insert(tree: &sled::Tree, key: &str, value: &[u8]) -> (before: Result<
    Option<Vec<u8>>,
    sled::Error,
>) {
    tree.insert(key.as_bytes(), value).map(|before| before.map(|value| value.to_vec()))
}

/// Renders a `sled::Error` through its `Display` impl. Nothing is claimed of
/// the text.
#[verifier::external_body]
fn error_text(error: &sled::Error) -> (text: String) {
    error.to_string()
}

/// Reads the record that `namespace` holds under `key`: `Ok(None)` where it
/// holds none, and the store's own words where the read failed.
///
/// The keyspace is opened under the very name `namespace` and asked for the
/// very key `key`; what comes back is handed on as it is.
pub(crate) fn read(db: &sled::Db, namespace: &str, key: &str) -> (record: Result<
    Option<Vec<u8>>,
    String,
>)
    ensures
        read_gave(*db, namespace@, key@, record),
{
    let opened = open_tree(db, namespace);
    let ghost at_opening = opened;
    match opened {
        Ok(tree) => {
            let found = tree_get(&tree, key);
            let ghost at_lookup = found;
            let record = match found {
                Ok(value) => Ok(value),
                Err(error) => Err(error_text(&error)),
            };
            proof {
                assert(looked_up(tree, key, at_lookup, record));
                assert(opened_and_read(*db, namespace, key, at_opening, record));
            }
            record
        },
        Err(error) => {
            let record = Err(error_text(&error));
            proof {
                assert(opened_and_read(*db, namespace, key, at_opening, record));
            }
            record
        },
    }
}

/// Writes `bytes` under `key` in `namespace`, in place of whatever the key
/// held, and gives the store's own words where the write failed.
///
/// The keyspace is opened under the very name `namespace`, and the very
/// bytes `bytes` are put under the very key `key`.
pub(crate) fn write(db: &sled::Db, namespace: &str, key: &str, bytes: &[u8]) -> (written: Result<
    (),
    String,
>)
    ensures
        write_gave(*db, namespace@, key@, bytes@, written),
{
    let opened = open_tree(db, namespace);
    let ghost at_opening = opened;
    match opened {
        Ok(tree) => {
            let before = tree_insert(&tree, key, bytes);
            let ghost at_insert = before;
            let written = match before {
                Ok(_) => Ok(()),
                Err(error) => Err(error_text(&error)),
            };
            proof {
                assert(inserted(tree, key, bytes, at_insert, written));
                assert(opened_and_wrote(*db, namespace, key, bytes, at_opening, written));
            }
            written
        },
        Err(error) => {
            let written = Err(error_text(&error));
            proof {
                assert(opened_and_wrote(*db, namespace, key, bytes, at_opening, written));
            }
            written
        },
    }
}

/// `text` is what rendering `error` gave.
spec fn rendered(error: sled::Error, text: String) -> bool {
    call_ensures(error_text, (&error,), text)
}

/// `found` is what looking `key` up in `tree` gave, and `record` is what is
/// made of it: the value as it is, or the rendering of the error.
spec fn looked_up(
    tree: sled::Tree,
    key: &str,
    found: Result<Option<Vec<u8>>, sled::Error>,
    record: Result<Option<Vec<u8>>, String>,
) -> bool {
    call_ensures(tree_get, (&tree, key), found) && match found {
        Ok(value) => record == Ok::<Option<Vec<u8>>, String>(value),
        Err(error) => record matches Err(text) && rendered(error, text),
    }
}

/// `opened` is what opening the keyspace `namespace` of `db` gave, and
/// `record` is what a lookup of `key` in it gave, or the rendering of the
/// error where the keyspace was not opened.
spec fn opened_and_read(
    db: sled::Db,
    namespace: &str,
    key: &str,
    opened: Result<sled::Tree, sled::Error>,
    record: Result<Option<Vec<u8>>, String>,
) -> bool {
    call_ensures(open_tree, (&db, namespace), opened) && match opened {
        Ok(tree) => exists|found: Result<Option<Vec<u8>>, sled::Error>|
            looked_up(tree, key, found, record),
        Err(error) => record matches Err(text) && rendered(error, text),
    }
}

/// `record` is what one read of `key` in the keyspace `namespace` of `db`
/// gave.
///
/// The relation holds of what the calls into sled returned when they were
/// made with these very names, and of nothing else. It does not say what the
/// database holds: two reads of one key may give two records.
pub closed spec fn read_gave(
    db: sled::Db,
    namespace: Seq<char>,
    key: Seq<char>,
    record: Result<Option<Vec<u8>>, String>,
) -> bool {
    exists|name: &str, k: &str, opened: Result<sled::Tree, sled::Error>|
        name@ == namespace && k@ == key && opened_and_read(db, name, k, opened, record)
}

/// `before` is what putting `bytes` under `key` in `tree` gave, and `written`
/// is what is made of it: success, or the rendering of the error.
spec fn inserted(
    tree: sled::Tree,
    key: &str,
    bytes: &[u8],
    before: Result<Option<Vec<u8>>, sled::Error>,
    written: Result<(), String>,
) -> bool {
    call_ensures(tree_insert, (&tree, key, bytes), before) && match before {
        Ok(_) => written is Ok,
        Err(error) => written matches Err(text) && rendered(error, text),
    }
}

/// `opened` is what opening the keyspace `namespace` of `db` gave, and
/// `written` is what putting `bytes` under `key` in it gave, or the rendering
/// of the error where the keyspace was not opened.
spec fn opened_and_wrote(
    db: sled::Db,
    namespace: &str,
    key: &str,
    bytes: &[u8],
    opened: Result<sled::Tree, sled::Error>,
    written: Result<(), String>,
) -> bool {
    call_ensures(open_tree, (&db, namespace), opened) && match opened {
        Ok(tree) => exists|before: Result<Option<Vec<u8>>, sled::Error>|
            inserted(tree, key, bytes, before, written),
        Err(error) => written matches Err(text) && rendered(error, text),
    }
}

/// `written` is what one write of `bytes` under `key` in the keyspace
/// `namespace` of `db` gave.
///
/// The relation holds of what the calls into sled returned when they were
/// made with these very names and bytes, and of nothing else. It does not say
/// what the database holds afterwards.
pub closed spec fn write_gave(
    db: sled::Db,
    namespace: Seq<char>,
    key: Seq<char>,
    bytes: Seq<u8>,
    written: Result<(), String>,
) -> bool {
    exists|name: &str, k: &str, value: &[u8], opened: Result<sled::Tree, sled::Error>|
        name@ == namespace && k@ == key && value@ == bytes && opened_and_wrote(
            db,
            name,
            k,
            value,
            opened,
            written,
        )
}

} // verus!
