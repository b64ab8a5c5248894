//! What holds of a key from one update to the next.
//!
//! The laws speak of the record under one key of a store that gives back what
//! was written to it last and takes every write, with one update at a time on
//! that key. Nothing here holds of updates that run at the same time.

use crate::projection::{fold, fold_of_concatenation, reads_back, round_trips, Projection};
use crate::queries::{answer, starting_view};
use vstd::prelude::*;

verus! {

/// The record that a key holds after one update with `events`, where it held
/// `record` before.
///
/// The update starts from the view that [`starting_view`] gives, folds the
/// events into it, and writes the bytes of the result. Where the record
/// cannot be loaded, or the result has no serialized form, nothing is written
/// and the key holds what it held.
pub open spec fn record_after<V: Projection>(
    record: Option<Seq<u8>>,
    events: Seq<V::Event>,
) -> Option<Seq<u8>> {
    match starting_view::<V>(record) {
        Some(start) => match fold(start, events).serialized() {
            Some(bytes) => Some(bytes),
            None => record,
        },
        None => record,
    }
}

/// The record that a key holds after `times` updates with the same `events`.
pub open spec fn record_after_repeated<V: Projection>(
    record: Option<Seq<u8>>,
    events: Seq<V::Event>,
    times: nat,
) -> Option<Seq<u8>>
    decreases times,
{
    if times == 0 {
        record
    } else {
        record_after::<V>(record_after_repeated::<V>(record, events, (times - 1) as nat), events)
    }
}

/// A key that was never written answers nothing, and an update of it starts
/// from the initial view: a missing record is no error.
pub proof fn missing_record_is_no_error<V: Projection>()
    ensures
        answer::<V>(None) is None,
        starting_view::<V>(None) == Some(V::initial()),
{
}

/// A view that was committed is the view that a query answers, provided its
/// serialized form is lossless.
pub proof fn committed_view_is_answered<V: Projection>(view: V)
    requires
        round_trips(view),
    ensures
        answer::<V>(view.serialized()) == Some(view),
{
}

/// A record that cannot be loaded stays as it is, whatever the events: the
/// update ends before anything is folded or written.
pub proof fn unreadable_record_stays<V: Projection>(
    record: Option<Seq<u8>>,
    events: Seq<V::Event>,
)
    requires
        starting_view::<V>(record) is None,
    ensures
        record_after::<V>(record, events) == record,
{
}

/// Two updates, one after the other, leave the record that one update with
/// both batches leaves: the bytes of the fold of all the events, from the
/// view `start` that the first update began with.
///
/// This holds where both commits go through and the view between the two
/// keeps its serialized form losslessly.
pub proof fn updates_in_sequence_compose<V: Projection>(
    record: Option<Seq<u8>>,
    start: V,
    first: Seq<V::Event>,
    second: Seq<V::Event>,
)
    requires
        starting_view::<V>(record) == Some(start),
        round_trips(fold(start, first)),
        fold(start, first + second).serialized() is Some,
    ensures
        record_after::<V>(record_after::<V>(record, first), second) == record_after::<V>(
            record,
            first + second,
        ),
        record_after::<V>(record, first + second) == fold(start, first + second).serialized(),
{
    fold_of_concatenation(start, first, second);
}

/// After two updates, one after the other, a query answers the fold of all
/// the events, from the view `start` that the first update began with.
///
/// This holds where the view between the two updates and the view after them
/// keep their serialized forms losslessly.
pub proof fn query_after_updates_answers_the_fold<V: Projection>(
    record: Option<Seq<u8>>,
    start: V,
    first: Seq<V::Event>,
    second: Seq<V::Event>,
)
    requires
        starting_view::<V>(record) == Some(start),
        round_trips(fold(start, first)),
        round_trips(fold(start, first + second)),
    ensures
        answer::<V>(record_after::<V>(record_after::<V>(record, first), second)) == Some(
            fold(start, first + second),
        ),
{
    updates_in_sequence_compose(record, start, first, second);
}

/// An update with no events leaves the view of the key as it was: the next
/// update starts from the same view `view`, and a query of a key that holds a
/// record answers it. Only the bytes may have changed.
///
/// This holds where the view is read back as it was written.
pub proof fn empty_update_keeps_the_view<V: Projection>(record: Option<Seq<u8>>, view: V)
    requires
        starting_view::<V>(record) == Some(view),
        reads_back(view),
    ensures
        starting_view::<V>(record_after::<V>(record, Seq::empty())) == Some(view),
        record_after::<V>(record, Seq::empty()) is Some ==> answer::<V>(
            record_after::<V>(record, Seq::empty()),
        ) == Some(view),
{
}

/// However often an update with no events is repeated, the view of the key
/// stays as it was.
pub proof fn empty_updates_keep_the_view<V: Projection>(
    record: Option<Seq<u8>>,
    view: V,
    times: nat,
)
    requires
        starting_view::<V>(record) == Some(view),
        reads_back(view),
    ensures
        starting_view::<V>(record_after_repeated::<V>(record, Seq::empty(), times)) == Some(view),
        record_after_repeated::<V>(record, Seq::empty(), times) is Some ==> answer::<V>(
            record_after_repeated::<V>(record, Seq::empty(), times),
        ) == Some(view),
    decreases times,
{
    if times > 0 {
        let before = record_after_repeated::<V>(record, Seq::empty(), (times - 1) as nat);
        empty_updates_keep_the_view::<V>(record, view, (times - 1) as nat);
        empty_update_keeps_the_view::<V>(before, view);
    }
}

/// An update never takes a record away: a key that holds one holds one
/// afterwards, and a key without one gets its first from an update whose
/// result has a serialized form.
pub proof fn update_never_deletes<V: Projection>(record: Option<Seq<u8>>, events: Seq<V::Event>)
    ensures
        record is Some ==> record_after::<V>(record, events) is Some,
        record is None ==> (record_after::<V>(record, events) is Some <==> fold(
            V::initial(),
            events,
        ).serialized() is Some),
{
}

} // verus!
