//! The views a repository keeps, and the fold that brings one up to date.

use vstd::prelude::*;

verus! {

/// A read model that is built up from the events of one aggregate instance.
///
/// The repository never looks into a view. It asks for four things only: an
/// empty view, one step of the fold, and the two directions of the codec.
/// Each of the four is a fixed function of its arguments, and the model
/// functions `initial`, `updated`, `serialized` and `deserialized` give those
/// functions a name, so that contracts can speak of the view a sequence of
/// events leads to and of the bytes that stand for it.
///
/// An implementation written in Verus defines the model functions and proves
/// its methods against them. One written in plain Rust cannot state them: it
/// leaves them at their defaults, which say nothing, and is taken on trust to
/// compute the same result whenever it is given the same arguments.
pub trait Projection: Sized + std::fmt::Debug {
    /// What one step of the fold consumes.
    type Event;

    /// The view of an instance that no event has reached.
    open spec fn initial() -> Self {
        arbitrary()
    }

    /// The view that `self` becomes when `event` is folded into it.
    open spec fn updated(self, event: Self::Event) -> Self {
        arbitrary()
    }

    /// The bytes that stand for `self`, or `None` where the view has no
    /// serialized form.
    open spec fn serialized(self) -> Option<Seq<u8>> {
        arbitrary()
    }

    /// The view that `bytes` stand for, or `None` where they stand for none.
    open spec fn deserialized(bytes: Seq<u8>) -> Option<Self> {
        arbitrary()
    }

    /// Makes the view of an instance that no event has reached.
    fn default_view() -> (view: Self)
        ensures
            view == Self::initial(),
    ;

    /// Folds one event into the view.
    fn update(&mut self, event: &Self::Event)
        ensures
            *final(self) == old(self).updated(*event),
    ;

    /// Turns the view into the bytes that are stored for it. The error says
    /// why a view could not be serialized.
    fn to_bytes(&self) -> (bytes: Result<Vec<u8>, String>)
        ensures
            match bytes {
                Ok(bytes) => self.serialized() == Some(bytes@),
                Err(_) => self.serialized() is None,
            },
    ;

    /// Turns stored bytes back into a view. The error says why the bytes were
    /// not understood.
    fn from_bytes(bytes: &[u8]) -> (view: Result<Self, String>)
        ensures
            match view {
                Ok(view) => Self::deserialized(bytes@) == Some(view),
                Err(_) => Self::deserialized(bytes@) is None,
            },
    ;
}

/// The view that `start` becomes when `events` are folded into it from the
/// first to the last.
pub open spec fn fold<V: Projection>(start: V, events: Seq<V::Event>) -> V
    decreases events.len(),
{
    if events.len() == 0 {
        start
    } else {
        fold(start, events.drop_last()).updated(events.last())
    }
}

/// A view is read back as it was written: where it has a serialized form,
/// the bytes stand for the same view.
pub open spec fn reads_back<V: Projection>(view: V) -> bool {
    match view.serialized() {
        Some(bytes) => V::deserialized(bytes) == Some(view),
        None => true,
    }
}

/// A view survives being stored: it has a serialized form, and the bytes
/// stand for the same view.
pub open spec fn round_trips<V: Projection>(view: V) -> bool {
    view.serialized() is Some && reads_back(view)
}

/// Folding two batches one after the other is folding their concatenation.
pub proof fn fold_of_concatenation<V: Projection>(
    start: V,
    first: Seq<V::Event>,
    second: Seq<V::Event>,
)
    ensures
        fold(fold(start, first), second) == fold(start, first + second),
    decreases second.len(),
{
    if second.len() > 0 {
        fold_of_concatenation(start, first, second.drop_last());
        assert((first + second).drop_last() =~= first + second.drop_last());
    }
}

/// Folds `events` into `view` in the order given, one `update` for each.
pub fn fold_events<V: Projection>(view: &mut V, events: &[V::Event])
    ensures
        *final(view) == fold(*old(view), events@),
{
    let mut done: usize = 0;
    while done < events.len()
        invariant
            done <= events.len(),
            *view == fold(*old(view), events@.take(done as int)),
        decreases events.len() - done,
    {
        assert(events@.take(done + 1).drop_last() =~= events@.take(done as int));
        view.update(&events[done]);
        done += 1;
    }
    assert(events@.take(done as int) =~= events@);
}

} // verus!
