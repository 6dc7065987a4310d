//! The key/value store, as the service sees it.
//!
//! The service never touches the store. It names what it wants as a
//! [`StoreRequest`]; whoever owns the connection carries the request out and
//! reports what happened as an [`Event`]. [`Records`] and [`answer`] say what
//! a store that works answers, which is what the laws of the service are
//! stated against.

use vstd::prelude::*;

verus! {

/// A question or an order for the store.
#[derive(Clone, Debug, PartialEq, Eq)]
pub enum StoreRequest {
    /// Is there a record under `key`?
    Exists { key: String },
    /// Write `value` under `key`, over whatever is there.
    Put { key: String, value: String },
    /// Read the record under `key`.
    Get { key: String },
}

/// What the service is told: that a request came in, or how the store
/// answered the request last issued.
#[derive(Clone, Debug, PartialEq, Eq)]
pub enum Event {
    /// A request arrived; nothing has been asked of the store yet.
    Request,
    /// Answer to [`StoreRequest::Exists`].
    Exists(bool),
    /// Answer to [`StoreRequest::Put`]: the value is written.
    Stored,
    /// Answer to [`StoreRequest::Get`]: the record, or `None` where there is
    /// none. An empty record is `Some`.
    Value(Option<String>),
    /// The store could not be reached, or no connection was to be had.
    StoreFailed,
}

/// A [`StoreRequest`] with its strings as sequences of characters.
pub enum StoreRequestView {
    Exists { key: Seq<char> },
    Put { key: Seq<char>, value: Seq<char> },
    Get { key: Seq<char> },
}

/// An [`Event`] with its strings as sequences of characters.
pub enum EventView {
    Request,
    Exists(bool),
    Stored,
    Value(Option<Seq<char>>),
    StoreFailed,
}

impl View for StoreRequest {
    type V = StoreRequestView;

    open spec fn view(&self) -> StoreRequestView {
        match *self {
            StoreRequest::Exists { key } => StoreRequestView::Exists { key: key@ },
            StoreRequest::Put { key, value } => StoreRequestView::Put { key: key@, value: value@ },
            StoreRequest::Get { key } => StoreRequestView::Get { key: key@ },
        }
    }
}

impl View for Event {
    type V = EventView;

    open spec fn view(&self) -> EventView {
        match *self {
            Event::Request => EventView::Request,
            Event::Exists(found) => EventView::Exists(found),
            Event::Stored => EventView::Stored,
            Event::Value(Some(value)) => EventView::Value(Some(value@)),
            Event::Value(None) => EventView::Value(None),
            Event::StoreFailed => EventView::StoreFailed,
        }
    }
}

/// The contents of a store: at most one record per key.
pub type Records = Map<Seq<char>, Seq<char>>;

/// What a working store holding `records` does with `request`: the records
/// afterwards and the event it reports.
pub open spec fn answer(records: Records, request: StoreRequestView) -> (Records, EventView) {
    match request {
        StoreRequestView::Exists { key } => (records, EventView::Exists(records.dom().contains(key))),
        StoreRequestView::Put { key, value } => (records.insert(key, value), EventView::Stored),
        StoreRequestView::Get { key } => (
            records,
            EventView::Value(
                if records.dom().contains(key) {
                    Some(records[key])
                } else {
                    None
                },
            ),
        ),
    }
}

} // verus!
