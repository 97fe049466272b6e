//! Listings that are pulled one item at a time.

use vstd::prelude::*;

use crate::io_error::IoError;
use crate::text::concat2;

verus! {

/// Failure of a listing.
#[derive(Debug, PartialEq, Eq)]
pub enum ListError {
    Operation { message: String },
}

impl Clone for ListError {
    fn clone(&self) -> (r: Self)
        ensures
            r == *self,
    {
        match self {
            ListError::Operation { message } => ListError::Operation { message: message.clone() },
        }
    }
}

impl From<IoError> for ListError {
    fn from(error: IoError) -> (r: Self) {
        ListError::Operation { message: error.message }
    }
}

impl vstd::std_specs::convert::FromSpecImpl<IoError> for ListError {
    open spec fn obeys_from_spec() -> bool {
        true
    }

    open spec fn from_spec(error: IoError) -> Self {
        ListError::Operation { message: error.message }
    }
}

impl ListError {
    /// The text that the error is shown as.
    pub fn to_string(&self) -> (r: String)
        ensures
            self matches ListError::Operation { message } && r@ == "listing failed: "@ + message@,
    {
        match self {
            ListError::Operation { message } => concat2("listing failed: ", message),
        }
    }
}

/// How a listing stands: its stream may have more, has ended, or has failed.
#[derive(Debug, PartialEq, Eq)]
pub enum ListingState {
    Active,
    Complete,
    Failed(ListError),
}

/// A listing that is pulled one item at a time.
#[derive(Debug, PartialEq, Eq)]
pub struct Listing {
    state: ListingState,
}

impl View for Listing {
    type V = ListingState;

    closed spec fn view(&self) -> ListingState {
        self.state
    }
}

/// Where a listing stands after its stream was asked for an item.
pub open spec fn after_pull<T>(state: ListingState, polled: Result<Option<T>, IoError>) -> ListingState {
    match (state, polled) {
        (ListingState::Active, Ok(None)) => ListingState::Complete,
        (ListingState::Active, Err(e)) => ListingState::Failed(
            ListError::Operation { message: e.message },
        ),
        (state, _) => state,
    }
}

/// What a pull gives: what the stream gave while it is active, and ever the same from its end on.
pub open spec fn pulled<T>(state: ListingState, polled: Result<Option<T>, IoError>) -> Result<
    Option<T>,
    ListError,
> {
    match state {
        ListingState::Active => match polled {
            Ok(item) => Ok(item),
            Err(e) => Err(ListError::Operation { message: e.message }),
        },
        ListingState::Complete => Ok(None),
        ListingState::Failed(e) => Err(e),
    }
}

impl Listing {
    /// A listing whose stream was just started.
    pub fn new() -> (r: Self)
        ensures
            r@ is Active,
    {
        Listing { state: ListingState::Active }
    }

    /// Whether the stream is to be asked for the next item.
    pub fn is_active(&self) -> (r: bool)
        ensures
            r == (self@ is Active),
    {
        match self.state {
            ListingState::Active => true,
            _ => false,
        }
    }

    fn pull<T>(&mut self, polled: Result<Option<T>, IoError>) -> (r: Result<Option<T>, ListError>)
        ensures
            final(self)@ == after_pull(old(self)@, polled),
            r == pulled(old(self)@, polled),
    {
        match &self.state {
            ListingState::Complete => {
                return Ok(None);
            },
            ListingState::Failed(e) => {
                return Err(e.clone());
            },
            ListingState::Active => {},
        }
        match polled {
            Ok(Some(item)) => Ok(Some(item)),
            Ok(None) => {
                self.state = ListingState::Complete;
                Ok(None)
            },
            Err(error) => {
                let error = ListError::from(error);
                self.state = ListingState::Failed(error.clone());
                Err(error)
            },
        }
    }

    /// The next entry, given what the stream gave when it was asked; what it gave counts only
    /// while the listing is active.
    pub fn next_entry<T>(&mut self, polled: Result<Option<T>, IoError>) -> (r: Result<
        Option<T>,
        ListError,
    >)
        ensures
            final(self)@ == after_pull(old(self)@, polled),
            r == pulled(old(self)@, polled),
    {
        self.pull(polled)
    }

    /// The next batch of entries, given what the stream gave when it was asked; what it gave
    /// counts only while the listing is active.
    pub fn next_batch<T>(&mut self, polled: Result<Option<Vec<T>>, IoError>) -> (r: Result<
        Option<Vec<T>>,
        ListError,
    >)
        ensures
            final(self)@ == after_pull(old(self)@, polled),
            r == pulled(old(self)@, polled),
    {
        self.pull(polled)
    }
}

/// The end of a listing is final: once a pull has found its end or failed, every later pull gives
/// the same, whatever the stream would give.
pub proof fn law_listings_end_for_good<T>(
    state: ListingState,
    polled: Result<Option<T>, IoError>,
    later: Result<Option<T>, IoError>,
)
    requires
        !(pulled(state, polled) matches Ok(Some(_))),
    ensures
        pulled(after_pull(state, polled), later) == pulled(state, polled),
        after_pull(after_pull(state, polled), later) == after_pull(state, polled),
{
}

} // verus!
