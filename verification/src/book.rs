//! What an exchange answers when asked for an order book, and the quote that
//! is read from it.

use crate::pair::Exchange;
use crate::price::Price;
use vstd::prelude::*;

verus! {

/// One level of an order book: a price and the quantity offered at it.
#[derive(Clone, Copy, Debug)]
pub struct Level {
    pub price: Price,
    pub qty: Price,
}

/// The two sides of an order book, each in the order the exchange sent it.
#[derive(Clone, Debug)]
pub struct OrderBook {
    pub bids: Vec<Level>,
    pub asks: Vec<Level>,
}

/// The best bid and the best ask of one exchange at one moment.
#[derive(Clone, Copy, Debug)]
pub struct VenueQuote {
    pub bid: Price,
    pub ask: Price,
}

/// Why no quote could be had from an exchange.
#[derive(Clone, Debug, PartialEq, Eq)]
pub enum FetchCause {
    /// The exchange could not be asked, or did not answer; the text is the
    /// reason it gave.
    Source(String),
    /// The exchange answered with a book that has no bid or no ask.
    EmptyBook,
}

/// A failed fetch: the exchange and the cause.
#[derive(Clone, Debug, PartialEq, Eq)]
pub struct FetchError {
    pub venue: Exchange,
    pub cause: FetchCause,
}

/// The quote of a book: the last bid and the last ask, where both sides have
/// an entry.
pub open spec fn spec_top_of_book(book: OrderBook) -> Option<VenueQuote> {
    if book.bids@.len() > 0 && book.asks@.len() > 0 {
        Some(VenueQuote { bid: book.bids@.last().price, ask: book.asks@.last().price })
    } else {
        None
    }
}

/// What a fetch from `venue` comes to: the quote of the book that came back,
/// or the failure with its cause.
pub open spec fn spec_fetched_quote(venue: Exchange, response: Result<OrderBook, String>) -> Result<
    VenueQuote,
    FetchError,
> {
    match response {
        Ok(book) => match spec_top_of_book(book) {
            Some(quote) => Ok(quote),
            None => Err(FetchError { venue, cause: FetchCause::EmptyBook }),
        },
        Err(reason) => Err(FetchError { venue, cause: FetchCause::Source(reason) }),
    }
}

/// Reads the quote from a book: the last entry of each side.
pub fn top_of_book(book: &OrderBook) -> (r: Option<VenueQuote>)
    ensures
        r == spec_top_of_book(*book),
{
    let n_bids: usize = book.bids.len();
    let n_asks: usize = book.asks.len();
    if n_bids > 0 && n_asks > 0 {
        Some(VenueQuote { bid: book.bids[n_bids - 1].price, ask: book.asks[n_asks - 1].price })
    } else {
        None
    }
}

/// Turns the answer of `venue` into a quote, or into the error that names
/// the exchange and the cause. Nothing is tried again.
pub fn fetched_quote(venue: Exchange, response: Result<OrderBook, String>) -> (r: Result<VenueQuote, FetchError>)
    ensures
        r == spec_fetched_quote(venue, response),
{
    match response {
        Ok(book) => match top_of_book(&book) {
            Some(quote) => Ok(quote),
            None => Err(FetchError { venue, cause: FetchCause::EmptyBook }),
        },
        Err(reason) => Err(FetchError { venue, cause: FetchCause::Source(reason) }),
    }
}

} // verus!
