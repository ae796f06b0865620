//! What the service answers: the decisions of its handlers, without the calls
//! to the store and without the replies' encoding.
use crate::attribute::{Item, PutRequest};
use crate::models::{film_item, films_from_items, item_film, Film, FixedResponse, ListOptions};
use vstd::prelude::*;

verus! {

/// The status line of `http::StatusCode::OK`, as its `Display` writes it: the
/// number, a space, and the canonical reason.
#[verifier::external_body]
fn ok_status() -> (line: String)
    ensures
        line@ == "200 OK"@,
{
    warp::http::StatusCode::OK.to_string()
}

/// The status line of `http::StatusCode::NOT_FOUND`, as its `Display` writes
/// it: the number, a space, and the canonical reason.
#[verifier::external_body]
fn not_found_status() -> (line: String)
    ensures
        line@ == "404 Not Found"@,
{
    warp::http::StatusCode::NOT_FOUND.to_string()
}

/// The welcome: status "200 OK" and the caller's address, or "unknown" where
/// the caller gave none.
pub fn welcome(addr: Option<String>) -> (response: FixedResponse)
    ensures
        response.status@ == "200 OK"@,
        response.remote_address@ == match addr {
            Some(address) => address@,
            None => "unknown"@,
        },
{
    FixedResponse {
        status: ok_status(),
        remote_address: match addr {
            Some(address) => address,
            None => "unknown".to_owned(),
        },
    }
}

/// Which films a listing asks the store for.
#[derive(Debug, Clone, Copy, PartialEq, Eq, Structural)]
pub enum FilmQuery {
    /// The films of one year, by the table's partition key.
    ByYear(u16),
    /// Every film.
    All,
}

/// The query that the options ask for: by year where a year is given, else
/// everything. The other options are not looked at.
pub fn film_query(opts: &ListOptions) -> (query: FilmQuery)
    ensures
        query == match opts.year {
            Some(year) => FilmQuery::ByYear(year),
            None => FilmQuery::All,
        },
{
    match opts.year {
        Some(year) => FilmQuery::ByYear(year),
        None => FilmQuery::All,
    }
}

/// The answer to a listing.
#[derive(Debug, PartialEq, Eq)]
pub enum ListReply {
    /// The films found, in the store's order.
    Films(Vec<Film>),
    /// The store gave no items.
    NotFound(FixedResponse),
}

/// The answer to a listing, from what the store gave: the film of each item,
/// in order; or, where it gave no items, status "404 Not Found" from an
/// unknown address.
pub fn list_films(found: Option<&Vec<Item>>) -> (reply: ListReply)
    ensures
        match found {
            Some(items) => reply is Films && reply->Films_0@.len() == items@.len() && forall|i: int|
                0 <= i < items@.len() ==> (#[trigger] reply->Films_0@[i])@ == item_film(items@[i]@),
            None => reply is NotFound && reply->NotFound_0.status@ == "404 Not Found"@
                && reply->NotFound_0.remote_address@ == "unknown"@,
        },
{
    match found {
        Some(items) => ListReply::Films(films_from_items(items)),
        None => ListReply::NotFound(
            FixedResponse { status: not_found_status(), remote_address: "unknown".to_owned() },
        ),
    }
}

/// The put that stores a new film.
pub fn create_film(create: &Film) -> (request: PutRequest)
    ensures
        request@ == Some(film_item(create@)),
{
    PutRequest::from_film(create)
}

/// The status that answers the storing of a new film: 201, created, where the
/// put went through; 500, a server error, where it failed. The put is made
/// once either way.
pub fn create_film_reply(stored: bool) -> (status: u16)
    ensures
        status == if stored {
            201u16
        } else {
            500u16
        },
{
    if stored {
        201
    } else {
        500
    }
}

} // verus!
