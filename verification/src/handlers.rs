//! The HTTP handlers: the logic that turns a request and the outcome of the
//! store into a status code and a JSON body.
//!
//! Per request the surrounding process acquires a connection, runs the query
//! and hands the outcome in as a plain value; the functions here decide the
//! response. `get_cat` is staged: `get_cat_precheck` runs the validator
//! before any connection is acquired, and `get_cat_respond` maps the query
//! outcome to the response. `get_cats_respond` does the same for the list
//! query. The functions `get_cats` and `get_cat` give the two handlers
//! end to end over a table state the store reports in full.

use vstd::prelude::*;

use crate::json::json_of_cat;
use crate::json::json_of_cats;
use crate::json::cat_to_json;
use crate::json::cats_to_json;
use crate::models::Cat;
use crate::store::AccessError;
use crate::store::get_cat_by_id;
use crate::store::list_cats;
use crate::store::list_cats_spec;
use crate::store::lookup_cat_spec;
use crate::validate::id_in_range;
use crate::validate::validate_cat_id;

verus! {

/// Configuration toggles: whether the id validator runs, and whether the
/// process logs each request (the logging itself happens outside the
/// library).
pub struct Config {
    pub validate_id_range: bool,
    pub enable_access_logging: bool,
}

/// Success.
pub const STATUS_OK: u16 = 200;

/// Client error: the request failed validation.
pub const STATUS_BAD_REQUEST: u16 = 400;

/// Server error: pool exhaustion, a query failure, or a missing row (the
/// handlers do not distinguish a missing row from an internal failure).
pub const STATUS_INTERNAL_SERVER_ERROR: u16 = 500;

/// An HTTP response: a status code and a body.
pub struct Response {
    pub status: u16,
    pub body: String,
}

/// The mathematical value of a [`Response`].
pub struct ResponseModel {
    pub status: int,
    pub body: Seq<char>,
}

impl View for Response {
    type V = ResponseModel;

    open spec fn view(&self) -> ResponseModel {
        ResponseModel { status: self.status as int, body: self.body@ }
    }
}

/// A response with the given status and no body at all.
pub open spec fn empty_response(status: int) -> ResponseModel {
    ResponseModel { status: status, body: Seq::empty() }
}

fn respond_empty(status: u16) -> (r: Response)
    ensures
        r@ == empty_response(status as int),
{
    let r = Response { status, body: String::new() };
    proof {
        assert(r@.body =~= Seq::<char>::empty());
    }
    r
}

/// What `GET /cat/{id}` answers over a table state: a client error when the
/// validator is enabled and rejects the id; else 200 with the JSON object of
/// the matching row, or a server error when no row matches (a missing row
/// and an internal failure both surface as the server-error status).
pub open spec fn get_cat_model(config: Config, table: Seq<Cat>, id: int) -> ResponseModel {
    if config.validate_id_range && !id_in_range(id) {
        empty_response(STATUS_BAD_REQUEST as int)
    } else {
        match lookup_cat_spec(table, id) {
            Some(c) => ResponseModel { status: STATUS_OK as int, body: json_of_cat(c@) },
            None => empty_response(STATUS_INTERNAL_SERVER_ERROR as int),
        }
    }
}

/// What `GET /cats` answers over a table state: 200 with the JSON array of
/// at most the first hundred rows, the empty table included.
pub open spec fn get_cats_model(table: Seq<Cat>) -> ResponseModel {
    ResponseModel { status: STATUS_OK as int, body: json_of_cats(list_cats_spec(table)) }
}

/// The first step of `GET /cat/{id}`: either an immediate rejection, or the
/// id to query for.
pub enum CatRequestStep {
    /// The validator rejected the id; answer this without touching the pool.
    Reject(Response),
    /// Acquire a connection and look this id up.
    Query(i32),
}

/// Runs the validator where it is enabled: an id out of range is rejected
/// with a client error before any connection is acquired; every other
/// request goes on to the query.
pub fn get_cat_precheck(config: &Config, id: i32) -> (r: CatRequestStep)
    ensures
        config.validate_id_range && !id_in_range(id as int) ==> (r matches
            CatRequestStep::Reject(resp) && resp@ == empty_response(STATUS_BAD_REQUEST as int)),
        !(config.validate_id_range && !id_in_range(id as int)) ==> r == CatRequestStep::Query(id),
{
    if config.validate_id_range && !validate_cat_id(id) {
        CatRequestStep::Reject(respond_empty(STATUS_BAD_REQUEST))
    } else {
        CatRequestStep::Query(id)
    }
}

/// Maps the outcome of the lookup to the response: 200 with the row's JSON
/// object on success, the server-error status with an empty body on any
/// failure — a missing row, an exhausted pool and a query error alike.
pub fn get_cat_respond(outcome: Result<Cat, AccessError>) -> (r: Response)
    ensures
        outcome matches Ok(c) ==> r@.status == STATUS_OK as int && r@.body == json_of_cat(c@),
        outcome is Err ==> r@ == empty_response(STATUS_INTERNAL_SERVER_ERROR as int),
{
    match outcome {
        Ok(c) => {
            let body = cat_to_json(&c);
            Response { status: STATUS_OK, body }
        },
        Err(_) => respond_empty(STATUS_INTERNAL_SERVER_ERROR),
    }
}

/// Maps the outcome of the list query to the response: 200 with the JSON
/// array on success (the empty list included), the server-error status with
/// an empty body on pool or query failure.
pub fn get_cats_respond(outcome: Result<Vec<Cat>, AccessError>) -> (r: Response)
    ensures
        outcome matches Ok(rows) ==> r@.status == STATUS_OK as int && r@.body == json_of_cats(
            rows@,
        ),
        outcome is Err ==> r@ == empty_response(STATUS_INTERNAL_SERVER_ERROR as int),
{
    match outcome {
        Ok(rows) => {
            let body = cats_to_json(&rows);
            Response { status: STATUS_OK, body }
        },
        Err(_) => respond_empty(STATUS_INTERNAL_SERVER_ERROR),
    }
}

/// The `GET /cats` handler over a table state the store reports in full:
/// answers exactly as [`get_cats_model`] describes.
pub fn get_cats(table: &Vec<Cat>) -> (r: Response)
    ensures
        r@ == get_cats_model(table@),
{
    let rows = list_cats(table);
    get_cats_respond(Ok(rows))
}

/// The `GET /cat/{id}` handler over a table state the store reports in
/// full: answers exactly as [`get_cat_model`] describes.
pub fn get_cat(config: &Config, table: &Vec<Cat>, id: i32) -> (r: Response)
    ensures
        r@ == get_cat_model(*config, table@, id as int),
{
    match get_cat_precheck(config, id) {
        CatRequestStep::Reject(resp) => resp,
        CatRequestStep::Query(qid) => {
            let outcome = get_cat_by_id(table, qid);
            get_cat_respond(outcome)
        },
    }
}

/// For every id with a row present in the table — and accepted by the
/// validator where it is enabled — `GET /cat/{id}` answers 200, and its body
/// is the JSON object of a row whose id is the requested one.
pub proof fn lemma_present_id_answers_ok(config: Config, table: Seq<Cat>, id: int)
    requires
        exists|i: int| 0 <= i < table.len() && table[i]@.id == id,
        config.validate_id_range ==> id_in_range(id),
    ensures
        get_cat_model(config, table, id).status == STATUS_OK as int,
        lookup_cat_spec(table, id) matches Some(c) && c@.id == id && get_cat_model(
            config,
            table,
            id,
        ).body == json_of_cat(c@),
{
    crate::store::lemma_lookup_finds_present_id(table, id);
}

/// For every id with no row in the table — and accepted by the validator
/// where it is enabled — `GET /cat/{id}` answers the server-error status
/// with an empty body: the handler does not give a missing row a status of
/// its own.
pub proof fn lemma_absent_id_answers_server_error(config: Config, table: Seq<Cat>, id: int)
    requires
        forall|i: int| 0 <= i < table.len() ==> table[i]@.id != id,
        config.validate_id_range ==> id_in_range(id),
    ensures
        get_cat_model(config, table, id) == empty_response(STATUS_INTERNAL_SERVER_ERROR as int),
{
    crate::store::lemma_lookup_none_iff_absent(table, id);
}

/// `GET /cats` on an empty table answers 200 with the empty JSON array,
/// never an error.
pub proof fn lemma_empty_table_lists_ok(table: Seq<Cat>)
    requires
        table.len() == 0,
    ensures
        get_cats_model(table).status == STATUS_OK as int,
        get_cats_model(table).body == seq!['[', ']'],
{
    assert(get_cats_model(table).body =~= seq!['[', ']']);
}

/// Whatever the table holds, the body of `GET /cats` is the JSON array of a
/// list of at most a hundred rows: a prefix of the table, the whole table
/// once it is no longer than the bound.
pub proof fn lemma_list_response_is_bounded(table: Seq<Cat>)
    ensures
        get_cats_model(table).status == STATUS_OK as int,
        get_cats_model(table).body == json_of_cats(list_cats_spec(table)),
        list_cats_spec(table).len() <= crate::store::LIST_LIMIT,
        table.len() >= crate::store::LIST_LIMIT ==> list_cats_spec(table).len()
            == crate::store::LIST_LIMIT as nat,
{
    crate::store::lemma_list_is_bounded(table);
}

/// In the validating variant an id out of range is rejected with the
/// client-error status and an empty body, whatever the table holds.
pub proof fn lemma_out_of_range_id_rejected(config: Config, table: Seq<Cat>, id: int)
    requires
        config.validate_id_range,
        !id_in_range(id),
    ensures
        get_cat_model(config, table, id) == empty_response(STATUS_BAD_REQUEST as int),
{
}

/// An id in range passes the validator whatever the table holds: the answer
/// is decided by the lookup alone, never the client-error status.
pub proof fn lemma_in_range_id_accepted(config: Config, table: Seq<Cat>, id: int)
    requires
        id_in_range(id),
    ensures
        get_cat_model(config, table, id).status == STATUS_OK as int || get_cat_model(
            config,
            table,
            id,
        ).status == STATUS_INTERNAL_SERVER_ERROR as int,
{
}

} // verus!
