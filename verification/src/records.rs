//! Record operations support: the request paths and query parameters of the
//! CRUD surface, and the reading of a delete response. The HTTP calls
//! themselves happen outside; what is verified here is exactly what is put on
//! the wire and how a response body is classified.

use vstd::prelude::*;

use crate::errors::Error;
use crate::strutil::{push_char, str_eq};
use crate::wire::{parse_error_body, spec_error_body_ok, spec_parsed_code, spec_parsed_data, spec_parsed_message};

verus! {

/// One page of records, as the list endpoint returns it.
#[derive(Debug, Clone)]
pub struct PaginatedRecordList<T> {
    pub page: u32,
    pub per_page: u32,
    pub total_items: u32,
    pub total_pages: u32,
    pub items: Vec<T>,
}

/// The decimal digit character for a value below ten.
pub open spec fn spec_digit(n: nat) -> char {
    if n == 0 {
        '0'
    } else if n == 1 {
        '1'
    } else if n == 2 {
        '2'
    } else if n == 3 {
        '3'
    } else if n == 4 {
        '4'
    } else if n == 5 {
        '5'
    } else if n == 6 {
        '6'
    } else if n == 7 {
        '7'
    } else if n == 8 {
        '8'
    } else {
        '9'
    }
}

/// The decimal digits of `n`, most significant first, without sign or
/// padding.
pub open spec fn spec_dec_rep(n: nat) -> Seq<char>
    decreases n,
{
    if n < 10 {
        seq![spec_digit(n)]
    } else {
        spec_dec_rep(n / 10).push(spec_digit(n % 10))
    }
}

/// The decimal digit character for a value below ten.
fn digit_char(n: u32) -> (c: char)
    requires
        n < 10,
    ensures
        c == spec_digit(n as nat),
{
    match n {
        0 => '0',
        1 => '1',
        2 => '2',
        3 => '3',
        4 => '4',
        5 => '5',
        6 => '6',
        7 => '7',
        8 => '8',
        _ => '9',
    }
}

/// Append the decimal digits of `n` to `out`.
fn push_dec(out: &mut String, n: u32)
    ensures
        final(out)@ == old(out)@ + spec_dec_rep(n as nat),
    decreases n,
{
    if n < 10 {
        push_char(out, digit_char(n));
        proof {
            assert(final(out)@ =~= old(out)@ + spec_dec_rep(n as nat));
        }
    } else {
        push_dec(out, n / 10);
        push_char(out, digit_char(n % 10));
        proof {
            assert(final(out)@ =~= old(out)@ + spec_dec_rep(n as nat));
        }
    }
}

/// The plain decimal digits of `n`.
fn u32_to_string(n: u32) -> (r: String)
    ensures
        r@ == spec_dec_rep(n as nat),
{
    let mut r = String::new();
    push_dec(&mut r, n);
    proof {
        assert(r@ =~= spec_dec_rep(n as nat));
    }
    r
}

/// The collection's records path: `/api/collections/<collection>/records`.
pub open spec fn spec_records_path(collection: Seq<char>) -> Seq<char> {
    "/api/collections/"@ + collection + "/records"@
}

/// The path one record is fetched from:
/// `/api/collections/<collection>/record/<id>`.
pub open spec fn spec_record_view_path(collection: Seq<char>, id: Seq<char>) -> Seq<char> {
    "/api/collections/"@ + collection + "/record/"@ + id
}

/// The path one record is updated or deleted at:
/// `/api/collections/<collection>/records/<id>`.
pub open spec fn spec_record_item_path(collection: Seq<char>, id: Seq<char>) -> Seq<char> {
    "/api/collections/"@ + collection + "/records/"@ + id
}

/// The path records of `collection` are created under and listed from.
pub fn records_path(collection: &str) -> (r: String)
    ensures
        r@ == spec_records_path(collection@),
{
    let mut r = String::from_str("/api/collections/");
    r.append(collection);
    r.append("/records");
    proof {
        assert(r@ =~= spec_records_path(collection@));
    }
    r
}

/// The path one record of `collection` is fetched from.
pub fn record_view_path(collection: &str, id: &str) -> (r: String)
    ensures
        r@ == spec_record_view_path(collection@, id@),
{
    let mut r = String::from_str("/api/collections/");
    r.append(collection);
    r.append("/record/");
    r.append(id);
    proof {
        assert(r@ =~= spec_record_view_path(collection@, id@));
    }
    r
}

/// The path one record of `collection` is updated or deleted at.
pub fn record_item_path(collection: &str, id: &str) -> (r: String)
    ensures
        r@ == spec_record_item_path(collection@, id@),
{
    let mut r = String::from_str("/api/collections/");
    r.append(collection);
    r.append("/records/");
    r.append(id);
    proof {
        assert(r@ =~= spec_record_item_path(collection@, id@));
    }
    r
}

/// The query parameters of a list request: one pair per given argument, in
/// this fixed order.
pub open spec fn spec_list_params(
    page: Option<u32>,
    per_page: Option<u32>,
    sort: Option<Seq<char>>,
    filter: Option<Seq<char>>,
    expand: Option<Seq<char>>,
) -> Seq<(Seq<char>, Seq<char>)> {
    (if page is Some {
        seq![("page"@, spec_dec_rep(page->Some_0 as nat))]
    } else {
        Seq::empty()
    }) + (if per_page is Some {
        seq![("perPage"@, spec_dec_rep(per_page->Some_0 as nat))]
    } else {
        Seq::empty()
    }) + (if sort is Some {
        seq![("sort"@, sort->Some_0)]
    } else {
        Seq::empty()
    }) + (if filter is Some {
        seq![("filter"@, filter->Some_0)]
    } else {
        Seq::empty()
    }) + (if expand is Some {
        seq![("expand"@, expand->Some_0)]
    } else {
        Seq::empty()
    })
}

/// The query parameters a list request sends, as [`spec_list_params`]
/// describes.
pub fn list_query_params(
    page: Option<u32>,
    per_page: Option<u32>,
    sort: Option<&str>,
    filter: Option<&str>,
    expand: Option<&str>,
) -> (r: Vec<(String, String)>)
    ensures
        r.deep_view() == spec_list_params(
            page,
            per_page,
            match sort {
                Some(s) => Some(s@),
                None => None,
            },
            match filter {
                Some(s) => Some(s@),
                None => None,
            },
            match expand {
                Some(s) => Some(s@),
                None => None,
            },
        ),
{
    let mut r: Vec<(String, String)> = Vec::new();
    if let Some(p) = page {
        r.push((String::from_str("page"), u32_to_string(p)));
    }
    if let Some(p) = per_page {
        r.push((String::from_str("perPage"), u32_to_string(p)));
    }
    if let Some(s) = sort {
        r.push((String::from_str("sort"), String::from_str(s)));
    }
    if let Some(s) = filter {
        r.push((String::from_str("filter"), String::from_str(s)));
    }
    if let Some(s) = expand {
        r.push((String::from_str("expand"), String::from_str(s)));
    }
    proof {
        assert(r.deep_view() =~= spec_list_params(
            page,
            per_page,
            match sort {
                Some(s) => Some(s@),
                None => None,
            },
            match filter {
                Some(s) => Some(s@),
                None => None,
            },
            match expand {
                Some(s) => Some(s@),
                None => None,
            },
        ));
    }
    r
}

/// Decide what a delete response means: the body `null` is success, anything
/// else is the server's structured error, or a transport-level failure when
/// it cannot be read as one.
pub fn interpret_delete_response(body: &str) -> (r: Result<(), Error>)
    ensures
        r is Ok <==> body@ == "null"@,
        body@ != "null"@ && spec_error_body_ok(body@) ==> (r matches Err(e) && e matches
            Error::PocketBaseErrorResponse(resp) && resp.code == spec_parsed_code(body@)->Some_0
            && resp.message@ == spec_parsed_message(body@)->Some_0 && resp.data.deep_view()
            == spec_parsed_data(body@)->Some_0),
        body@ != "null"@ && !spec_error_body_ok(body@) ==> (r matches Err(e) && e matches
            Error::RequestFailed(m) && m@ == "could not parse the error body"@),
{
    if str_eq(body, "null") {
        Ok(())
    } else {
        match parse_error_body(body) {
            Some(resp) => Err(Error::PocketBaseErrorResponse(resp)),
            None => Err(Error::RequestFailed(String::from_str("could not parse the error body"))),
        }
    }
}

} // verus!
