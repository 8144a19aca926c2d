//! Pages of the list endpoints.

use vstd::prelude::*;
use crate::text::{parse_capped, spec_parse_capped};

verus! {

/// How many records a list answers when the request does not say.
pub const DEFAULT_PAGE_SIZE: u64 = 50;

/// The most records a list answers.
pub const MAX_PAGE_SIZE: u64 = 100;

/// The largest number of records a list may skip.
pub const MAX_OFFSET: u64 = 9223372036854775807;

/// A page of a listing: how many records to answer and how many to skip.
#[derive(Clone, Copy, Debug, PartialEq, Eq, Structural)]
pub struct Page {
    pub limit: i64,
    pub offset: i64,
}

/// The text of a query parameter, if the request has it.
pub open spec fn param_text(p: Option<&str>) -> Option<Seq<char>> {
    match p {
        Some(s) => Some(s@),
        None => None,
    }
}

/// The page size a request asks for with its `limit` parameter: the number it
/// writes, at most 100; 50 when it gives none or something that is not a
/// number.
pub open spec fn spec_page_limit(limit: Option<Seq<char>>) -> nat {
    match limit {
        Some(s) => match spec_parse_capped(s, MAX_PAGE_SIZE as nat) {
            Some(n) => n,
            None => DEFAULT_PAGE_SIZE as nat,
        },
        None => DEFAULT_PAGE_SIZE as nat,
    }
}

/// How many records a request asks to skip with its `offset` parameter: the
/// number it writes (capped at the largest `i64`); none when it gives none or
/// something that is not a number.
pub open spec fn spec_page_offset(offset: Option<Seq<char>>) -> nat {
    match offset {
        Some(s) => match spec_parse_capped(s, MAX_OFFSET as nat) {
            Some(n) => n,
            None => 0,
        },
        None => 0,
    }
}

fn parameter_value(p: Option<&str>, cap: u64, default: u64) -> (r: u64)
    ensures
        r as nat == match p {
            Some(s) => match spec_parse_capped(s@, cap as nat) {
                Some(n) => n,
                None => default as nat,
            },
            None => default as nat,
        },
{
    match p {
        Some(s) => match parse_capped(s, cap) {
            Some(n) => n,
            None => default,
        },
        None => default,
    }
}

/// The page a list request asks for with its `limit` and `offset` parameters.
pub fn page(limit: Option<&str>, offset: Option<&str>) -> (p: Page)
    ensures
        p.limit as nat == spec_page_limit(param_text(limit)),
        p.offset as nat == spec_page_offset(param_text(offset)),
        0 <= p.limit <= 100,
        p.offset >= 0,
{
    let l = parameter_value(limit, MAX_PAGE_SIZE, DEFAULT_PAGE_SIZE);
    let o = parameter_value(offset, MAX_OFFSET, 0);
    proof {
        match limit {
            Some(s) => {
                if let Some(n) = spec_parse_capped(s@, MAX_PAGE_SIZE as nat) {
                    assert(n <= 100);
                }
            },
            None => {},
        }
        match offset {
            Some(s) => {
                if let Some(n) = spec_parse_capped(s@, MAX_OFFSET as nat) {
                    assert(n <= MAX_OFFSET);
                }
            },
            None => {},
        }
    }
    Page { limit: l as i64, offset: o as i64 }
}

} // verus!
