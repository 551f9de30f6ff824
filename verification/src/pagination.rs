//! The range of questions that a `GET /questions` request asks for, read
//! from its query parameters.
use std::num::{IntErrorKind, ParseIntError};
use vstd::hash_map::StringHashMap;
use vstd::prelude::*;

use crate::decimal::{
    all_digits, decimal, digits_value, is_digit, lemma_u32_decimal_roundtrip, parses_as_u32, u32_value,
    unsigned_digits,
};
use crate::error::{ParseFailure, WarpError};

verus! {

/// The range of questions to return.
#[derive(Debug, Clone, Copy, PartialEq, Eq)]
pub struct Pagination {
    /// The number of questions to return, if bounded.
    pub limit: Option<u32>,
    /// The number of questions to skip first.
    pub offset: u32,
}

impl Default for Pagination {
    /// No bound and nothing skipped: every question.
    fn default() -> (p: Self)
        ensures
            p.limit is None,
            p.offset == 0,
    {
        Pagination { limit: None, offset: 0 }
    }
}

/// The text has a character that is not a digit where a digit belongs (a
/// lone `+`, or a non-digit after an optional `+`), and the digits before it
/// are few enough that no overflow can come first.
pub open spec fn has_invalid_digit(s: Seq<char>) -> bool {
    let d = unsigned_digits(s);
    ||| s == seq!['+']
    ||| exists|k: int|
        0 <= k < d.len() && !is_digit(#[trigger] d[k]) && all_digits(d.take(k))
            && digits_value(d.take(k)) * 10 + 9 <= u32::MAX
}

/// The text is an optional `+` and digits only, of a value too large for a `u32`.
pub open spec fn is_too_large(s: Seq<char>) -> bool {
    let d = unsigned_digits(s);
    d.len() > 0 && all_digits(d) && digits_value(d) > u32::MAX
}

/// The kind of a failed parse of `s` agrees with what std documents: an
/// empty text is `Empty`, a misplaced or non-digit character is
/// `InvalidDigit`, and a number too large is `PosOverflow`. A text with a
/// non-digit after a digit run that may already overflow is left open.
pub open spec fn failure_kind_fits(s: Seq<char>, k: ParseFailure) -> bool {
    &&& s.len() == 0 ==> k == ParseFailure::Empty
    &&& has_invalid_digit(s) ==> k == ParseFailure::InvalidDigit
    &&& is_too_large(s) ==> k == ParseFailure::PosOverflow
}

/// `str::parse::<u32>`, with the kind of its error. Its documentation: the
/// text is an optional `+` followed by ASCII digits only, and a value that
/// does not fit is an error; `IntErrorKind` is `Empty` for an empty text,
/// `InvalidDigit` for a character that is not a digit (a `+` or `-` on its
/// own or misplaced among them), and `PosOverflow` for a number too large.
/// Which kind comes for a non-digit after a run of digits that already
/// overflows is not documented, and not stated here.
#[verifier::external_body]
fn parse_u32(text: &str) -> (r: Result<u32, (ParseIntError, ParseFailure)>)
    ensures
        r is Ok <==> parses_as_u32(text@),
        r matches Ok(v) ==> v == u32_value(text@),
        r matches Err((_, k)) ==> failure_kind_fits(text@, k),
{
    match text.parse::<u32>() {
        Ok(v) => Ok(v),
        Err(e) => {
            let k = match e.kind() {
                IntErrorKind::Empty => ParseFailure::Empty,
                IntErrorKind::InvalidDigit => ParseFailure::InvalidDigit,
                IntErrorKind::PosOverflow => ParseFailure::PosOverflow,
                _ => ParseFailure::Other,
            };
            Err((e, k))
        },
    }
}

/// The text of a query parameter.
pub open spec fn param(params: Map<Seq<char>, String>, key: Seq<char>) -> Seq<char> {
    params[key]@
}

/// Both `limit` and `offset` are present.
pub open spec fn has_range_params(params: Map<Seq<char>, String>) -> bool {
    params.contains_key("limit"@) && params.contains_key("offset"@)
}

/// Both `limit` and `offset` are present and are numbers that fit in a `u32`.
pub open spec fn valid_range_params(params: Map<Seq<char>, String>) -> bool {
    &&& has_range_params(params)
    &&& parses_as_u32(param(params, "limit"@))
    &&& parses_as_u32(param(params, "offset"@))
}

/// The range that valid `limit` and `offset` parameters denote.
pub open spec fn range_of(params: Map<Seq<char>, String>) -> Pagination {
    Pagination {
        limit: Some(u32_value(param(params, "limit"@))),
        offset: u32_value(param(params, "offset"@)),
    }
}

/// The text whose parse failure is reported: `limit` when it is not a
/// number, else `offset`.
pub open spec fn failed_param(params: Map<Seq<char>, String>) -> Seq<char> {
    if !parses_as_u32(param(params, "limit"@)) {
        param(params, "limit"@)
    } else {
        param(params, "offset"@)
    }
}

/// Reads the range from the query parameters `limit` and `offset`; both must
/// be present, and `limit` is read before `offset`.
pub fn get_pagination(params: StringHashMap<String>) -> (r: Result<Pagination, WarpError>)
    ensures
        r matches Err(WarpError::MissingParameters) <==> !has_range_params(params@),
        has_range_params(params@) && !valid_range_params(params@) ==> (r matches Err(
            WarpError::ParseError(_, k),
        ) && failure_kind_fits(failed_param(params@), k)),
        r is Ok <==> valid_range_params(params@),
        r matches Ok(p) ==> p == range_of(params@),
{
    if params.contains_key("limit") && params.contains_key("offset") {
        let limit_text = params.get("limit");
        let offset_text = params.get("offset");
        match (limit_text, offset_text) {
            (Some(l), Some(o)) => {
                let limit = match parse_u32(l.as_str()) {
                    Ok(v) => v,
                    Err((e, k)) => return Err(WarpError::ParseError(e, k)),
                };
                let offset = match parse_u32(o.as_str()) {
                    Ok(v) => v,
                    Err((e, k)) => return Err(WarpError::ParseError(e, k)),
                };
                Ok(Pagination { limit: Some(limit), offset })
            },
            _ => Err(WarpError::MissingParameters),
        }
    } else {
        Err(WarpError::MissingParameters)
    }
}

/// The range for a `GET /questions` request: every question when the query
/// has no parameter at all, else the one that `get_pagination` reads.
pub fn requested_range(params: StringHashMap<String>) -> (r: Result<Pagination, WarpError>)
    ensures
        params@.is_empty() ==> r == Ok::<Pagination, WarpError>(Pagination { limit: None, offset: 0 }),
        !params@.is_empty() ==> (r matches Err(WarpError::MissingParameters) <==> !has_range_params(params@)),
        !params@.is_empty() ==> (r is Ok <==> valid_range_params(params@)),
        !params@.is_empty() ==> (r matches Ok(p) ==> p == range_of(params@)),
        !params@.is_empty() && has_range_params(params@) && !valid_range_params(params@)
            ==> (r matches Err(WarpError::ParseError(_, k)) && failure_kind_fits(failed_param(params@), k)),
{
    if params.is_empty() {
        Ok(Pagination::default())
    } else {
        get_pagination(params)
    }
}

/// Parameters that hold the decimal text of two numbers as `limit` and
/// `offset` denote exactly those numbers, whatever other parameters hold.
pub proof fn law_range_reads_decimal(params: Map<Seq<char>, String>, limit: u32, offset: u32)
    requires
        params.contains_key("limit"@),
        params.contains_key("offset"@),
        params["limit"@]@ == decimal(limit as nat),
        params["offset"@]@ == decimal(offset as nat),
    ensures
        valid_range_params(params),
        range_of(params) == (Pagination { limit: Some(limit), offset }),
{
    lemma_u32_decimal_roundtrip(limit);
    lemma_u32_decimal_roundtrip(offset);
}

/// Only `limit` and `offset` decide the range: parameters that agree on
/// those two are read alike.
pub proof fn law_range_ignores_other_params(a: Map<Seq<char>, String>, b: Map<Seq<char>, String>)
    requires
        a.contains_key("limit"@) == b.contains_key("limit"@),
        a.contains_key("offset"@) == b.contains_key("offset"@),
        a.contains_key("limit"@) ==> a["limit"@]@ == b["limit"@]@,
        a.contains_key("offset"@) ==> a["offset"@]@ == b["offset"@]@,
    ensures
        has_range_params(a) == has_range_params(b),
        valid_range_params(a) == valid_range_params(b),
        valid_range_params(a) ==> range_of(a) == range_of(b),
{
}

/// When both parameters fail, the failure of `limit` is the one reported;
/// `offset`'s only when `limit` is a number.
pub proof fn law_limit_failure_reported_first(params: Map<Seq<char>, String>)
    ensures
        !parses_as_u32(param(params, "limit"@)) ==> failed_param(params) == param(params, "limit"@),
        parses_as_u32(param(params, "limit"@)) && !parses_as_u32(param(params, "offset"@))
            ==> failed_param(params) == param(params, "offset"@),
{
}

} // verus!
