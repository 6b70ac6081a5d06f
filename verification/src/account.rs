use vstd::prelude::*;

use crate::query::{add_encoded, add_number, add_param, add_verbatim, encoded, from_i32, from_i64, from_u32, numeral, opt_param, path_with_query, texts, verbatim, with_query};

verus! {

/// A single usage entry from the ledger.
#[derive(Debug, Clone)]
pub struct UsageEntry {
    pub id: String,
    pub request_id: Option<String>,
    pub model: Option<String>,
    pub provider: Option<String>,
    pub endpoint: Option<String>,
    pub delta_ticks: Option<i64>,
    pub balance_after: Option<i64>,
    pub input_tokens: Option<i64>,
    pub output_tokens: Option<i64>,
    pub created_at: Option<String>,
}

/// Paginated usage history response.
#[derive(Debug, Clone)]
pub struct UsageResponse {
    pub entries: Vec<UsageEntry>,
    pub has_more: bool,
    pub next_cursor: Option<String>,
}

/// Usage query parameters.
#[derive(Debug, Clone, Default)]
pub struct UsageQuery {
    /// Max entries per page (default 20, max 100).
    pub limit: Option<i32>,

    /// Cursor for pagination (from previous response's next_cursor).
    pub start_after: Option<String>,
}

/// The usage route: `limit` and `start_after` (as given) when set.
pub fn usage_path(query: &UsageQuery) -> (r: String)
    ensures
        r@ == with_query(
            "/qai/v1/account/usage"@,
            opt_param("limit"@, numeral(from_i32(query.limit))) + opt_param(
                "start_after"@,
                verbatim(query.start_after),
            ),
        ),
{
    let mut params: Vec<String> = Vec::new();
    assert(texts(params@) =~= Seq::empty());
    add_number(&mut params, "limit", match query.limit {
        Some(n) => Some(n as i64),
        None => None,
    });
    add_verbatim(&mut params, "start_after", &query.start_after);
    path_with_query("/qai/v1/account/usage", &params)
}

/// The monthly usage summary route, with `months` when set.
pub fn usage_summary_path(months: Option<i32>) -> (r: String)
    ensures
        r@ == with_query(
            "/qai/v1/account/usage/summary"@,
            opt_param("months"@, numeral(from_i32(months))),
        ),
{
    let mut params: Vec<String> = Vec::new();
    assert(texts(params@) =~= Seq::empty());
    add_number(&mut params, "months", match months {
        Some(n) => Some(n as i64),
        None => None,
    });
    path_with_query("/qai/v1/account/usage/summary", &params)
}

} // verus!
