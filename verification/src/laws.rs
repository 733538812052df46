//! What holds of the library as a whole, across its functions.
use vstd::prelude::*;

use crate::errors::{problem_detail, problem_status, problem_title, AppError};
use crate::price::{
    MIN_SOURCES, gather_outcome, last_value, query_accepted,
    query_rejected_with, successes,
};
use crate::text::{ascii_upper, is_ascii_text, uppercase};

verus! {

/// The successes among some answers are never more than the answers.
pub proof fn lemma_successes_len<T>(raw: Seq<Result<T, AppError>>)
    ensures
        successes(raw).len() <= raw.len(),
    decreases raw.len(),
{
    if raw.len() > 0 {
        lemma_successes_len(raw.drop_last());
    }
}

/// A price is made from at least `MIN_SOURCES` answers; where fewer
/// exchanges answered, the request is answered with status 503.
pub proof fn law_too_few_sources_is_503<T>(raw: Seq<Result<T, AppError>>)
    ensures
        gather_outcome(raw) matches Ok((kept, count)) ==> count >= MIN_SOURCES && count
            == kept.len() && count <= raw.len(),
        gather_outcome(raw) matches Err(e) ==> successes(raw).len() < MIN_SOURCES
            && problem_status(e) == 503,
{
    lemma_successes_len(raw);
}

/// A refused query is answered with status 400.
pub proof fn law_refused_query_is_400(params: Seq<(Seq<char>, Seq<char>)>, error: AppError)
    requires
        query_rejected_with(params, error),
    ensures
        problem_status(error) == 400,
        !query_accepted(params),
{
}

/// Every error is answered with a client or a server error status.
pub proof fn law_error_statuses(error: AppError)
    ensures
        problem_status(error) == 400 || problem_status(error) == 500 || problem_status(error)
            == 503,
{
}

/// The report for an internal error is the same whatever its cause: the
/// cause is not shown to the caller.
pub proof fn law_internal_cause_hidden(a: String, b: String)
    ensures
        problem_title(AppError::Internal { error: a }) == problem_title(
            AppError::Internal { error: b },
        ),
        problem_status(AppError::Internal { error: a }) == 500,
        problem_status(AppError::Internal { error: b }) == 500,
        problem_detail(AppError::Internal { error: a }) == problem_detail(
            AppError::Internal { error: b },
        ),
{
}

/// Where a query names a parameter more than once, the last one counts.
pub proof fn law_last_parameter_wins(
    params: Seq<(Seq<char>, Seq<char>)>,
    key: Seq<char>,
    value: Seq<char>,
)
    ensures
        last_value(params.push((key, value)), key) == Some(value),
{
    assert(params.push((key, value)).last() == (key, value));
}

/// A query's currency counts only upper-cased: two queries that both name a
/// coin or both do not, and whose currencies are both missing or upper-case
/// to the same text, are accepted alike and refused with the same errors.
pub proof fn law_currency_upper_cased(p: Seq<(Seq<char>, Seq<char>)>, q: Seq<(Seq<char>, Seq<char>)>)
    requires
        last_value(p, "coin"@) is Some <==> last_value(q, "coin"@) is Some,
        last_value(p, "currency"@) is Some <==> last_value(q, "currency"@) is Some,
        last_value(p, "currency"@) matches Some(c) ==> last_value(q, "currency"@) matches Some(d)
            && uppercase(c) == uppercase(d),
    ensures
        query_accepted(p) == query_accepted(q),
        forall|e: AppError| query_rejected_with(p, e) <==> query_rejected_with(q, e),
{
}

/// The currency is matched without regard to ASCII case: where the
/// currencies are ASCII texts equal up to case, the queries are treated
/// alike.
pub proof fn law_currency_case_blind(p: Seq<(Seq<char>, Seq<char>)>, q: Seq<(Seq<char>, Seq<char>)>)
    requires
        last_value(p, "coin"@) is Some <==> last_value(q, "coin"@) is Some,
        last_value(p, "currency"@) is Some <==> last_value(q, "currency"@) is Some,
        last_value(p, "currency"@) matches Some(c) ==> last_value(q, "currency"@) matches Some(d)
            && is_ascii_text(c) && is_ascii_text(d) && c.map_values(|x: char| ascii_upper(x))
            =~= d.map_values(|x: char| ascii_upper(x)),
    ensures
        query_accepted(p) == query_accepted(q),
        forall|e: AppError| query_rejected_with(p, e) <==> query_rejected_with(q, e),
{
    if let Some(c) = last_value(p, "currency"@) {
        let d = last_value(q, "currency"@).unwrap();
        assert(uppercase(c) == uppercase(d));
    }
    law_currency_upper_cased(p, q);
}

} // verus!
