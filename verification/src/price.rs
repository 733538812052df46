//! The decisions of the price endpoint: which exchanges are asked, what the
//! query must hold, how the settings are read, and when enough exchanges
//! have answered.
use vstd::prelude::*;

use crate::errors::AppError;
use crate::providers::{
    Binance, Bitstamp, Bybit, CoinbaseExchange, Gate, Kraken, LayoutView, OKX, Provider,
};
use crate::text::{decimal, decimal_string, parse_u64, to_uppercase, decimal_u64, uppercase};

verus! {

/// The fewest exchanges whose answers make a price.
pub const MIN_SOURCES: u8 = 2;

/// The layouts of the exchanges that are asked, in the order in which they
/// are asked.
pub open spec fn provider_layouts() -> Seq<LayoutView> {
    seq![
        Binance.spec_layout(),
        Bitstamp.spec_layout(),
        Bybit.spec_layout(),
        CoinbaseExchange.spec_layout(),
        Gate.spec_layout(),
        Kraken.spec_layout(),
        OKX.spec_layout(),
    ]
}

/// The exchanges that are asked for a price.
pub fn all_providers() -> (r: Vec<&'static dyn Provider>)
    ensures
        r@.len() == provider_layouts().len(),
        forall|i: int| 0 <= i < r@.len() ==> #[trigger] r@[i].spec_layout() == provider_layouts()[i],
{
    let r: Vec<&'static dyn Provider> = vec![
        &Binance,
        &Bitstamp,
        &Bybit,
        &CoinbaseExchange,
        &Gate,
        &Kraken,
        &OKX,
    ];
    r
}

/// The currencies that a price may be asked in, upper-cased.
pub open spec fn spec_supported_fiat() -> Seq<&'static str> {
    seq!["USD"]
}

/// The currencies that a price may be asked in, upper-cased.
pub fn supported_fiat() -> (r: &'static [&'static str])
    ensures
        r@ == spec_supported_fiat(),
{
    &["USD"]
}

/// `upper` is one of the supported currencies.
pub open spec fn fiat_supported(upper: Seq<char>) -> bool {
    exists|i: int| 0 <= i < spec_supported_fiat().len() && (#[trigger] spec_supported_fiat()[i])@ == upper
}

/// The value of the last pair named `key`: what a map built from the pairs
/// in order, each one over the ones before, holds at `key`.
pub open spec fn last_value(pairs: Seq<(Seq<char>, Seq<char>)>, key: Seq<char>) -> Option<Seq<char>>
    decreases pairs.len(),
{
    if pairs.len() == 0 {
        None
    } else if pairs.last().0 == key {
        Some(pairs.last().1)
    } else {
        last_value(pairs.drop_last(), key)
    }
}

/// The parameters of a request's query, as decoded name-value pairs in the
/// order of the query.
#[derive(Debug)]
pub struct QueryParams {
    pub pairs: Vec<(String, String)>,
}

/// The texts of name-value pairs.
pub open spec fn pair_texts(pairs: Seq<(String, String)>) -> Seq<(Seq<char>, Seq<char>)> {
    pairs.map_values(|p: (String, String)| (p.0@, p.1@))
}

/// What `url::Url::parse` followed by `query_pairs` makes of `url`: the
/// query's name-value pairs, split at `&` and `=` and percent-decoded, in
/// order; or the text of the parse error where `url` is not a URL.
pub uninterp spec fn url_query(url: Seq<char>) -> Result<Seq<(Seq<char>, Seq<char>)>, Seq<char>>;

/// Parses `url` with `url::Url::parse` (as `worker::Url`) and reads its query
/// with `query_pairs`, each name and value decoded into an owned string. The
/// contract names the result: URL parsing and form decoding are the `url`
/// and `form_urlencoded` crates'.
#[verifier::external_body]
fn parse_query_pairs(url: &str) -> (r: Result<Vec<(String, String)>, String>)
    ensures
        match r {
            Ok(v) => url_query(url@) == Ok::<Seq<(Seq<char>, Seq<char>)>, Seq<char>>(pair_texts(v@)),
            Err(e) => url_query(url@) == Err::<Seq<(Seq<char>, Seq<char>)>, Seq<char>>(e@),
        },
{
    match worker::Url::parse(url) {
        Ok(u) => Ok(u.query_pairs().map(|(k, v)| (k.into_owned(), v.into_owned())).collect()),
        Err(e) => Err(e.to_string()),
    }
}

/// The parameters of the query of the request URL `url`; an internal error
/// where `url` is not a URL.
pub fn query_params(url: &str) -> (r: Result<QueryParams, AppError>)
    ensures
        match url_query(url@) {
            Ok(ps) => r matches Ok(q) && pair_texts(q.pairs@) == ps,
            Err(e) => r matches Err(AppError::Internal { error }) && error@ == "failed to parse Url from "@
                + e + ": "@ + url@,
        },
{
    match parse_query_pairs(url) {
        Ok(pairs) => Ok(QueryParams { pairs }),
        Err(e) => {
            let mut error = String::from_str("failed to parse Url from ");
            error.append(e.as_str());
            error.append(": ");
            error.append(url);
            Err(AppError::Internal { error })
        },
    }
}

impl QueryParams {
    /// The value of the parameter `key`: where it occurs more than once, the
    /// last one.
    pub fn get(&self, key: &str) -> (r: Option<&String>)
        ensures
            match r {
                Some(v) => last_value(pair_texts(self.pairs@), key@) == Some(v@),
                None => last_value(pair_texts(self.pairs@), key@) is None,
            },
    {
        let wanted = String::from_str(key);
        let mut i: usize = self.pairs.len();
        assert(self.pairs@.take(i as int) =~= self.pairs@);
        while i > 0
            invariant
                i <= self.pairs@.len(),
                wanted@ == key@,
                last_value(pair_texts(self.pairs@), key@) == last_value(pair_texts(self.pairs@.take(i as int)), key@),
            decreases i,
        {
            let ghost prefix = self.pairs@.take(i as int);
            assert(pair_texts(prefix).drop_last() =~= pair_texts(self.pairs@.take(i - 1)));
            assert(pair_texts(prefix).last() == (self.pairs@[i - 1].0@, self.pairs@[i - 1].1@));
            if self.pairs[i - 1].0 == wanted {
                return Some(&self.pairs[i - 1].1);
            }
            i = i - 1;
        }
        assert(pair_texts(self.pairs@.take(0)).len() == 0);
        None
    }
}

/// The query `params` names a coin and a supported currency.
pub open spec fn query_accepted(params: Seq<(Seq<char>, Seq<char>)>) -> bool {
    &&& last_value(params, "coin"@) is Some
    &&& last_value(params, "currency"@) matches Some(c) && fiat_supported(uppercase(c))
}

/// `error` is what the query `params` is refused with: a missing coin
/// first, then a missing currency, then a currency that, upper-cased, is
/// not supported.
pub open spec fn query_rejected_with(params: Seq<(Seq<char>, Seq<char>)>, error: AppError) -> bool {
    match last_value(params, "coin"@) {
        None => error == AppError::RequiredParameter { param: "coin" },
        Some(_) => match last_value(params, "currency"@) {
            None => error == AppError::RequiredParameter { param: "currency" },
            Some(c) => {
                &&& !fiat_supported(uppercase(c))
                &&& error matches AppError::UnsupportedValue { param, value, supported }
                &&& param == "currency"
                &&& value@ == uppercase(c)
                &&& supported@ == spec_supported_fiat()
            },
        },
    }
}

/// A price request that passed the checks.
#[derive(Debug)]
pub struct PriceQuery {
    pub coin: String,
    pub currency: String,
}

/// Whether the upper-cased currency `upper` is supported.
pub fn is_supported_fiat(upper: &String) -> (r: bool)
    ensures
        r == fiat_supported(upper@),
{
    let supported = supported_fiat();
    let mut i: usize = 0;
    while i < supported.len()
        invariant
            i <= supported@.len(),
            supported@ == spec_supported_fiat(),
            forall|j: int| 0 <= j < i ==> (#[trigger] supported@[j])@ != upper@,
        decreases supported@.len() - i,
    {
        let candidate = String::from_str(supported[i]);
        if *upper == candidate {
            return true;
        }
        i = i + 1;
    }
    false
}

/// Checks the query of a price request: the coin must be named, the
/// currency must be named and, upper-cased, be a supported one.
pub fn check_price_query(params: &QueryParams) -> (r: Result<PriceQuery, AppError>)
    ensures
        r is Ok <==> query_accepted(pair_texts(params.pairs@)),
        r matches Ok(q) ==> {
            &&& last_value(pair_texts(params.pairs@), "coin"@) == Some(q.coin@)
            &&& last_value(pair_texts(params.pairs@), "currency"@) == Some(q.currency@)
        },
        r matches Err(e) ==> query_rejected_with(pair_texts(params.pairs@), e),
{
    let coin = match params.get("coin") {
        Some(coin) => coin,
        None => {
            return Err(AppError::RequiredParameter { param: "coin" });
        },
    };
    let currency = match params.get("currency") {
        Some(currency) => {
            let upper = to_uppercase(currency.as_str());
            if !is_supported_fiat(&upper) {
                return Err(
                    AppError::UnsupportedValue {
                        param: "currency",
                        value: upper,
                        supported: supported_fiat(),
                    },
                );
            }
            currency
        },
        None => {
            return Err(AppError::RequiredParameter { param: "currency" });
        },
    };
    Ok(PriceQuery { coin: coin.clone(), currency: currency.clone() })
}

/// How the price endpoint is set up.
#[derive(Debug)]
pub struct Settings {
    /// Whether answers carry each exchange's latency.
    pub debug: bool,
    /// How long each exchange is waited for, where there is a limit.
    pub timeout_ms: Option<u64>,
}

/// The settings that the variables `DEBUG` and `TIMEOUT_MS` give: debugging
/// where `DEBUG` is exactly `true`; a time limit where `TIMEOUT_MS` is a
/// number.
pub fn settings(debug_var: Option<String>, timeout_var: Option<String>) -> (r: Settings)
    ensures
        r.debug == (debug_var matches Some(v) && v@ == "true"@),
        r.timeout_ms == match timeout_var {
            Some(v) => decimal_u64(v@),
            None => None,
        },
{
    let debug = match debug_var {
        Some(v) => v == String::from_str("true"),
        None => false,
    };
    let timeout_ms = match timeout_var {
        Some(v) => parse_u64(v.as_str()),
        None => None,
    };
    Settings { debug, timeout_ms }
}

/// The successes among `raw`, in order.
pub open spec fn successes<T>(raw: Seq<Result<T, AppError>>) -> Seq<T>
    decreases raw.len(),
{
    if raw.len() == 0 {
        Seq::empty()
    } else {
        successes(raw.drop_last()) + match raw.last() {
            Ok(t) => seq![t],
            Err(_) => Seq::empty(),
        }
    }
}

/// The successes among the first `i` answers are no more than those among
/// all of them.
pub proof fn lemma_successes_prefix<T>(raw: Seq<Result<T, AppError>>, i: int)
    requires
        0 <= i <= raw.len(),
    ensures
        successes(raw.take(i)).len() <= successes(raw).len(),
    decreases raw.len(),
{
    if i == raw.len() {
        assert(raw.take(i) =~= raw);
    } else {
        assert(raw.drop_last().take(i) =~= raw.take(i));
        lemma_successes_prefix(raw.drop_last(), i);
    }
}

/// What becomes of the exchanges' answers `raw`: the successes, in order,
/// with their count; or `InsufficientSources` where fewer than
/// `MIN_SOURCES` succeeded.
pub open spec fn gather_outcome<T>(raw: Seq<Result<T, AppError>>) -> Result<(Seq<T>, nat), AppError> {
    if successes(raw).len() >= MIN_SOURCES {
        Ok((successes(raw), successes(raw).len()))
    } else {
        Err(AppError::InsufficientSources)
    }
}

/// Keeps the answers of the exchanges that succeeded, in order, with their
/// count; fails with `InsufficientSources` where fewer than `MIN_SOURCES`
/// succeeded.
pub fn gather_sources<T>(raw: Vec<Result<T, AppError>>) -> (r: Result<(Vec<T>, u8), AppError>)
    requires
        successes(raw@).len() <= u8::MAX,
    ensures
        match r {
            Ok((kept, count)) => gather_outcome(raw@) == Ok::<(Seq<T>, nat), AppError>(
                (kept@, count as nat),
            ),
            Err(e) => gather_outcome(raw@) == Err::<(Seq<T>, nat), AppError>(e),
        },
{
    let ghost all = raw@;
    let mut raw = raw;
    let mut kept: Vec<T> = Vec::new();
    let mut count: u8 = 0;
    let mut i: usize = 0;
    let n = raw.len();
    assert(all.skip(0) =~= all);
    while i < n
        invariant
            n == all.len(),
            successes(all).len() <= u8::MAX,
            i <= n,
            raw@ == all.skip(i as int),
            kept@ == successes(all.take(i as int)),
            count == kept@.len(),
        decreases n - i,
    {
        assert(all.take(i + 1).drop_last() =~= all.take(i as int));
        assert(all.take(i + 1).last() == all[i as int]);
        assert(raw@[0] == all[i as int]);
        let item = raw.remove(0);
        assert(raw@ =~= all.skip(i + 1));
        proof {
            lemma_successes_prefix(all, i + 1);
        }
        match item {
            Ok(t) => {
                kept.push(t);
                count = count + 1;
            },
            Err(_) => {},
        }
        i = i + 1;
    }
    assert(all.take(n as int) =~= all);
    if count < MIN_SOURCES {
        return Err(AppError::InsufficientSources);
    }
    Ok((kept, count))
}

/// The error for an exchange named `name` that did not answer within
/// `timeout_ms` milliseconds.
pub fn timeout_error(name: &str, timeout_ms: u64) -> (r: AppError)
    ensures
        r matches AppError::Internal { error } && error@ == name@ + " timed out after "@ + decimal(
            timeout_ms as nat,
        ) + "ms"@,
{
    let mut error = String::from_str(name);
    error.append(" timed out after ");
    let digits = decimal_string(timeout_ms);
    error.append(digits.as_str());
    error.append("ms");
    AppError::Internal { error }
}

/// The debug timings: each exchange's name with its latency as `latency_text`
/// shows it, in the order given.
pub fn latency_entries(timings: &Vec<(&'static str, u64)>) -> (r: Vec<(String, String)>)
    ensures
        r@.len() == timings@.len(),
        forall|i: int|
            0 <= i < r@.len() ==> (#[trigger] r@[i]).0@ == timings@[i].0@ && r@[i].1@ == decimal(
                timings@[i].1 as nat,
            ) + "ms"@,
{
    let mut r: Vec<(String, String)> = Vec::new();
    let mut i: usize = 0;
    while i < timings.len()
        invariant
            i <= timings@.len(),
            r@.len() == i,
            forall|j: int|
                0 <= j < i ==> (#[trigger] r@[j]).0@ == timings@[j].0@ && r@[j].1@ == decimal(
                    timings@[j].1 as nat,
                ) + "ms"@,
        decreases timings@.len() - i,
    {
        let (name, elapsed_ms) = timings[i];
        r.push((String::from_str(name), latency_text(elapsed_ms)));
        i = i + 1;
    }
    r
}

/// How a latency of `elapsed_ms` milliseconds is shown.
pub fn latency_text(elapsed_ms: u64) -> (r: String)
    ensures
        r@ == decimal(elapsed_ms as nat) + "ms"@,
{
    let mut r = decimal_string(elapsed_ms);
    r.append("ms");
    r
}

} // verus!
