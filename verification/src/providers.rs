//! The exchanges that the price is gathered from: where each one's ticker is
//! fetched, and where in its JSON answer the best ask and the best bid stand.
//!
//! Each exchange is described by a `Layout`; what an exchange does (its URL,
//! the quote that it reads out of an answer, the errors that it gives) is
//! stated over that layout.
use vstd::prelude::*;

use crate::json::{deref_opt, json_from_str, parse_json, Json};
use crate::text::{decimal, decimal_string, to_uppercase, uppercase};

verus! {

/// One step from a JSON value into a part of it.
#[derive(Clone, Copy, Debug)]
pub enum Step {
    /// The member of an object with this name.
    Key(&'static str),
    /// The element of an array at this position.
    Index(usize),
    /// The value of the first member of an object.
    FirstValue,
}

/// Where a price stands in the ticker: the member `key`, and, where `index`
/// is given, the element at that position of the array held there. The
/// price itself is a string.
#[derive(Clone, Copy, Debug)]
pub struct Field {
    pub key: &'static str,
    pub index: Option<usize>,
}

/// A ticker URL: `head`, the symbol (upper-cased where `upper_symbol`), `tail`.
#[derive(Clone, Copy, Debug)]
pub struct UrlTemplate {
    pub head: &'static str,
    pub tail: &'static str,
    pub upper_symbol: bool,
}

/// Everything that tells one exchange from another.
#[derive(Clone, Copy, Debug)]
pub struct Layout {
    pub name: &'static str,
    pub url: UrlTemplate,
    /// The path from the answer's root to the ticker object.
    pub ticker: &'static [Step],
    pub ask: Field,
    pub bid: Field,
}

/// A `Layout` with its ticker path as a sequence.
pub struct LayoutView {
    pub name: &'static str,
    pub url: UrlTemplate,
    pub ticker: Seq<Step>,
    pub ask: Field,
    pub bid: Field,
}

impl View for Layout {
    type V = LayoutView;

    open spec fn view(&self) -> LayoutView {
        LayoutView {
            name: self.name,
            url: self.url,
            ticker: self.ticker@,
            ask: self.ask,
            bid: self.bid,
        }
    }
}

/// The best ask and the best bid of an exchange, as the decimal texts that
/// it sent.
#[derive(Debug)]
pub struct Quote {
    pub ask: String,
    pub bid: String,
}

/// Why an exchange's answer gave no quote.
#[derive(Clone, Copy, Debug)]
pub enum ParseError {
    /// The answer is not JSON.
    InvalidJson,
    /// The path to the ticker leads nowhere.
    TickerNotFound { provider: &'static str },
    /// A price is missing or is not a string (or, found by the caller, not
    /// a number).
    FieldNotFound { field: Field, source: UrlTemplate },
}

impl UrlTemplate {
    pub open spec fn spec_render(self, symbol: Seq<char>) -> Seq<char> {
        self.head@ + (if self.upper_symbol {
            uppercase(symbol)
        } else {
            symbol
        }) + self.tail@
    }

    /// The URL for `symbol`.
    pub fn render(&self, symbol: &str) -> (r: String)
        ensures
            r@ == self.spec_render(symbol@),
    {
        let mut r = String::from_str(self.head);
        if self.upper_symbol {
            let upper = to_uppercase(symbol);
            r.append(upper.as_str());
        } else {
            r.append(symbol);
        }
        r.append(self.tail);
        r
    }
}

/// Where `step` leads from `json`.
pub open spec fn step_into(json: Json, step: Step) -> Option<Json> {
    match step {
        Step::Key(k) => json.member(k@),
        Step::Index(i) => json.element(i as int),
        Step::FirstValue => json.first_value(),
    }
}

/// Where `steps`, taken in turn, lead from `json`.
pub open spec fn follow(json: Json, steps: Seq<Step>) -> Option<Json>
    decreases steps.len(),
{
    if steps.len() == 0 {
        Some(json)
    } else {
        match step_into(json, steps[0]) {
            Some(next) => follow(next, steps.drop_first()),
            None => None,
        }
    }
}

/// Takes `step` from `json`.
pub fn take_step<'a>(json: &'a Json, step: Step) -> (r: Option<&'a Json>)
    ensures
        deref_opt(r) == step_into(*json, step),
{
    match step {
        Step::Key(k) => json.get_key(k),
        Step::Index(i) => json.get_index(i),
        Step::FirstValue => json.get_first_value(),
    }
}

/// Takes `steps` in turn from `json`.
pub fn walk<'a>(json: &'a Json, steps: &[Step]) -> (r: Option<&'a Json>)
    ensures
        deref_opt(r) == follow(*json, steps@),
{
    let mut cur = json;
    let mut i: usize = 0;
    assert(steps@.subrange(0, steps@.len() as int) =~= steps@);
    while i < steps.len()
        invariant
            i <= steps@.len(),
            follow(*json, steps@) == follow(*cur, steps@.subrange(i as int, steps@.len() as int)),
        decreases steps@.len() - i,
    {
        let ghost rest = steps@.subrange(i as int, steps@.len() as int);
        assert(rest.drop_first() =~= steps@.subrange(i + 1, steps@.len() as int));
        assert(rest[0] == steps@[i as int]);
        match take_step(cur, steps[i]) {
            Some(next) => {
                cur = next;
            },
            None => {
                return None;
            },
        }
        i = i + 1;
    }
    assert(steps@.subrange(i as int, steps@.len() as int).len() == 0);
    Some(cur)
}

/// The text of `field` in `ticker`.
pub open spec fn field_text(ticker: Json, field: Field) -> Option<Seq<char>> {
    match ticker.member(field.key@) {
        None => None,
        Some(v) => match field.index {
            None => v.text(),
            Some(i) => match v.element(i as int) {
                Some(e) => e.text(),
                None => None,
            },
        },
    }
}

/// The text of `field` in `ticker`.
pub fn read_field(ticker: &Json, field: Field) -> (r: Option<String>)
    ensures
        match r {
            Some(s) => field_text(*ticker, field) == Some(s@),
            None => field_text(*ticker, field) is None,
        },
{
    let value = match ticker.get_key(field.key) {
        Some(v) => v,
        None => {
            return None;
        },
    };
    let value = match field.index {
        None => value,
        Some(i) => match value.get_index(i) {
            Some(e) => e,
            None => {
                return None;
            },
        },
    };
    match value.as_str() {
        Some(s) => Some(String::from_str(s)),
        None => None,
    }
}

impl LayoutView {
    /// The error for a price of this exchange at `field` that cannot be read.
    pub open spec fn missing(self, field: Field) -> ParseError {
        ParseError::FieldNotFound { field, source: self.url }
    }

    /// The quote that this exchange's answer `json` holds.
    pub open spec fn quote_of(self, json: Json) -> Result<(Seq<char>, Seq<char>), ParseError> {
        match follow(json, self.ticker) {
            None => Err(ParseError::TickerNotFound { provider: self.name }),
            Some(ticker) => match field_text(ticker, self.ask) {
                None => Err(self.missing(self.ask)),
                Some(ask) => match field_text(ticker, self.bid) {
                    None => Err(self.missing(self.bid)),
                    Some(bid) => Ok((ask, bid)),
                },
            },
        }
    }

    /// The quote that this exchange's answer `body` holds.
    pub open spec fn response_quote(self, body: Seq<char>) -> Result<
        (Seq<char>, Seq<char>),
        ParseError,
    > {
        match json_from_str(body) {
            None => Err(ParseError::InvalidJson),
            Some(json) => self.quote_of(json),
        }
    }
}

/// The document that an exchange's answer `body` holds.
pub open spec fn body_document(body: Seq<char>) -> Result<Json, ParseError> {
    match json_from_str(body) {
        Some(json) => Ok(json),
        None => Err(ParseError::InvalidJson),
    }
}

/// Parses an exchange's answer `body` as JSON; `InvalidJson` where it is not.
pub fn parse_body(body: &str) -> (r: Result<Json, ParseError>)
    ensures
        r == body_document(body@),
{
    match parse_json(body) {
        Some(json) => Ok(json),
        None => Err(ParseError::InvalidJson),
    }
}

/// `r` is the outcome `s`, a quote given by its two texts.
pub open spec fn is_outcome(
    r: Result<Quote, ParseError>,
    s: Result<(Seq<char>, Seq<char>), ParseError>,
) -> bool {
    match s {
        Ok((ask, bid)) => r matches Ok(q) && q.ask@ == ask && q.bid@ == bid,
        Err(e) => r == Err::<Quote, ParseError>(e),
    }
}

impl Layout {
    /// The error for a price at `field` that cannot be read.
    pub fn missing(&self, field: Field) -> (r: ParseError)
        ensures
            r == self@.missing(field),
    {
        ParseError::FieldNotFound { field, source: self.url }
    }

    /// The ticker object in the answer `json`.
    pub fn ticker_data<'a>(&self, json: &'a Json) -> (r: Result<&'a Json, ParseError>)
        ensures
            match r {
                Ok(t) => follow(*json, self@.ticker) == Some(*t),
                Err(e) => follow(*json, self@.ticker) is None && e == ParseError::TickerNotFound {
                    provider: self.name,
                },
            },
    {
        match walk(json, self.ticker) {
            Some(t) => Ok(t),
            None => Err(ParseError::TickerNotFound { provider: self.name }),
        }
    }

    /// The text of the price at `field` in `ticker`.
    pub fn field(&self, ticker: &Json, field: Field) -> (r: Result<String, ParseError>)
        ensures
            match r {
                Ok(s) => field_text(*ticker, field) == Some(s@),
                Err(e) => field_text(*ticker, field) is None && e == self@.missing(field),
            },
    {
        match read_field(ticker, field) {
            Some(s) => Ok(s),
            None => Err(self.missing(field)),
        }
    }

    /// The quote that the answer `json` holds: the ticker first, then the
    /// ask, then the bid; the first that cannot be read is the error. The two
    /// texts are not checked to be numbers here (that is floating point): a
    /// caller that parses them reports one that is not a number with
    /// `missing` for its field, ask before bid.
    pub fn quote(&self, json: &Json) -> (r: Result<Quote, ParseError>)
        ensures
            is_outcome(r, self@.quote_of(*json)),
    {
        let ticker = match self.ticker_data(json) {
            Ok(t) => t,
            Err(e) => {
                return Err(e);
            },
        };
        let ask = match self.field(ticker, self.ask) {
            Ok(s) => s,
            Err(e) => {
                return Err(e);
            },
        };
        let bid = match self.field(ticker, self.bid) {
            Ok(s) => s,
            Err(e) => {
                return Err(e);
            },
        };
        Ok(Quote { ask, bid })
    }

    /// The quote that the answer `body` holds: an error where it is not JSON,
    /// else what `quote` reads out of it.
    pub fn parse_response(&self, body: &str) -> (r: Result<Quote, ParseError>)
        ensures
            is_outcome(r, self@.response_quote(body@)),
    {
        match parse_body(body) {
            Err(e) => Err(e),
            Ok(json) => self.quote(&json),
        }
    }
}

/// The text of `error`.
pub open spec fn error_message(error: ParseError) -> Seq<char> {
    match error {
        ParseError::InvalidJson => "JSON serialization error"@,
        ParseError::TickerNotFound { provider } => "Failed to locate ticker data in "@
            + provider@ + " response"@,
        ParseError::FieldNotFound { field, source } => match field.index {
            None => "Failed to parse field "@ + field.key@ + " in response from "@
                + source.spec_render("<symbol>"@),
            Some(i) => "Failed to parse field "@ + field.key@ + " at index "@ + decimal(
                i as nat,
            ) + " in response from "@ + source.spec_render("<symbol>"@),
        },
    }
}

impl ParseError {
    /// The text of this error, as the exchange parsers word it.
    pub fn message(&self) -> (r: String)
        ensures
            r@ == error_message(*self),
    {
        match self {
            ParseError::InvalidJson => String::from_str("JSON serialization error"),
            ParseError::TickerNotFound { provider } => {
                let mut r = String::from_str("Failed to locate ticker data in ");
                r.append(provider);
                r.append(" response");
                r
            },
            ParseError::FieldNotFound { field, source } => {
                let mut r = String::from_str("Failed to parse field ");
                r.append(field.key);
                match field.index {
                    None => {},
                    Some(i) => {
                        r.append(" at index ");
                        let digits = decimal_string(i as u64);
                        r.append(digits.as_str());
                    },
                }
                r.append(" in response from ");
                let url = source.render("<symbol>");
                r.append(url.as_str());
                r
            },
        }
    }
}

/// An exchange that quotes a price.
pub trait Provider {
    /// What tells this exchange from the others.
    spec fn spec_layout(&self) -> LayoutView;

    fn layout(&self) -> (r: Layout)
        ensures
            r@ == self.spec_layout(),
    ;

    /// The exchange's name.
    fn name(&self) -> (r: &'static str)
        ensures
            r == self.spec_layout().name,
    {
        self.layout().name
    }

    /// The URL of the exchange's ticker for `symbol`.
    fn url(&self, symbol: &str) -> (r: String)
        ensures
            r@ == self.spec_layout().url.spec_render(symbol@),
    {
        self.layout().url.render(symbol)
    }

    /// The quote in the exchange's answer `body`, as two price texts; whether
    /// they are numbers is left to the caller, as for `Layout::quote`.
    fn parse_response(&self, body: &str) -> (r: Result<Quote, ParseError>)
        ensures
            is_outcome(r, self.spec_layout().response_quote(body@)),
    {
        self.layout().parse_response(body)
    }
}

pub struct Binance;

pub struct Bitstamp;

pub struct Bybit;

pub struct CoinbaseExchange;

pub struct Gate;

pub struct Kraken;

pub struct OKX;

impl Provider for Binance {
    open spec fn spec_layout(&self) -> LayoutView {
        LayoutView {
            name: "Binance",
            url: UrlTemplate {
                head: "https://api.binance.com/api/v3/ticker/24hr?symbol=",
                tail: "USDT",
                upper_symbol: false,
            },
            ticker: seq![],
            ask: Field { key: "askPrice", index: None },
            bid: Field { key: "bidPrice", index: None },
        }
    }

    fn layout(&self) -> (r: Layout) {
        let r = Layout {
            name: "Binance",
            url: UrlTemplate {
                head: "https://api.binance.com/api/v3/ticker/24hr?symbol=",
                tail: "USDT",
                upper_symbol: false,
            },
            ticker: &[],
            ask: Field { key: "askPrice", index: None },
            bid: Field { key: "bidPrice", index: None },
        };
        assert(r.ticker@ =~= Seq::<Step>::empty());
        r
    }
}

impl Provider for Bitstamp {
    open spec fn spec_layout(&self) -> LayoutView {
        LayoutView {
            name: "Bitstamp",
            url: UrlTemplate {
                head: "https://www.bitstamp.net/api/v2/ticker/",
                tail: "USD/",
                upper_symbol: false,
            },
            ticker: seq![],
            ask: Field { key: "ask", index: None },
            bid: Field { key: "bid", index: None },
        }
    }

    fn layout(&self) -> (r: Layout) {
        let r = Layout {
            name: "Bitstamp",
            url: UrlTemplate {
                head: "https://www.bitstamp.net/api/v2/ticker/",
                tail: "USD/",
                upper_symbol: false,
            },
            ticker: &[],
            ask: Field { key: "ask", index: None },
            bid: Field { key: "bid", index: None },
        };
        assert(r.ticker@ =~= Seq::<Step>::empty());
        r
    }
}

impl Provider for Bybit {
    open spec fn spec_layout(&self) -> LayoutView {
        LayoutView {
            name: "Bybit",
            url: UrlTemplate {
                head: "https://api.bybit.com/v5/market/tickers?category=spot&symbol=",
                tail: "USDT",
                upper_symbol: true,
            },
            ticker: seq![Step::Key("result"), Step::Key("list"), Step::Index(0)],
            ask: Field { key: "ask1Price", index: None },
            bid: Field { key: "bid1Price", index: None },
        }
    }

    fn layout(&self) -> (r: Layout) {
        Layout {
            name: "Bybit",
            url: UrlTemplate {
                head: "https://api.bybit.com/v5/market/tickers?category=spot&symbol=",
                tail: "USDT",
                upper_symbol: true,
            },
            ticker: &[Step::Key("result"), Step::Key("list"), Step::Index(0)],
            ask: Field { key: "ask1Price", index: None },
            bid: Field { key: "bid1Price", index: None },
        }
    }
}

impl Provider for CoinbaseExchange {
    open spec fn spec_layout(&self) -> LayoutView {
        LayoutView {
            name: "CoinbaseExchange",
            url: UrlTemplate {
                head: "https://api.exchange.coinbase.com/products/",
                tail: "-USD/ticker",
                upper_symbol: true,
            },
            ticker: seq![],
            ask: Field { key: "ask", index: None },
            bid: Field { key: "bid", index: None },
        }
    }

    fn layout(&self) -> (r: Layout) {
        let r = Layout {
            name: "CoinbaseExchange",
            url: UrlTemplate {
                head: "https://api.exchange.coinbase.com/products/",
                tail: "-USD/ticker",
                upper_symbol: true,
            },
            ticker: &[],
            ask: Field { key: "ask", index: None },
            bid: Field { key: "bid", index: None },
        };
        assert(r.ticker@ =~= Seq::<Step>::empty());
        r
    }
}

impl Provider for Gate {
    open spec fn spec_layout(&self) -> LayoutView {
        LayoutView {
            name: "Gate",
            url: UrlTemplate {
                head: "https://api.gateio.ws/api/v4/spot/tickers?currency_pair=",
                tail: "_USDT",
                upper_symbol: true,
            },
            ticker: seq![Step::Index(0)],
            ask: Field { key: "lowest_ask", index: None },
            bid: Field { key: "highest_bid", index: None },
        }
    }

    fn layout(&self) -> (r: Layout) {
        let r = Layout {
            name: "Gate",
            url: UrlTemplate {
                head: "https://api.gateio.ws/api/v4/spot/tickers?currency_pair=",
                tail: "_USDT",
                upper_symbol: true,
            },
            ticker: &[Step::Index(0)],
            ask: Field { key: "lowest_ask", index: None },
            bid: Field { key: "highest_bid", index: None },
        };
        assert(r.ticker@ =~= seq![Step::Index(0)]);
        r
    }
}

impl Provider for Kraken {
    open spec fn spec_layout(&self) -> LayoutView {
        LayoutView {
            name: "Kraken",
            url: UrlTemplate {
                head: "https://api.kraken.com/0/public/Ticker?pair=",
                tail: "USD",
                upper_symbol: false,
            },
            ticker: seq![Step::Key("result"), Step::FirstValue],
            ask: Field { key: "a", index: Some(0) },
            bid: Field { key: "b", index: Some(0) },
        }
    }

    fn layout(&self) -> (r: Layout) {
        Layout {
            name: "Kraken",
            url: UrlTemplate {
                head: "https://api.kraken.com/0/public/Ticker?pair=",
                tail: "USD",
                upper_symbol: false,
            },
            ticker: &[Step::Key("result"), Step::FirstValue],
            ask: Field { key: "a", index: Some(0) },
            bid: Field { key: "b", index: Some(0) },
        }
    }
}

impl Provider for OKX {
    open spec fn spec_layout(&self) -> LayoutView {
        LayoutView {
            name: "OKX",
            url: UrlTemplate {
                head: "https://eea.okx.com/api/v5/market/ticker?instId=",
                tail: "-USDT",
                upper_symbol: true,
            },
            ticker: seq![Step::Key("data"), Step::Index(0)],
            ask: Field { key: "askPx", index: None },
            bid: Field { key: "bidPx", index: None },
        }
    }

    fn layout(&self) -> (r: Layout) {
        Layout {
            name: "OKX",
            url: UrlTemplate {
                head: "https://eea.okx.com/api/v5/market/ticker?instId=",
                tail: "-USDT",
                upper_symbol: true,
            },
            ticker: &[Step::Key("data"), Step::Index(0)],
            ask: Field { key: "askPx", index: None },
            bid: Field { key: "bidPx", index: None },
        }
    }
}

} // verus!
