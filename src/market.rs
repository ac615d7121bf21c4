//! The market-data endpoints: which upstream URL each one asks, under which
//! name it is counted, and how the upstream answer becomes a reply.
use vstd::prelude::*;

use crate::outcome::Outcome;
use crate::usage::{after_calls, bump, count_in, increment, lemma_calls_counted, occurrences, UsageStats};

verus! {

/// Query of the price lookup.
pub struct CoinParams {
    pub coin: String,
}

/// Query of the historical price lookup; `date` is written ddmmyyyy.
pub struct HistoryParams {
    pub coin: String,
    pub date: u32,
}

/// Query of the exchange-rate lookup.
pub struct ExchangeParams {
    pub from: String,
    pub to: String,
}

/// Why an upstream answer could not be had.
#[derive(Clone, Copy, Debug, PartialEq, Eq, Structural)]
pub enum TransportError {
    /// The request failed: no connection, no name resolution, and the like.
    Request,
    /// The response came but its body could not be read as text.
    Body,
}

/// One call of a market-data endpoint, with its query.
pub enum MarketQuery {
    Price(CoinParams),
    Coins,
    History(HistoryParams),
    Trending,
    Exchange(ExchangeParams),
}

/// The character of a decimal digit.
pub open spec fn digit_char(d: nat) -> char {
    if d == 0 {
        '0'
    } else if d == 1 {
        '1'
    } else if d == 2 {
        '2'
    } else if d == 3 {
        '3'
    } else if d == 4 {
        '4'
    } else if d == 5 {
        '5'
    } else if d == 6 {
        '6'
    } else if d == 7 {
        '7'
    } else if d == 8 {
        '8'
    } else {
        '9'
    }
}

/// `n` in decimal, without leading zeros.
pub open spec fn decimal(n: nat) -> Seq<char>
    decreases n,
{
    if n < 10 {
        seq![digit_char(n)]
    } else {
        decimal(n / 10).push(digit_char(n % 10))
    }
}

/// The name under which a call is counted.
pub open spec fn endpoint_name(q: MarketQuery) -> Seq<char> {
    match q {
        MarketQuery::Price(_) => "fetch"@,
        MarketQuery::Coins => "coins"@,
        MarketQuery::History(_) => "fetchwithdate"@,
        MarketQuery::Trending => "trending"@,
        MarketQuery::Exchange(_) => "exchange"@,
    }
}

/// The upstream URL asked for a call; parameters are put in as they are.
pub open spec fn upstream_url(q: MarketQuery) -> Seq<char> {
    match q {
        MarketQuery::Price(p) => "https://api.coingecko.com/api/v3/simple/price?ids="@ + p.coin@
            + "&vs_currencies=usd"@,
        MarketQuery::Coins => "https://api.coingecko.com/api/v3/coins/list"@,
        MarketQuery::History(p) => "https://api.coingecko.com/api/v3/coins/"@ + p.coin@
            + "/history?date="@ + decimal(p.date as nat),
        MarketQuery::Trending => "https://api.coingecko.com/api/v3/search/trending"@,
        MarketQuery::Exchange(p) => "https://api.coingecko.com/api/v3/simple/price?ids="@
            + p.from@ + "&vs_currencies="@ + p.to@,
    }
}

/// The message sent when upstream has no data for a call; `None` for the
/// endpoints whose answer is always passed through.
pub open spec fn not_found_message(q: MarketQuery) -> Option<Seq<char>> {
    match q {
        MarketQuery::Price(p) => Some("Coin '"@ + p.coin@ + "' not found"@),
        MarketQuery::Coins => None,
        MarketQuery::History(p) => Some(
            "No historical data found for coin '"@ + p.coin@ + "' on date '"@ + decimal(
                p.date as nat,
            ) + "'"@,
        ),
        MarketQuery::Trending => None,
        MarketQuery::Exchange(p) => Some(
            "Exchange rate from '"@ + p.from@ + "' to '"@ + p.to@ + "' not found"@,
        ),
    }
}

/// The message for a failed upstream call.
pub open spec fn transport_message(e: TransportError) -> Seq<char> {
    match e {
        TransportError::Request => "Failed to fetch data"@,
        TransportError::Body => "Failed to parse response"@,
    }
}

/// The reply to an upstream answer, where a body equal to `marker` means
/// that upstream has no data. The comparison is literal: a body that differs
/// from the marker in any character, white space included, is data.
pub open spec fn classified(
    result: Result<Seq<char>, TransportError>,
    marker: Seq<char>,
    message: Seq<char>,
) -> (u16, Seq<char>) {
    match result {
        Err(e) => (500, transport_message(e)),
        Ok(body) => if body == marker {
            (404, message)
        } else {
            (200, body)
        },
    }
}

/// The reply to an upstream answer that is passed through whatever it holds.
pub open spec fn passed_through(result: Result<Seq<char>, TransportError>) -> (u16, Seq<char>) {
    match result {
        Err(e) => (500, transport_message(e)),
        Ok(body) => (200, body),
    }
}

/// The view of an upstream answer.
pub open spec fn fetched_view(result: Result<String, TransportError>) -> Result<
    Seq<char>,
    TransportError,
> {
    match result {
        Ok(body) => Ok(body@),
        Err(e) => Err(e),
    }
}

/// The reply of an endpoint to the upstream answer.
pub open spec fn reply_to(q: MarketQuery, result: Result<Seq<char>, TransportError>) -> (
    u16,
    Seq<char>,
) {
    match not_found_message(q) {
        Some(m) => classified(result, "{}"@, m),
        None => passed_through(result),
    }
}

/// Whether two calls go to the same endpoint, whatever their queries.
pub open spec fn same_endpoint(a: MarketQuery, b: MarketQuery) -> bool {
    match (a, b) {
        (MarketQuery::Price(_), MarketQuery::Price(_)) => true,
        (MarketQuery::Coins, MarketQuery::Coins) => true,
        (MarketQuery::History(_), MarketQuery::History(_)) => true,
        (MarketQuery::Trending, MarketQuery::Trending) => true,
        (MarketQuery::Exchange(_), MarketQuery::Exchange(_)) => true,
        _ => false,
    }
}

/// The names under which a run of calls is counted, in order.
pub open spec fn call_names(calls: Seq<MarketQuery>) -> Seq<Seq<char>> {
    calls.map_values(|q: MarketQuery| endpoint_name(q))
}

/// How many of `calls` go to the endpoint of `q`.
pub open spec fn calls_to(calls: Seq<MarketQuery>, q: MarketQuery) -> nat
    decreases calls.len(),
{
    if calls.len() == 0 {
        0
    } else {
        calls_to(calls.drop_last(), q) + if same_endpoint(calls.last(), q) {
            1nat
        } else {
            0nat
        }
    }
}

/// Each endpoint is counted under a name of its own.
pub proof fn lemma_endpoint_names_distinct(a: MarketQuery, b: MarketQuery)
    ensures
        endpoint_name(a) == endpoint_name(b) <==> same_endpoint(a, b),
{
    reveal_strlit("fetch");
    reveal_strlit("coins");
    reveal_strlit("fetchwithdate");
    reveal_strlit("trending");
    reveal_strlit("exchange");
    if endpoint_name(a) == endpoint_name(b) {
        assert(endpoint_name(a).len() == endpoint_name(b).len());
        assert(endpoint_name(a)[0] == endpoint_name(b)[0]);
    }
}

proof fn lemma_names_counted(calls: Seq<MarketQuery>, q: MarketQuery)
    ensures
        occurrences(call_names(calls), endpoint_name(q)) == calls_to(calls, q),
    decreases calls.len(),
{
    if calls.len() > 0 {
        lemma_names_counted(calls.drop_last(), q);
        assert(call_names(calls).drop_last() =~= call_names(calls.drop_last()));
        lemma_endpoint_names_distinct(calls.last(), q);
    }
}

/// Every call of a market-data endpoint adds exactly one to that endpoint's
/// count and to no other: however the calls of concurrent handlers are
/// serialised, an endpoint's count grows by the number of its calls.
pub proof fn lemma_market_calls_counted(
    m: Map<Seq<char>, nat>,
    calls: Seq<MarketQuery>,
    q: MarketQuery,
)
    ensures
        count_in(after_calls(m, call_names(calls)), endpoint_name(q)) == count_in(
            m,
            endpoint_name(q),
        ) + calls_to(calls, q),
{
    lemma_calls_counted(m, call_names(calls), endpoint_name(q));
    lemma_names_counted(calls, q);
}

fn digit_str(d: u32) -> (r: &'static str)
    requires
        d < 10,
    ensures
        r@ == seq![digit_char(d as nat)],
{
    proof {
        reveal_strlit("0");
        reveal_strlit("1");
        reveal_strlit("2");
        reveal_strlit("3");
        reveal_strlit("4");
        reveal_strlit("5");
        reveal_strlit("6");
        reveal_strlit("7");
        reveal_strlit("8");
        reveal_strlit("9");
    }
    if d == 0 {
        "0"
    } else if d == 1 {
        "1"
    } else if d == 2 {
        "2"
    } else if d == 3 {
        "3"
    } else if d == 4 {
        "4"
    } else if d == 5 {
        "5"
    } else if d == 6 {
        "6"
    } else if d == 7 {
        "7"
    } else if d == 8 {
        "8"
    } else {
        "9"
    }
}

/// `n` written in decimal.
pub fn decimal_string(n: u32) -> (r: String)
    ensures
        r@ == decimal(n as nat),
    decreases n,
{
    if n < 10 {
        String::from_str(digit_str(n))
    } else {
        let mut s = decimal_string(n / 10);
        s.append(digit_str(n % 10));
        s
    }
}

impl MarketQuery {
    /// The name under which this call is counted.
    pub fn endpoint(&self) -> (r: &'static str)
        ensures
            r@ == endpoint_name(*self),
    {
        match self {
            MarketQuery::Price(_) => "fetch",
            MarketQuery::Coins => "coins",
            MarketQuery::History(_) => "fetchwithdate",
            MarketQuery::Trending => "trending",
            MarketQuery::Exchange(_) => "exchange",
        }
    }

    /// The upstream URL this call asks.
    pub fn url(&self) -> (r: String)
        ensures
            r@ == upstream_url(*self),
    {
        match self {
            MarketQuery::Price(p) => {
                let mut u = String::from_str("https://api.coingecko.com/api/v3/simple/price?ids=");
                u.append(p.coin.as_str());
                u.append("&vs_currencies=usd");
                u
            },
            MarketQuery::Coins => String::from_str("https://api.coingecko.com/api/v3/coins/list"),
            MarketQuery::History(p) => {
                let mut u = String::from_str("https://api.coingecko.com/api/v3/coins/");
                u.append(p.coin.as_str());
                u.append("/history?date=");
                let d = decimal_string(p.date);
                u.append(d.as_str());
                u
            },
            MarketQuery::Trending => String::from_str(
                "https://api.coingecko.com/api/v3/search/trending",
            ),
            MarketQuery::Exchange(p) => {
                let mut u = String::from_str("https://api.coingecko.com/api/v3/simple/price?ids=");
                u.append(p.from.as_str());
                u.append("&vs_currencies=");
                u.append(p.to.as_str());
                u
            },
        }
    }

    /// The message sent when upstream has no data for this call, if the
    /// endpoint checks for that.
    pub fn not_found(&self) -> (r: Option<String>)
        ensures
            match r {
                Some(m) => not_found_message(*self) == Some(m@),
                None => not_found_message(*self) is None,
            },
    {
        match self {
            MarketQuery::Price(p) => {
                let mut m = String::from_str("Coin '");
                m.append(p.coin.as_str());
                m.append("' not found");
                Some(m)
            },
            MarketQuery::Coins => None,
            MarketQuery::History(p) => {
                let mut m = String::from_str("No historical data found for coin '");
                m.append(p.coin.as_str());
                m.append("' on date '");
                let d = decimal_string(p.date);
                m.append(d.as_str());
                m.append("'");
                Some(m)
            },
            MarketQuery::Trending => None,
            MarketQuery::Exchange(p) => {
                let mut m = String::from_str("Exchange rate from '");
                m.append(p.from.as_str());
                m.append("' to '");
                m.append(p.to.as_str());
                m.append("' not found");
                Some(m)
            },
        }
    }
}

fn transport_failure(e: TransportError) -> (r: Outcome)
    ensures
        r@ == (500u16, transport_message(e)),
{
    match e {
        TransportError::Request => Outcome::InternalError(String::from_str("Failed to fetch data")),
        TransportError::Body => Outcome::InternalError(String::from_str("Failed to parse response")),
    }
}

/// Turns an upstream answer into a reply: a failed call is an internal
/// error, a body equal to `empty_marker` is "not found" with
/// `not_found_message`, any other body is sent as it is.
pub fn classify(result: Result<String, TransportError>, empty_marker: &str, not_found_message: &str)
    -> (r: Outcome)
    ensures
        r@ == classified(fetched_view(result), empty_marker@, not_found_message@),
{
    match result {
        Err(e) => transport_failure(e),
        Ok(body) => {
            let marker = String::from_str(empty_marker);
            if body == marker {
                Outcome::NotFound(String::from_str(not_found_message))
            } else {
                Outcome::Success(body)
            }
        },
    }
}

/// Turns an upstream answer into a reply without looking into the body.
pub fn pass_through(result: Result<String, TransportError>) -> (r: Outcome)
    ensures
        r@ == passed_through(fetched_view(result)),
{
    match result {
        Err(e) => transport_failure(e),
        Ok(body) => Outcome::Success(body),
    }
}

/// First half of a market-data call: counts it under its endpoint's name and
/// gives the upstream URL to ask.
pub fn begin(stats: &mut UsageStats, q: &MarketQuery) -> (r: String)
    requires
        old(stats).wf(),
        count_in(old(stats)@, endpoint_name(*q)) < u64::MAX,
    ensures
        final(stats).wf(),
        final(stats)@ == bump(old(stats)@, endpoint_name(*q)),
        r@ == upstream_url(*q),
{
    increment(stats, q.endpoint());
    q.url()
}

/// Second half of a market-data call: the reply to what upstream answered.
pub fn respond(q: &MarketQuery, result: Result<String, TransportError>) -> (r: Outcome)
    ensures
        r@ == reply_to(*q, fetched_view(result)),
{
    match q.not_found() {
        Some(m) => classify(result, "{}", m.as_str()),
        None => pass_through(result),
    }
}

} // verus!
