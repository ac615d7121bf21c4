use coin_gateway::greet;
use coin_gateway::market::{
    begin, classify, decimal_string, pass_through, respond, CoinParams, ExchangeParams,
    HistoryParams, MarketQuery, TransportError,
};
use coin_gateway::usage::{get_stats, increment, UsageStats};

fn price(coin: &str) -> MarketQuery {
    MarketQuery::Price(CoinParams { coin: coin.to_string() })
}

fn history(coin: &str, date: u32) -> MarketQuery {
    MarketQuery::History(HistoryParams { coin: coin.to_string(), date })
}

fn exchange(from: &str, to: &str) -> MarketQuery {
    MarketQuery::Exchange(ExchangeParams { from: from.to_string(), to: to.to_string() })
}

#[test]
fn metrics_empty_at_start() {
    let stats = UsageStats::new();
    assert!(get_stats(&stats).is_empty());
    assert_eq!(stats.count("fetch"), 0);
}

#[test]
fn each_endpoint_counted_once_per_call() {
    let mut stats = UsageStats::new();
    let queries = vec![price("bitcoin"), MarketQuery::Coins, history("bitcoin", 1012024),
        MarketQuery::Trending, exchange("bitcoin", "eur")];
    for q in &queries {
        begin(&mut stats, q);
    }
    for name in ["fetch", "coins", "fetchwithdate", "trending", "exchange"] {
        assert_eq!(stats.count(name), 1, "{}", name);
    }
    begin(&mut stats, &price("ethereum"));
    begin(&mut stats, &price("dogecoin"));
    assert_eq!(stats.count("fetch"), 3);
    assert_eq!(stats.count("coins"), 1);
    let mut listed = get_stats(&stats);
    listed.sort();
    assert_eq!(listed, vec![
        ("coins".to_string(), 1),
        ("exchange".to_string(), 1),
        ("fetch".to_string(), 3),
        ("fetchwithdate".to_string(), 1),
        ("trending".to_string(), 1),
    ]);
}

#[test]
fn interleaved_calls_lose_no_update() {
    let mut stats = UsageStats::new();
    for i in 0..100u32 {
        increment(&mut stats, if i % 3 == 0 { "coins" } else { "trending" });
    }
    assert_eq!(stats.count("coins"), 34);
    assert_eq!(stats.count("trending"), 66);
    assert_eq!(get_stats(&stats).len(), 2);
}

#[test]
fn upstream_urls() {
    let mut stats = UsageStats::new();
    assert_eq!(begin(&mut stats, &price("bitcoin")),
        "https://api.coingecko.com/api/v3/simple/price?ids=bitcoin&vs_currencies=usd");
    assert_eq!(begin(&mut stats, &MarketQuery::Coins),
        "https://api.coingecko.com/api/v3/coins/list");
    assert_eq!(begin(&mut stats, &history("bitcoin", 30122023)),
        "https://api.coingecko.com/api/v3/coins/bitcoin/history?date=30122023");
    assert_eq!(begin(&mut stats, &MarketQuery::Trending),
        "https://api.coingecko.com/api/v3/search/trending");
    assert_eq!(begin(&mut stats, &exchange("bitcoin", "eur")),
        "https://api.coingecko.com/api/v3/simple/price?ids=bitcoin&vs_currencies=eur");
}

#[test]
fn decimal_digits() {
    assert_eq!(decimal_string(0), "0");
    assert_eq!(decimal_string(7), "7");
    assert_eq!(decimal_string(1052024), "1052024");
    assert_eq!(decimal_string(u32::MAX), "4294967295");
}

#[test]
fn empty_marker_is_not_found() {
    let r = classify(Ok("{}".to_string()), "{}", "Coin 'x' not found");
    assert_eq!(r.status(), 404);
    assert_eq!(r.text(), "Coin 'x' not found");
}

#[test]
fn empty_marker_match_is_literal() {
    for body in ["{} ", " {}", "{ }", "{}\n"] {
        let r = classify(Ok(body.to_string()), "{}", "gone");
        assert_eq!(r.status(), 200);
        assert_eq!(r.text(), body);
    }
    let a = classify(Ok("{}".to_string()), "{}", "gone");
    let b = classify(Ok("{}".to_string()), "{}", "gone");
    assert_eq!((a.status(), a.text()), (b.status(), b.text()));
}

#[test]
fn transport_failures_are_internal_errors() {
    let r = classify(Err(TransportError::Request), "{}", "gone");
    assert_eq!((r.status(), r.text().as_str()), (500, "Failed to fetch data"));
    let r = classify(Err(TransportError::Body), "{}", "gone");
    assert_eq!((r.status(), r.text().as_str()), (500, "Failed to parse response"));
    let r = pass_through(Err(TransportError::Request));
    assert_eq!((r.status(), r.text().as_str()), (500, "Failed to fetch data"));
}

#[test]
fn not_found_messages() {
    let r = respond(&price("nocoin"), Ok("{}".to_string()));
    assert_eq!((r.status(), r.text().as_str()), (404, "Coin 'nocoin' not found"));
    let r = respond(&history("nocoin", 1012024), Ok("{}".to_string()));
    assert_eq!((r.status(), r.text().as_str()),
        (404, "No historical data found for coin 'nocoin' on date '1012024'"));
    let r = respond(&exchange("a", "b"), Ok("{}".to_string()));
    assert_eq!((r.status(), r.text().as_str()),
        (404, "Exchange rate from 'a' to 'b' not found"));
}

#[test]
fn listing_endpoints_pass_empty_body_through() {
    let r = respond(&MarketQuery::Coins, Ok("{}".to_string()));
    assert_eq!((r.status(), r.text().as_str()), (200, "{}"));
    let r = respond(&MarketQuery::Trending, Ok("{\"coins\":[]}".to_string()));
    assert_eq!((r.status(), r.text().as_str()), (200, "{\"coins\":[]}"));
    let r = respond(&MarketQuery::Trending, Err(TransportError::Body));
    assert_eq!((r.status(), r.text().as_str()), (500, "Failed to parse response"));
}

#[test]
fn data_is_passed_through() {
    let body = "{\"bitcoin\":{\"usd\":64000}}";
    let r = respond(&price("bitcoin"), Ok(body.to_string()));
    assert_eq!((r.status(), r.text().as_str()), (200, body));
}

#[test]
fn hello_alice() {
    assert_eq!(greet("Alice"), "hello Alice");
    assert_eq!(greet(""), "hello ");
}

#[test]
fn other_endpoints_untouched_by_a_call() {
    let mut stats = UsageStats::new();
    begin(&mut stats, &MarketQuery::Coins);
    begin(&mut stats, &exchange("a", "b"));
    begin(&mut stats, &MarketQuery::Coins);
    assert_eq!(stats.count("coins"), 2);
    assert_eq!(stats.count("exchange"), 1);
    assert_eq!(stats.count("fetch"), 0);
    assert_eq!(stats.count("historical"), 0);
}
