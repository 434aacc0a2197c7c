use marketlink::asset::{Asset, AssetClass};
use marketlink::asset_table::AssetTable;
use marketlink::country::{Country, JP, KR, US, XX};
use marketlink::currency::Currency;
use marketlink::exchange::{Exchange, ExchangeCode};
use marketlink::market::{Pair, Side};
use marketlink::security::Security;

#[test]
fn test_asset() {
    let asset = Asset::new(
        0,
        "Bitcoin".to_string(),
        "BTC".to_string(),
        AssetClass::Cryptocurrency,
    );

    assert_eq!(asset.id(), 0);
    assert_eq!(asset.name(), "Bitcoin");
    assert_eq!(asset.symbol(), "BTC");
    assert_eq!(asset.class(), AssetClass::Cryptocurrency);

    assert_eq!(
        asset,
        Asset::new(
            0,
            "Bitcoin".to_string(),
            "BTC".to_string(),
            AssetClass::Cryptocurrency
        )
    );
}

#[test]
fn assets_with_one_id_are_equal() {
    let a = Asset::new(3, "Ether".to_string(), "ETH".to_string(), AssetClass::Cryptocurrency);
    let b = Asset::new(3, "Other".to_string(), "OTH".to_string(), AssetClass::Equity);
    let c = Asset::new(4, "Ether".to_string(), "ETH".to_string(), AssetClass::Cryptocurrency);
    assert_eq!(a, b);
    assert_ne!(a, c);
}

#[test]
fn class_labels() {
    assert_eq!(AssetClass::Equity.label(), "Equity");
    assert_eq!(AssetClass::Currency.label(), "Currencies");
    assert_eq!(AssetClass::Cryptocurrency.label(), "Cryptocurrencies");
}

#[test]
fn test_add_asset() {
    let mut table = AssetTable::new();

    let id = table.add(
        "United States Dollar".to_string(),
        "USD".to_string(),
        AssetClass::Currency,
    );
    assert_eq!(id, 0);

    // Euro
    let id = table.add("Euro".to_string(), "EUR".to_string(), AssetClass::Currency);
    assert_eq!(id, 1);

    // United States Dollar
    let id = table.add(
        "United States Dollar".to_string(),
        "USD".to_string(),
        AssetClass::Currency,
    );
    assert_eq!(id, 0);
}

#[test]
fn test_get_asset() {
    let mut table = AssetTable::new();

    // Add United States Dollar
    let id = table.add(
        "United States Dollar".to_string(),
        "USD".to_string(),
        AssetClass::Currency,
    );
    let asset = table.get(id).unwrap();
    assert_eq!(asset.id(), id);
    assert_eq!(asset.name(), "United States Dollar");
    assert_eq!(asset.symbol(), "USD");
    assert_eq!(asset.class(), AssetClass::Currency);

    // Add Euro
    let id = table.add("Euro".to_string(), "EUR".to_string(), AssetClass::Currency);
    let asset = table.get(id).unwrap();
    assert_eq!(asset.id(), id);
    assert_eq!(asset.name(), "Euro");
    assert_eq!(asset.symbol(), "EUR");
    assert_eq!(asset.class(), AssetClass::Currency);

    // Try to get invalid asset id
    let asset = table.get(2);
    assert!(asset.is_none());
}

#[test]
fn same_name_in_another_class_is_a_new_asset() {
    let mut table = AssetTable::new();
    let a = table.add("Bitcoin".to_string(), "BTC".to_string(), AssetClass::Cryptocurrency);
    let b = table.add("Bitcoin".to_string(), "GBTC".to_string(), AssetClass::Equity);
    let c = table.add("Bitcoin".to_string(), "XBT".to_string(), AssetClass::Cryptocurrency);
    assert_eq!((a, b, c), (0, 1, 0));
    assert_eq!(table.get(1).unwrap().symbol(), "GBTC");
    assert_eq!(table.get(0).unwrap().symbol(), "BTC");
    assert!(table.get(u64::MAX).is_none());
}

#[test]
fn test_country() {
    assert_eq!(US(), "US".into()); // From<&str>

    // PartialEq
    assert_ne!(US(), JP());

    // Clone
    assert_eq!(US(), US().clone());

    // Text
    assert_eq!(US().code(), "US");
}

#[test]
fn country_codes() {
    assert_eq!(KR().code(), "KR");
    assert_eq!(XX(), Country::from("XX"));
    assert_ne!(Country::from("U"), US());
    assert_ne!(Country::from("USA"), US());
}

#[test]
fn test_currency() {
    assert_eq!(
        Currency::USD(),
        Currency::new("USD", "United States Dollar", "$")
    );

    assert_eq!(Currency::USD().get_code(), "USD");
    assert_eq!(Currency::USD().get_name(), "United States Dollar");
    assert_eq!(Currency::USD().get_symbol(), "$");
}

#[test]
fn won_currency() {
    let krw = Currency::KRW();
    assert_eq!(krw.get_code(), "KRW");
    assert_eq!(krw.get_name(), "South Korean Won");
    assert_eq!(krw.get_symbol(), "\u{20a9}");
    assert_ne!(krw, Currency::USD());
}

fn nyse() -> Exchange {
    Exchange::new(
        "New York Stock Exchange",
        ExchangeCode::Mic("NYSE".into()),
        US(),
        "America/New_York".parse().unwrap(),
    )
}

#[test]
fn test_market() {
    let market = nyse();

    assert_eq!(market.get_name(), "New York Stock Exchange");
    assert_eq!(market.get_code(), ExchangeCode::Mic("NYSE".into()));
    assert_eq!(market.get_country(), US());
    assert_eq!(market.get_timezone(), "America/New_York".parse().unwrap());

    let now = chrono::Utc::now().timestamp();

    // convert back to UTC to compare
    assert_eq!(market.time(now).unwrap().utc_seconds, now);
}

#[test]
fn zone_offsets_follow_the_calendar() {
    let market = nyse();
    // 2024-01-15T12:00:00Z: Eastern Standard Time, five hours behind.
    let winter = market.time(1_705_320_000).unwrap();
    assert_eq!(winter.offset_seconds, -5 * 3600);
    // 2024-07-15T12:00:00Z: Eastern Daylight Time, four hours behind.
    let summer = market.time(1_721_044_800).unwrap();
    assert_eq!(summer.offset_seconds, -4 * 3600);
    assert!(market.time(i64::MAX).is_none());
}

#[test]
fn exchange_codes_compare_by_kind_and_text() {
    assert_ne!(ExchangeCode::Mic("X".into()), ExchangeCode::Crypto("X".into()));
    assert_eq!(ExchangeCode::Crypto("BINANCE".into()), ExchangeCode::Crypto("BINANCE".into()));
}

#[test]
fn security_accessors() {
    let s = Security::new("AAPL", "Apple Inc.", Currency::USD(), nyse());
    assert_eq!(s.symbol(), "AAPL");
    assert_eq!(s.name(), "Apple Inc.");
    assert_eq!(s.quote(), &Currency::USD());
    assert_eq!(s.market().get_name(), "New York Stock Exchange");
}

#[test]
fn pair_and_side() {
    let p = Pair { base: 1, quote: 0 };
    assert_eq!(p, Pair { base: 1, quote: 0 });
    assert_ne!(Side::Buy, Side::Sell);
}
