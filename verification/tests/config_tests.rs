use arbitrage_monitor::asset::Address;
use arbitrage_monitor::config::{
    assemble, load, parse_unsigned, read_address, AddressSetting, ConfigError, RawSettings,
    Setting, Settings, DEFAULT_FIXED_COST, DEFAULT_INTERVAL_SECS, DEFAULT_MIN_PROFIT,
    DEFAULT_TRADE_SIZE,
};

const USDC_TEXT: &str = "0xA0b86991c6218b36c1d19D4a2e9Eb0cE3606eB48";
const WETH_TEXT: &str = "0xC02aaA39b223FE8D0A0e5C4F27eAD9083C756Cc2";
const ROUTER_ONE_TEXT: &str = "0x7a250d5630B4cF539739dF2C5dAcb4c659F2488D";
const ROUTER_TWO_TEXT: &str = "d9e1cE17f2641f24aE83637ab66a2cca9C378B9F";

fn usdc() -> Address {
    Address::from_bytes([
        0xa0, 0xb8, 0x69, 0x91, 0xc6, 0x21, 0x8b, 0x36, 0xc1, 0xd1, 0x9d, 0x4a, 0x2e, 0x9e, 0xb0,
        0xce, 0x36, 0x06, 0xeb, 0x48,
    ])
}

fn weth() -> Address {
    Address::from_bytes([
        0xc0, 0x2a, 0xaa, 0x39, 0xb2, 0x23, 0xfe, 0x8d, 0x0a, 0x0e, 0x5c, 0x4f, 0x27, 0xea, 0xd9,
        0x08, 0x3c, 0x75, 0x6c, 0xc2,
    ])
}

fn router_one() -> Address {
    Address::from_bytes([
        0x7a, 0x25, 0x0d, 0x56, 0x30, 0xb4, 0xcf, 0x53, 0x97, 0x39, 0xdf, 0x2c, 0x5d, 0xac, 0xb4,
        0xc6, 0x59, 0xf2, 0x48, 0x8d,
    ])
}

fn router_two() -> Address {
    Address::from_bytes([
        0xd9, 0xe1, 0xce, 0x17, 0xf2, 0x64, 0x1f, 0x24, 0xae, 0x83, 0x63, 0x7a, 0xb6, 0x6a, 0x2c,
        0xca, 0x9c, 0x37, 0x8b, 0x9f,
    ])
}

fn text(value: &str) -> Option<String> {
    Some(value.to_string())
}

fn complete() -> RawSettings {
    RawSettings {
        rpc_url: text("https://node.example/rpc"),
        dex1_router: text(ROUTER_ONE_TEXT),
        dex2_router: text(ROUTER_TWO_TEXT),
        usdc_address: text(USDC_TEXT),
        weth_address: text(WETH_TEXT),
        trade_usdc: text("250"),
        min_profit: Some(750_000),
        fixed_cost: Some(2_500_000),
    }
}

fn bare() -> RawSettings {
    RawSettings { trade_usdc: None, min_profit: None, fixed_cost: None, ..complete() }
}

#[test]
fn defaults_are_the_documented_ones() {
    assert_eq!(DEFAULT_TRADE_SIZE, 1000);
    assert_eq!(DEFAULT_MIN_PROFIT, 500_000);
    assert_eq!(DEFAULT_FIXED_COST, 1_000_000);
    assert_eq!(DEFAULT_INTERVAL_SECS, 5);
    assert_eq!(DEFAULT_MIN_PROFIT as f64 / 1e6, 0.5);
    assert_eq!(DEFAULT_FIXED_COST as f64 / 1e6, 1.0);
}

#[test]
fn load_reads_every_setting() {
    let config = load(complete()).unwrap();
    assert_eq!(config.endpoint, "https://node.example/rpc");
    assert_eq!(config.venue_a, router_one());
    assert_eq!(config.venue_b, router_two());
    assert_eq!(config.pair.base(), usdc());
    assert_eq!(config.pair.quote(), weth());
    assert_eq!(config.amount_in, 250_000_000);
    assert_eq!(config.min_profit, 750_000);
    assert_eq!(config.fixed_cost, 2_500_000);
    assert_eq!(config.interval_secs, 5);
}

#[test]
fn load_fills_in_the_defaults() {
    let config = load(bare()).unwrap();
    assert_eq!(config.amount_in, 1_000_000_000);
    assert_eq!(config.min_profit, 500_000);
    assert_eq!(config.fixed_cost, 1_000_000);
    assert_eq!(config.interval_secs, 5);
}

#[test]
fn malformed_trade_size_falls_back_to_the_default() {
    for written in ["", "abc", "12.5", "-3", " 7", "7 ", "1e3", "+", "18446744073709551616"] {
        let config = load(RawSettings { trade_usdc: text(written), ..complete() }).unwrap();
        assert_eq!(config.amount_in, 1_000_000_000, "trade size {:?}", written);
    }
}

#[test]
fn trade_size_is_scaled_to_smallest_units() {
    let config = load(RawSettings { trade_usdc: text("0"), ..complete() }).unwrap();
    assert_eq!(config.amount_in, 0);
    let config = load(RawSettings { trade_usdc: text("1"), ..complete() }).unwrap();
    assert_eq!(config.amount_in, 1_000_000);
    let config =
        load(RawSettings { trade_usdc: text("18446744073709551615"), ..complete() }).unwrap();
    assert_eq!(config.amount_in, 18_446_744_073_709_551_615_000_000);
}

#[test]
fn missing_required_settings_are_errors() {
    assert_eq!(
        load(RawSettings { rpc_url: None, ..complete() }),
        Err(ConfigError::Missing(Setting::RpcUrl))
    );
    assert_eq!(
        load(RawSettings { dex1_router: None, ..complete() }),
        Err(ConfigError::Missing(Setting::Dex1Router))
    );
    assert_eq!(
        load(RawSettings { dex2_router: None, ..complete() }),
        Err(ConfigError::Missing(Setting::Dex2Router))
    );
    assert_eq!(
        load(RawSettings { usdc_address: None, ..complete() }),
        Err(ConfigError::Missing(Setting::UsdcAddress))
    );
    assert_eq!(
        load(RawSettings { weth_address: None, ..complete() }),
        Err(ConfigError::Missing(Setting::WethAddress))
    );
}

#[test]
fn malformed_required_settings_are_errors() {
    assert_eq!(
        load(RawSettings { dex1_router: text("0x1234"), ..complete() }),
        Err(ConfigError::Malformed(Setting::Dex1Router))
    );
    assert_eq!(
        load(RawSettings { dex2_router: text(""), ..complete() }),
        Err(ConfigError::Malformed(Setting::Dex2Router))
    );
    assert_eq!(
        load(RawSettings { usdc_address: text("not an address"), ..complete() }),
        Err(ConfigError::Malformed(Setting::UsdcAddress))
    );
    assert_eq!(
        load(RawSettings {
            weth_address: text("0xC02aaA39b223FE8D0A0e5C4F27eAD9083C756Cc2ff"),
            ..complete()
        }),
        Err(ConfigError::Malformed(Setting::WethAddress))
    );
}

#[test]
fn the_first_fault_is_the_one_reported() {
    let raw = RawSettings {
        rpc_url: None,
        dex1_router: text("zz"),
        dex2_router: None,
        ..complete()
    };
    assert_eq!(load(raw.clone()), Err(ConfigError::Missing(Setting::RpcUrl)));
    let raw = RawSettings { rpc_url: text("http://localhost:8545"), ..raw };
    assert_eq!(load(raw.clone()), Err(ConfigError::Malformed(Setting::Dex1Router)));
    let raw = RawSettings { dex1_router: text(ROUTER_ONE_TEXT), ..raw };
    assert_eq!(load(raw), Err(ConfigError::Missing(Setting::Dex2Router)));
}

#[test]
fn identical_assets_are_an_error() {
    assert_eq!(
        load(RawSettings { weth_address: text(USDC_TEXT), ..complete() }),
        Err(ConfigError::IdenticalAssets)
    );
    // The same identifier written differently is still the same.
    assert_eq!(
        load(RawSettings {
            weth_address: text("a0b86991c6218b36c1d19d4a2e9eb0ce3606eb48"),
            ..complete()
        }),
        Err(ConfigError::IdenticalAssets)
    );
}

#[test]
fn venues_may_coincide() {
    let config = load(RawSettings { dex2_router: text(ROUTER_ONE_TEXT), ..complete() }).unwrap();
    assert_eq!(config.venue_a, config.venue_b);
}

#[test]
fn read_address_decodes_the_hexadecimal_digits() {
    assert_eq!(read_address(&text(USDC_TEXT)), AddressSetting::Found(usdc()));
    assert_eq!(read_address(&text(ROUTER_TWO_TEXT)), AddressSetting::Found(router_two()));
    assert_eq!(
        read_address(&text("0x0000000000000000000000000000000000000001")),
        AddressSetting::Found(Address::from_bytes([
            0, 0, 0, 0, 0, 0, 0, 0, 0, 0, 0, 0, 0, 0, 0, 0, 0, 0, 0, 1
        ]))
    );
}

#[test]
fn read_address_tells_missing_from_malformed() {
    assert_eq!(read_address(&None), AddressSetting::Missing);
    assert_eq!(read_address(&text("")), AddressSetting::Malformed);
    assert_eq!(read_address(&text("0x")), AddressSetting::Malformed);
    assert_eq!(
        read_address(&text("0xG0b86991c6218b36c1d19D4a2e9Eb0cE3606eB48")),
        AddressSetting::Malformed
    );
}

#[test]
fn parse_unsigned_reads_decimal_digits() {
    assert_eq!(parse_unsigned("0"), Some(0));
    assert_eq!(parse_unsigned("7"), Some(7));
    assert_eq!(parse_unsigned("1000"), Some(1000));
    assert_eq!(parse_unsigned("+1000"), Some(1000));
    assert_eq!(parse_unsigned("0001000"), Some(1000));
    assert_eq!(parse_unsigned("18446744073709551615"), Some(u64::MAX));
    assert_eq!(parse_unsigned("+018446744073709551615"), Some(u64::MAX));
}

#[test]
fn parse_unsigned_refuses_everything_else() {
    for written in [
        "", "+", "-", "-1", "-0", "++1", "1+", "1 ", " 1", "1_000", "1,000", "1.0", "0x10", "ten",
        "１２", "18446744073709551616", "99999999999999999999999999",
    ] {
        assert_eq!(parse_unsigned(written), None, "text {:?}", written);
    }
}

#[test]
fn parse_unsigned_reads_what_the_standard_library_reads() {
    for written in [
        "0", "42", "+42", "0042", "", "+", "-5", "4 2", "18446744073709551615",
        "18446744073709551616", "184467440737095516150", "٣",
    ] {
        assert_eq!(parse_unsigned(written), written.parse::<u64>().ok(), "text {:?}", written);
    }
}

#[test]
fn assemble_takes_found_values_as_they_are() {
    let settings = Settings {
        endpoint: text("ws://node"),
        venue_a: AddressSetting::Found(router_one()),
        venue_b: AddressSetting::Found(router_two()),
        base: AddressSetting::Found(usdc()),
        quote: AddressSetting::Found(weth()),
        trade_size: Some(3),
        min_profit: Some(-1),
        fixed_cost: Some(0),
    };
    let config = assemble(settings).unwrap();
    assert_eq!(config.endpoint, "ws://node");
    assert_eq!(config.venue_a, router_one());
    assert_eq!(config.venue_b, router_two());
    assert_eq!(config.pair.base(), usdc());
    assert_eq!(config.pair.quote(), weth());
    assert_eq!(config.amount_in, 3_000_000);
    assert_eq!(config.min_profit, -1);
    assert_eq!(config.fixed_cost, 0);
    assert_eq!(config.interval_secs, 5);
}

#[test]
fn assemble_reports_faults_in_order() {
    let good = Settings {
        endpoint: text("ws://node"),
        venue_a: AddressSetting::Found(router_one()),
        venue_b: AddressSetting::Found(router_two()),
        base: AddressSetting::Found(usdc()),
        quote: AddressSetting::Found(weth()),
        trade_size: None,
        min_profit: None,
        fixed_cost: None,
    };
    assert!(assemble(good.clone()).is_ok());
    let bad = Settings {
        base: AddressSetting::Malformed,
        quote: AddressSetting::Missing,
        ..good.clone()
    };
    assert_eq!(assemble(bad), Err(ConfigError::Malformed(Setting::UsdcAddress)));
    let bad = Settings { quote: AddressSetting::Missing, ..good.clone() };
    assert_eq!(assemble(bad), Err(ConfigError::Missing(Setting::WethAddress)));
    let bad = Settings { quote: AddressSetting::Found(usdc()), ..good };
    assert_eq!(assemble(bad), Err(ConfigError::IdenticalAssets));
}
