//! Setting the monitor up from what its environment holds.
//!
//! Five settings are required: the endpoint, the two venues and the two
//! assets. Three are optional and have defaults: the trade size, the profit
//! threshold and the assumed cost. A required setting that is missing or
//! cannot be read is an error; an optional one that is missing or cannot be
//! read takes its default.

use crate::asset::{Address, AssetPair};
use crate::monitor::MonitorConfig;
use crate::profit::UNIT_SCALE;
use vstd::prelude::*;
use vstd::string::*;

verus! {

/// The trade size where none is set, in display units of the base asset.
pub const DEFAULT_TRADE_SIZE: u64 = 1000;

/// The profit threshold where none is set, in smallest units of the base
/// asset: half a display unit.
pub const DEFAULT_MIN_PROFIT: i128 = 500_000;

/// The assumed cost where none is set, in smallest units of the base asset:
/// one display unit.
pub const DEFAULT_FIXED_COST: i128 = 1_000_000;

/// The pause between two ticks, in seconds.
pub const DEFAULT_INTERVAL_SECS: u64 = 5;

/// The settings that must be there.
#[derive(Clone, Copy, Debug, PartialEq, Eq)]
pub enum Setting {
    RpcUrl,
    Dex1Router,
    Dex2Router,
    UsdcAddress,
    WethAddress,
}

/// Why the monitor cannot be set up.
#[derive(Clone, Copy, Debug, PartialEq, Eq)]
pub enum ConfigError {
    /// A required setting is not there.
    Missing(Setting),
    /// A required setting is there and cannot be read.
    Malformed(Setting),
    /// The two assets are one and the same.
    IdenticalAssets,
}

/// What a required identifier was found to be.
#[derive(Clone, Copy, Debug, PartialEq, Eq)]
pub enum AddressSetting {
    Missing,
    Malformed,
    Found(Address),
}

/// The settings as text, each `None` where the environment does not hold it.
/// The two decimal settings come as whole numbers of the base asset's
/// smallest unit, `None` where they are missing or cannot be read.
#[derive(Clone, Debug, PartialEq, Eq)]
pub struct RawSettings {
    pub rpc_url: Option<String>,
    pub dex1_router: Option<String>,
    pub dex2_router: Option<String>,
    pub usdc_address: Option<String>,
    pub weth_address: Option<String>,
    pub trade_usdc: Option<String>,
    pub min_profit: Option<i128>,
    pub fixed_cost: Option<i128>,
}

/// The settings as values.
#[derive(Clone, Debug, PartialEq, Eq)]
pub struct Settings {
    pub endpoint: Option<String>,
    pub venue_a: AddressSetting,
    pub venue_b: AddressSetting,
    pub base: AddressSetting,
    pub quote: AddressSetting,
    /// The trade size in display units of the base asset.
    pub trade_size: Option<u64>,
    pub min_profit: Option<i128>,
    pub fixed_cost: Option<i128>,
}

/// Whether a character is one of the ten decimal digits.
pub open spec fn is_digit(c: char) -> bool {
    '0' <= c <= '9'
}

/// The number that a string of decimal digits writes.
pub open spec fn digits_value(digits: Seq<char>) -> nat
    decreases digits.len(),
{
    if digits.len() == 0 {
        0
    } else {
        digits_value(digits.drop_last()) * 10 + (digits.last() as nat - '0' as nat) as nat
    }
}

/// The number that a text writes: decimal digits, at least one, with or
/// without a `+` before them, and not beyond 64 bits. Any other text writes
/// no number.
pub open spec fn unsigned_of_text(text: Seq<char>) -> Option<u64> {
    let digits = without_plus(text);
    if digits.len() > 0 && all_digits(digits) && digits_value(digits) <= u64::MAX {
        Some(digits_value(digits) as u64)
    } else {
        None
    }
}

/// A text without the `+` it may begin with.
pub open spec fn without_plus(text: Seq<char>) -> Seq<char> {
    if text.len() > 0 && text[0] == '+' {
        text.drop_first()
    } else {
        text
    }
}

/// Whether a text holds decimal digits and nothing else.
pub open spec fn all_digits(text: Seq<char>) -> bool {
    forall|i: int| 0 <= i < text.len() ==> is_digit(#[trigger] text[i])
}

/// A string of digits writes no less than any of its beginnings.
proof fn lemma_digits_value_grows(digits: Seq<char>, shorter: int)
    requires
        0 <= shorter <= digits.len(),
        all_digits(digits),
    ensures
        digits_value(digits.take(shorter)) <= digits_value(digits),
    decreases digits.len(),
{
    if shorter == digits.len() {
        assert(digits.take(shorter) == digits);
    } else {
        let front = digits.drop_last();
        assert(front.take(shorter) == digits.take(shorter));
        lemma_digits_value_grows(front, shorter);
    }
}

/// Reads an unsigned number from a text.
pub fn parse_unsigned(text: &str) -> (number: Option<u64>)
    ensures
        number == unsigned_of_text(text@),
{
    let length: usize = text.unicode_len();
    let start: usize = if length > 0 && text.get_char(0) == '+' {
        1
    } else {
        0
    };
    if start == length {
        return None;
    }
    let ghost digits = text@.skip(start as int);
    let mut value: u64 = 0;
    let mut i: usize = start;
    while i < length
        invariant
            start <= i <= length,
            length == text@.len(),
            digits == text@.skip(start as int),
            digits == without_plus(text@),
            forall|j: int| 0 <= j < i - start ==> is_digit(#[trigger] digits[j]),
            value == digits_value(digits.take(i - start)),
        decreases length - i,
    {
        let c: char = text.get_char(i);
        assert(c == digits[i - start]);
        if !(c >= '0' && c <= '9') {
            return None;
        }
        let digit: u64 = (c as u32 - '0' as u32) as u64;
        proof {
            let longer = digits.take(i - start + 1);
            assert(longer.drop_last() == digits.take(i - start));
        }
        if value > (u64::MAX - digit) / 10 {
            proof {
                if all_digits(digits) {
                    lemma_digits_value_grows(digits, i - start + 1);
                }
            }
            return None;
        }
        value = value * 10 + digit;
        i += 1;
    }
    assert(digits.take(i - start) == digits);
    Some(value)
}

/// The bytes of the identifier that a text writes, as ethers reads it with
/// `Address::from_str`; `None` where ethers reads no identifier from it.
pub uninterp spec fn address_of_text(text: Seq<char>) -> Option<Seq<u8>>;

/// Reads an identifier from a text with ethers' `Address::from_str`, which
/// decodes hexadecimal digits into 20 bytes.
///
/// The contract gives what is read a name and claims nothing else of it: the
/// same text always reads as the same identifier, or as none.
#[verifier::external_body]
fn parse_address(text: &str) -> (address: Option<Address>)
    ensures
        match address {
            Some(found) => address_of_text(text@) == Some(found@),
            None => address_of_text(text@) is None,
        },
{
    match text.parse::<ethers::types::Address>() {
        Ok(parsed) => Some(Address { bytes: parsed.0 }),
        Err(_) => None,
    }
}

/// The identifier that holds the given bytes.
pub open spec fn address_with(bytes: Seq<u8>) -> Address {
    Address { bytes: choose|held: [u8; 20]| held@ == bytes }
}

/// What a required identifier is found to be, given its text.
pub open spec fn address_setting_of(text: Option<String>) -> AddressSetting {
    match text {
        None => AddressSetting::Missing,
        Some(written) => match address_of_text(written@) {
            None => AddressSetting::Malformed,
            Some(bytes) => AddressSetting::Found(address_with(bytes)),
        },
    }
}

/// Reads a required identifier from its text, if there is one.
pub fn read_address(text: &Option<String>) -> (setting: AddressSetting)
    ensures
        setting == address_setting_of(*text),
{
    match text {
        None => AddressSetting::Missing,
        Some(written) => match parse_address(written.as_str()) {
            None => AddressSetting::Malformed,
            Some(found) => {
                proof {
                    let held = address_with(found@).bytes;
                    assert(held =~= found.bytes);
                }
                AddressSetting::Found(found)
            },
        },
    }
}

/// The number that an optional text writes, if it writes one.
pub open spec fn trade_size_of(text: Option<String>) -> Option<u64> {
    match text {
        None => None,
        Some(written) => unsigned_of_text(written@),
    }
}

/// The values that the settings hold as text.
pub open spec fn settings_of(raw: RawSettings) -> Settings {
    Settings {
        endpoint: raw.rpc_url,
        venue_a: address_setting_of(raw.dex1_router),
        venue_b: address_setting_of(raw.dex2_router),
        base: address_setting_of(raw.usdc_address),
        quote: address_setting_of(raw.weth_address),
        trade_size: trade_size_of(raw.trade_usdc),
        min_profit: raw.min_profit,
        fixed_cost: raw.fixed_cost,
    }
}

/// What is wrong with a required identifier, if anything.
pub open spec fn address_fault(entry: AddressSetting, which: Setting) -> Option<ConfigError> {
    match entry {
        AddressSetting::Missing => Some(ConfigError::Missing(which)),
        AddressSetting::Malformed => Some(ConfigError::Malformed(which)),
        AddressSetting::Found(_) => None,
    }
}

/// The first thing wrong with the settings, if anything: the required
/// settings in their order, then the two assets against each other.
pub open spec fn first_fault(settings: Settings) -> Option<ConfigError> {
    if settings.endpoint is None {
        Some(ConfigError::Missing(Setting::RpcUrl))
    } else if address_fault(settings.venue_a, Setting::Dex1Router) is Some {
        address_fault(settings.venue_a, Setting::Dex1Router)
    } else if address_fault(settings.venue_b, Setting::Dex2Router) is Some {
        address_fault(settings.venue_b, Setting::Dex2Router)
    } else if address_fault(settings.base, Setting::UsdcAddress) is Some {
        address_fault(settings.base, Setting::UsdcAddress)
    } else if address_fault(settings.quote, Setting::WethAddress) is Some {
        address_fault(settings.quote, Setting::WethAddress)
    } else if settings.base->Found_0@ == settings.quote->Found_0@ {
        Some(ConfigError::IdenticalAssets)
    } else {
        None
    }
}

/// Whether `config` is what faultless settings set up: the required settings
/// as they are, the optional ones or their defaults, the trade size in
/// smallest units, and the default pause.
pub open spec fn set_up_from(settings: Settings, config: MonitorConfig) -> bool {
    &&& Some(config.endpoint) == settings.endpoint
    &&& AddressSetting::Found(config.venue_a) == settings.venue_a
    &&& AddressSetting::Found(config.venue_b) == settings.venue_b
    &&& AddressSetting::Found(config.pair.base_id()) == settings.base
    &&& AddressSetting::Found(config.pair.quote_id()) == settings.quote
    &&& config.amount_in == UNIT_SCALE * match settings.trade_size {
        Some(size) => size,
        None => DEFAULT_TRADE_SIZE,
    }
    &&& config.min_profit == match settings.min_profit {
        Some(threshold) => threshold,
        None => DEFAULT_MIN_PROFIT,
    }
    &&& config.fixed_cost == match settings.fixed_cost {
        Some(cost) => cost,
        None => DEFAULT_FIXED_COST,
    }
    &&& config.interval_secs == DEFAULT_INTERVAL_SECS
}

/// The address that a required identifier was found to be, or what is wrong
/// with it.
fn require_address(entry: AddressSetting, which: Setting) -> (found: Result<Address, ConfigError>)
    ensures
        match found {
            Ok(address) => entry == AddressSetting::Found(address),
            Err(fault) => address_fault(entry, which) == Some(fault),
        },
{
    match entry {
        AddressSetting::Missing => Err(ConfigError::Missing(which)),
        AddressSetting::Malformed => Err(ConfigError::Malformed(which)),
        AddressSetting::Found(address) => Ok(address),
    }
}

/// Sets the monitor up from settings, or says what is wrong with them.
pub fn assemble(settings: Settings) -> (outcome: Result<MonitorConfig, ConfigError>)
    ensures
        match outcome {
            Ok(config) => first_fault(settings) is None && set_up_from(settings, config),
            Err(fault) => first_fault(settings) == Some(fault),
        },
{
    let endpoint = match settings.endpoint {
        Some(endpoint) => endpoint,
        None => {
            return Err(ConfigError::Missing(Setting::RpcUrl));
        },
    };
    let venue_a = match require_address(settings.venue_a, Setting::Dex1Router) {
        Ok(address) => address,
        Err(fault) => {
            return Err(fault);
        },
    };
    let venue_b = match require_address(settings.venue_b, Setting::Dex2Router) {
        Ok(address) => address,
        Err(fault) => {
            return Err(fault);
        },
    };
    let base = match require_address(settings.base, Setting::UsdcAddress) {
        Ok(address) => address,
        Err(fault) => {
            return Err(fault);
        },
    };
    let quote = match require_address(settings.quote, Setting::WethAddress) {
        Ok(address) => address,
        Err(fault) => {
            return Err(fault);
        },
    };
    let pair = match AssetPair::new(base, quote) {
        Some(pair) => pair,
        None => {
            return Err(ConfigError::IdenticalAssets);
        },
    };
    let trade_size: u64 = match settings.trade_size {
        Some(size) => size,
        None => DEFAULT_TRADE_SIZE,
    };
    let min_profit: i128 = match settings.min_profit {
        Some(threshold) => threshold,
        None => DEFAULT_MIN_PROFIT,
    };
    let fixed_cost: i128 = match settings.fixed_cost {
        Some(cost) => cost,
        None => DEFAULT_FIXED_COST,
    };
    Ok(
        MonitorConfig {
            endpoint,
            venue_a,
            venue_b,
            pair,
            amount_in: UNIT_SCALE * (trade_size as u128),
            min_profit,
            fixed_cost,
            interval_secs: DEFAULT_INTERVAL_SECS,
        },
    )
}

/// Sets the monitor up from settings given as text, or says what is wrong
/// with them.
pub fn load(raw: RawSettings) -> (outcome: Result<MonitorConfig, ConfigError>)
    ensures
        match outcome {
            Ok(config) => first_fault(settings_of(raw)) is None && set_up_from(
                settings_of(raw),
                config,
            ),
            Err(fault) => first_fault(settings_of(raw)) == Some(fault),
        },
{
    let venue_a = read_address(&raw.dex1_router);
    let venue_b = read_address(&raw.dex2_router);
    let base = read_address(&raw.usdc_address);
    let quote = read_address(&raw.weth_address);
    let trade_size: Option<u64> = match &raw.trade_usdc {
        Some(written) => parse_unsigned(written.as_str()),
        None => None,
    };
    assemble(
        Settings {
            endpoint: raw.rpc_url,
            venue_a,
            venue_b,
            base,
            quote,
            trade_size,
            min_profit: raw.min_profit,
            fixed_cost: raw.fixed_cost,
        },
    )
}

} // verus!
