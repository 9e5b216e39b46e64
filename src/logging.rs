use std::cmp::Ordering;

use vstd::prelude::*;
use vstd::string::StringExecFns;

verus! {

/// Severity of a log event, ordered from least to most severe.
#[derive(Clone, Copy, PartialEq, Eq, Structural, Debug)]
pub enum LogLevel {
    Trace,
    Debug,
    Info,
    Warn,
    Error,
}

impl LogLevel {
    /// Position of the severity in the order Trace < Debug < Info < Warn < Error.
    pub open spec fn rank(self) -> nat {
        match self {
            LogLevel::Trace => 0,
            LogLevel::Debug => 1,
            LogLevel::Info => 2,
            LogLevel::Warn => 3,
            LogLevel::Error => 4,
        }
    }

    /// The distinct power-of-two bit that stands for the severity in a mask.
    pub open spec fn spec_bit(self) -> u8 {
        match self {
            LogLevel::Trace => 1,
            LogLevel::Debug => 2,
            LogLevel::Info => 4,
            LogLevel::Warn => 8,
            LogLevel::Error => 16,
        }
    }

    pub fn bit(&self) -> (r: u8)
        ensures
            r == self.spec_bit(),
    {
        match self {
            LogLevel::Trace => 1,
            LogLevel::Debug => 2,
            LogLevel::Info => 4,
            LogLevel::Warn => 8,
            LogLevel::Error => 16,
        }
    }
}

/// An arbitrary set of enabled severities, one bit per severity.
#[derive(Clone, Copy, PartialEq, Eq, Structural, Debug)]
pub struct LogLevelBitmask(u8);

impl LogLevelBitmask {
    pub closed spec fn bits(self) -> u8 {
        self.0
    }

    pub fn mask(&self) -> (r: u8)
        ensures
            r == self.bits(),
    {
        self.0
    }

    pub fn from_mask(mask: u8) -> (r: Self)
        ensures
            r.bits() == mask,
    {
        LogLevelBitmask(mask)
    }
}

/// OR of the bits of every severity in `levels`.
pub open spec fn mask_of(levels: Seq<LogLevel>) -> u8
    decreases levels.len(),
{
    if levels.len() == 0 {
        0
    } else {
        mask_of(levels.drop_last()) | levels.last().spec_bit()
    }
}

/// Either a minimum severity or an explicit set of enabled severities.
#[derive(Clone, Copy, PartialEq, Eq, Structural, Debug)]
pub enum LogLevelOrCustom {
    LogLevel(LogLevel),
    Custom(LogLevelBitmask),
}

impl LogLevelOrCustom {
    /// Whether an event of severity `level` passes this filter.
    pub open spec fn enables(self, level: LogLevel) -> bool {
        match self {
            LogLevelOrCustom::LogLevel(min) => level.rank() >= min.rank(),
            LogLevelOrCustom::Custom(mask) => mask.bits() & level.spec_bit() != 0,
        }
    }

    pub fn is_enabled(&self, level: LogLevel) -> (r: bool)
        ensures
            r == self.enables(level),
    {
        match self {
            LogLevelOrCustom::LogLevel(min) => level.bit() >= min.bit(),
            LogLevelOrCustom::Custom(mask) => mask.0 & level.bit() != 0,
        }
    }

    pub fn from_min_level(level: LogLevel) -> (r: Self)
        ensures
            r == LogLevelOrCustom::LogLevel(level),
    {
        LogLevelOrCustom::LogLevel(level)
    }

    pub fn from_levels(levels: &[LogLevel]) -> (r: Self)
        ensures
            r matches LogLevelOrCustom::Custom(m) && m.bits() == mask_of(levels@),
    {
        let mut mask: u8 = 0;
        let mut i: usize = 0;
        while i < levels.len()
            invariant
                i <= levels@.len(),
                mask == mask_of(levels@.take(i as int)),
            decreases levels@.len() - i,
        {
            proof {
                assert(levels@.take(i + 1).drop_last() =~= levels@.take(i as int));
            }
            mask = mask | levels[i].bit();
            i = i + 1;
        }
        proof {
            assert(levels@.take(i as int) =~= levels@);
        }
        LogLevelOrCustom::Custom(LogLevelBitmask(mask))
    }
}


/// The bits of two distinct severities never overlap.
proof fn lemma_bits_disjoint(a: LogLevel, b: LogLevel)
    ensures
        (a.spec_bit() & b.spec_bit() != 0) <==> a == b,
{
    let x = a.spec_bit();
    let y = b.spec_bit();
    assert((x == 1 || x == 2 || x == 4 || x == 8 || x == 16) && (y == 1 || y == 2 || y == 4 || y
        == 8 || y == 16) ==> ((x & y != 0) <==> x == y)) by (bit_vector);
}

/// A mask built from a list of severities has the bit of a severity set
/// exactly when the list holds it.
pub proof fn lemma_mask_of_contains(levels: Seq<LogLevel>, level: LogLevel)
    ensures
        (mask_of(levels) & level.spec_bit() != 0) <==> levels.contains(level),
    decreases levels.len(),
{
    if levels.len() == 0 {
        let c = level.spec_bit();
        assert(0u8 & c == 0) by (bit_vector);
    } else {
        let init = levels.drop_last();
        let last = levels.last();
        lemma_mask_of_contains(init, level);
        lemma_bits_disjoint(last, level);
        let a = mask_of(init);
        let b = last.spec_bit();
        let c = level.spec_bit();
        assert(((a | b) & c != 0) <==> (a & c != 0 || b & c != 0)) by (bit_vector);
        if init.contains(level) {
            let j = choose|j: int| 0 <= j < init.len() && init[j] == level;
            assert(levels[j] == level);
        }
        if levels.contains(level) && last != level {
            let j = choose|j: int| 0 <= j < levels.len() && levels[j] == level;
            assert(j < levels.len() - 1);
            assert(init[j] == level);
        }
        if last == level {
            assert(levels[levels.len() - 1] == level);
        }
    }
}

/// A filter built from an explicit list of severities lets through exactly
/// the severities of that list.
pub proof fn lemma_from_levels_enables(levels: Seq<LogLevel>, f: LogLevelOrCustom, level: LogLevel)
    requires
        f matches LogLevelOrCustom::Custom(m) && m.bits() == mask_of(levels),
    ensures
        f.enables(level) <==> levels.contains(level),
{
    lemma_mask_of_contains(levels, level);
}

/// A timestamp of 128 bits held as two 64-bit halves, high half first.
#[derive(Clone, Copy, PartialEq, Eq, Structural, Debug, Ord)]
pub struct U128Wrapper {
    first: u64,
    second: u64,
}

impl U128Wrapper {
    /// The 128-bit value that the two halves make up.
    pub closed spec fn value(self) -> u128 {
        ((self.first as u128) << 64u128) | (self.second as u128)
    }

    pub fn new(value: u128) -> (r: Self)
        ensures
            r.value() == value,
    {
        let r = U128Wrapper { first: (value >> 64u128) as u64, second: value as u64 };
        assert((((value >> 64u128) as u64) as u128) << 64u128 | ((value as u64) as u128) == value)
            by (bit_vector);
        r
    }

    /// Builds the value from its high and low halves.
    pub fn from_halves(high: u64, low: u64) -> (r: Self)
        ensures
            r.value() == high as int * 0x1_0000_0000_0000_0000 + low as int,
    {
        let r = U128Wrapper { first: high, second: low };
        assert((high as u128) << 64u128 | (low as u128) == (high as u128) * 0x1_0000_0000_0000_0000u128
            + (low as u128)) by (bit_vector);
        assert((high as u128) * 0x1_0000_0000_0000_0000u128 + (low as u128) == high as int
            * 0x1_0000_0000_0000_0000 + low as int) by (nonlinear_arith);
        r
    }

    /// The high and low halves of the value.
    pub fn halves(&self) -> (r: (u64, u64))
        ensures
            r.0 as int * 0x1_0000_0000_0000_0000 + r.1 as int == self.value(),
    {
        let high = self.first;
        let low = self.second;
        assert((high as u128) << 64u128 | (low as u128) == (high as u128) * 0x1_0000_0000_0000_0000u128
            + (low as u128)) by (bit_vector);
        assert((high as u128) * 0x1_0000_0000_0000_0000u128 + (low as u128) == high as int
            * 0x1_0000_0000_0000_0000 + low as int) by (nonlinear_arith);
        (high, low)
    }

    pub fn get(&self) -> (r: u128)
        ensures
            r == self.value(),
    {
        (self.first as u128) << 64u128 | self.second as u128
    }
}

impl PartialOrd for U128Wrapper {
    /// Orders by the 128-bit values.
    fn partial_cmp(&self, other: &U128Wrapper) -> (r: Option<Ordering>) {
        let a = self.get();
        let b = other.get();
        if a < b {
            Some(Ordering::Less)
        } else if a > b {
            Some(Ordering::Greater)
        } else {
            Some(Ordering::Equal)
        }
    }
}

impl vstd::std_specs::cmp::PartialOrdSpecImpl for U128Wrapper {
    open spec fn obeys_partial_cmp_spec() -> bool {
        true
    }

    open spec fn partial_cmp_spec(&self, other: &U128Wrapper) -> Option<Ordering> {
        if self.value() < other.value() {
            Some(Ordering::Less)
        } else if self.value() > other.value() {
            Some(Ordering::Greater)
        } else {
            Some(Ordering::Equal)
        }
    }
}

/// One structured log event.
#[derive(Debug)]
pub struct LogMessage {
    pub message: String,
    pub level: LogLevel,
    pub source: String,
    pub time: U128Wrapper,
}

/// The JSON string literal that stands for `s`: quoted, with the characters
/// that JSON requires escaped.
pub uninterp spec fn json_string_literal(s: Seq<char>) -> Seq<char>;

/// Relies on serde_json::to_string on a `str`: it writes the string as one
/// quoted and escaped JSON string literal. Writing a string into memory does
/// not fail, so the empty fallback is never taken.
#[verifier::external_body]
fn quote_json(s: &str) -> (r: String)
    ensures
        r@ == json_string_literal(s@),
{
    serde_json::to_string(s).unwrap_or_default()
}

/// The decimal digit `d`, for `d` below ten.
pub open spec fn digit_char(d: nat) -> char {
    if d == 0 {
        '0'
    } else if d == 1 {
        '1'
    } else if d == 2 {
        '2'
    } else if d == 3 {
        '3'
    } else if d == 4 {
        '4'
    } else if d == 5 {
        '5'
    } else if d == 6 {
        '6'
    } else if d == 7 {
        '7'
    } else if d == 8 {
        '8'
    } else {
        '9'
    }
}

/// The decimal numeral of `n`, without leading zeros.
pub open spec fn decimal(n: nat) -> Seq<char>
    decreases n,
{
    if n < 10 {
        seq![digit_char(n)]
    } else {
        decimal(n / 10).push(digit_char(n % 10))
    }
}

/// Relies on the `Display` of `u128`, through `to_string`: the value in
/// decimal, without sign, leading zeros or separators.
#[verifier::external_body]
fn decimal_text(n: u128) -> (r: String)
    ensures
        r@ == decimal(n as nat),
{
    n.to_string()
}

/// The name of a severity in the wire form of an event.
pub open spec fn level_name(level: LogLevel) -> Seq<char> {
    match level {
        LogLevel::Trace => "Trace"@,
        LogLevel::Debug => "Debug"@,
        LogLevel::Info => "Info"@,
        LogLevel::Warn => "Warn"@,
        LogLevel::Error => "Error"@,
    }
}

impl LogLevel {
    pub fn name(&self) -> (r: &'static str)
        ensures
            r@ == level_name(*self),
    {
        match self {
            LogLevel::Trace => {
                proof {
                    reveal_strlit("Trace");
                }
                "Trace"
            },
            LogLevel::Debug => {
                proof {
                    reveal_strlit("Debug");
                }
                "Debug"
            },
            LogLevel::Info => {
                proof {
                    reveal_strlit("Info");
                }
                "Info"
            },
            LogLevel::Warn => {
                proof {
                    reveal_strlit("Warn");
                }
                "Warn"
            },
            LogLevel::Error => {
                proof {
                    reveal_strlit("Error");
                }
                "Error"
            },
        }
    }
}

/// The wire form of an event: one JSON object with the fields `message`,
/// `level`, `source` and `time`, in that order.
pub open spec fn event_json(message: Seq<char>, level: LogLevel, source: Seq<char>, time: u128) -> Seq<
    char,
> {
    "{\"message\":"@ + json_string_literal(message) + ",\"level\":\""@ + level_name(level)
        + "\",\"source\":"@ + json_string_literal(source) + ",\"time\":"@ + decimal(time as nat)
        + "}"@
}

impl LogMessage {
    /// The event in its wire form, on one line.
    pub fn to_json(&self) -> (r: String)
        ensures
            r@ == event_json(self.message@, self.level, self.source@, self.time.value()),
    {
        proof {
            reveal_strlit("{\"message\":");
            reveal_strlit(",\"level\":\"");
            reveal_strlit("\",\"source\":");
            reveal_strlit(",\"time\":");
            reveal_strlit("}");
        }
        let message = quote_json(self.message.as_str());
        let source = quote_json(self.source.as_str());
        let time = decimal_text(self.time.get());
        String::from_str("{\"message\":").concat(message.as_str()).concat(",\"level\":\"").concat(
            self.level.name(),
        ).concat("\",\"source\":").concat(source.as_str()).concat(",\"time\":").concat(
            time.as_str(),
        ).concat("}")
    }
}

/// Text put before the offending input in the event that reports an
/// input that could not be read as an event.
pub open spec fn import_failure_prefix() -> Seq<char> {
    "Failed to deserialize log message: "@
}

/// The event that logging `message` at `level` from `source` at `time`
/// produces under `filter`: none where the filter blocks the severity.
pub fn log_event(
    filter: LogLevelOrCustom,
    source: &str,
    message: &str,
    level: LogLevel,
    time: u128,
) -> (r: Option<LogMessage>)
    ensures
        r is None <==> !filter.enables(level),
        r matches Some(e) ==> e.message@ == message@ && e.level == level && e.source@ == source@
            && e.time.value() == time,
{
    if filter.is_enabled(level) {
        Some(
            LogMessage {
                message: String::from_str(message),
                level,
                source: String::from_str(source),
                time: U128Wrapper::new(time),
            },
        )
    } else {
        None
    }
}

/// The event that importing the serialized event `text` produces, where
/// `parsed` is what reading `text` as an event gave. Empty input gives
/// nothing; an event that was read is taken as it is, with its own source
/// and time; otherwise an error event from `source` quotes the input.
pub fn import_event(
    filter: LogLevelOrCustom,
    source: &str,
    text: &str,
    parsed: Option<LogMessage>,
    time: u128,
) -> (r: Option<LogMessage>)
    ensures
        text@.len() == 0 ==> r is None,
        text@.len() != 0 && parsed is Some ==> r == parsed,
        text@.len() != 0 && parsed is None ==> {
            &&& r is None <==> !filter.enables(LogLevel::Error)
            &&& r matches Some(e) ==> e.message@ == import_failure_prefix() + text@ && e.level
                == LogLevel::Error && e.source@ == source@ && e.time.value() == time
        },
{
    if text.is_empty() {
        return None;
    }
    match parsed {
        Some(m) => Some(m),
        None => {
            proof {
                reveal_strlit("Failed to deserialize log message: ");
            }
            let message = String::from_str("Failed to deserialize log message: ").concat(text);
            log_event(filter, source, message.as_str(), LogLevel::Error, time)
        },
    }
}

} // verus!
