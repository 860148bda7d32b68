//! The process configuration: a text of `key=value` lines that supplies the
//! network identifier `ssid`, its key `psk` and the telemetry `port`.

use vstd::prelude::*;
use vstd::string::{StrSliceExecFns, StringExecFns};

verus! {

/// What the configuration supplies.
#[derive(Clone, Debug, PartialEq, Eq)]
pub struct Settings {
    pub ssid: String,
    pub psk: String,
    pub port: u16,
}

/// The settings with their texts as sequences of characters.
pub struct SettingsView {
    pub ssid: Seq<char>,
    pub psk: Seq<char>,
    pub port: u16,
}

impl View for Settings {
    type V = SettingsView;

    open spec fn view(&self) -> SettingsView {
        SettingsView { ssid: self.ssid@, psk: self.psk@, port: self.port }
    }
}

/// Why a configuration is refused. Lines are counted from zero.
#[derive(Clone, Copy, Debug, PartialEq, Eq, Structural)]
pub enum ConfigError {
    /// The key of this line is none of `ssid`, `psk` and `port`.
    UnknownField { line: usize },
    /// This line has a known key but no `=`.
    MissingValue { line: usize },
    /// The port on this line is no decimal number from 0 to 65535.
    InvalidPort { line: usize },
    /// The text ended without one of the three keys.
    MissingField,
}

/// What the lines read so far have supplied.
pub struct Fields {
    pub ssid: Option<Seq<char>>,
    pub psk: Option<Seq<char>>,
    pub port: Option<u16>,
}

/// Number of characters of `s` from `from` on that come before the first
/// `c`, or before the end where no `c` follows.
pub open spec fn distance(s: Seq<char>, c: char, from: int) -> nat
    decreases s.len() - from,
{
    if from < 0 || from >= s.len() || s[from] == c {
        0
    } else {
        1 + distance(s, c, from + 1)
    }
}

/// Index of the first `c` in `s` at or after `from`; the length of `s`
/// where there is none.
pub open spec fn find(s: Seq<char>, c: char, from: int) -> int {
    from + distance(s, c, from)
}

/// The line that begins at `from`: the characters up to the next line feed,
/// without the carriage return that may stand before it.
pub open spec fn line_at(text: Seq<char>, from: int) -> Seq<char> {
    let end = find(text, '\n', from);
    if end < text.len() && from < end && text[end - 1] == '\r' {
        text.subrange(from, end - 1)
    } else {
        text.subrange(from, end)
    }
}

/// The key of a line: what stands before its first `=`.
pub open spec fn key_of(line: Seq<char>) -> Seq<char> {
    line.subrange(0, find(line, '=', 0))
}

/// Whether a line has an `=`, and so a value.
pub open spec fn has_value(line: Seq<char>) -> bool {
    find(line, '=', 0) < line.len()
}

/// The value of a line: what stands between its first `=` and its second,
/// or the end of the line where there is no second.
pub open spec fn value_of(line: Seq<char>) -> Seq<char> {
    let first = find(line, '=', 0);
    line.subrange(first + 1, find(line, '=', first + 1))
}

pub open spec fn is_digit(c: char) -> bool {
    '0' <= c <= '9'
}

/// The number that a sequence of decimal digits stands for.
pub open spec fn decimal(digits: Seq<char>) -> nat
    decreases digits.len(),
{
    if digits.len() == 0 {
        0
    } else {
        decimal(digits.drop_last()) * 10 + (digits.last() as nat - '0' as nat) as nat
    }
}

/// The digits of a port value: the value without the plus sign that may
/// lead it.
pub open spec fn port_digits(value: Seq<char>) -> Seq<char> {
    if value.len() > 0 && value[0] == '+' {
        value.subrange(1, value.len() as int)
    } else {
        value
    }
}

/// The port that a value stands for: at least one decimal digit, after an
/// optional plus sign, with a number of at most 65535.
pub open spec fn port_of(value: Seq<char>) -> Option<u16> {
    let digits = port_digits(value);
    if digits.len() > 0 && (forall|i: int| 0 <= i < digits.len() ==> is_digit(#[trigger] digits[i]))
        && decimal(digits) <= u16::MAX {
        Some(decimal(digits) as u16)
    } else {
        None
    }
}

/// What line `number` adds to the fields read before it. A later line
/// overrides an earlier one with the same key.
pub open spec fn apply(fields: Fields, line: Seq<char>, number: nat) -> Result<
    Fields,
    ConfigError,
> {
    let key = key_of(line);
    if key != "ssid"@ && key != "psk"@ && key != "port"@ {
        Err(ConfigError::UnknownField { line: number as usize })
    } else if !has_value(line) {
        Err(ConfigError::MissingValue { line: number as usize })
    } else if key == "ssid"@ {
        Ok(Fields { ssid: Some(value_of(line)), psk: fields.psk, port: fields.port })
    } else if key == "psk"@ {
        Ok(Fields { ssid: fields.ssid, psk: Some(value_of(line)), port: fields.port })
    } else {
        match port_of(value_of(line)) {
            Some(port) => Ok(Fields { ssid: fields.ssid, psk: fields.psk, port: Some(port) }),
            None => Err(ConfigError::InvalidPort { line: number as usize }),
        }
    }
}

/// The fields after every line from position `from` on, which begins line
/// `number`, was applied in turn; or the error of the first line that has
/// one.
pub open spec fn read_from(text: Seq<char>, from: int, number: nat, fields: Fields) -> Result<
    Fields,
    ConfigError,
>
    decreases text.len() + 1 - from,
{
    if from < 0 || from >= text.len() {
        Ok(fields)
    } else {
        match apply(fields, line_at(text, from), number) {
            Err(error) => Err(error),
            Ok(next) => {
                proof {
                    lemma_find(text, '\n', from);
                }
                read_from(text, find(text, '\n', from) + 1, number + 1, next)
            },
        }
    }
}

/// The settings that complete fields make.
pub open spec fn complete(fields: Fields) -> Result<SettingsView, ConfigError> {
    match (fields.ssid, fields.psk, fields.port) {
        (Some(ssid), Some(psk), Some(port)) => Ok(SettingsView { ssid, psk, port }),
        _ => Err(ConfigError::MissingField),
    }
}

/// What a configuration text means.
pub open spec fn settings_of(text: Seq<char>) -> Result<SettingsView, ConfigError> {
    match read_from(text, 0, 0, Fields { ssid: None, psk: None, port: None }) {
        Ok(fields) => complete(fields),
        Err(error) => Err(error),
    }
}

/// The view of what `parse` returns.
pub open spec fn outcome_view(outcome: Result<Settings, ConfigError>) -> Result<
    SettingsView,
    ConfigError,
> {
    match outcome {
        Ok(settings) => Ok(settings@),
        Err(error) => Err(error),
    }
}

/// `find` gives the first `c` at or after `from`: it lies within the text,
/// no `c` stands before it, and one stands at it unless it is the end.
pub proof fn lemma_find(s: Seq<char>, c: char, from: int)
    requires
        0 <= from <= s.len(),
    ensures
        from <= find(s, c, from) <= s.len(),
        find(s, c, from) < s.len() ==> s[find(s, c, from)] == c,
        forall|i: int| from <= i < find(s, c, from) ==> s[i] != c,
    decreases s.len() - from,
{
    if from < s.len() && s[from] != c {
        lemma_find(s, c, from + 1);
    }
}

/// Appending a digit multiplies by ten and adds the digit, so a number
/// never shrinks as digits are appended.
pub proof fn lemma_decimal_grows(digits: Seq<char>, upto: int)
    requires
        0 <= upto <= digits.len(),
        forall|i: int| 0 <= i < digits.len() ==> is_digit(#[trigger] digits[i]),
    ensures
        decimal(digits.subrange(0, upto)) <= decimal(digits),
    decreases digits.len() - upto,
{
    if upto < digits.len() {
        let longer = digits.subrange(0, upto + 1);
        assert(longer.drop_last() =~= digits.subrange(0, upto));
        lemma_decimal_grows(digits, upto + 1);
    } else {
        assert(digits.subrange(0, upto) =~= digits);
    }
}

fn find_char(s: &str, len: usize, c: char, from: usize) -> (index: usize)
    requires
        len == s@.len(),
        from <= len,
    ensures
        index == find(s@, c, from as int),
        from <= index <= len,
{
    let mut index = from;
    while index < len && s.get_char(index) != c
        invariant
            len == s@.len(),
            from <= index <= len,
            find(s@, c, from as int) == find(s@, c, index as int),
        decreases len - index,
    {
        index += 1;
    }
    index
}

fn same_text(left: &str, right: &str) -> (same: bool)
    ensures
        same == (left@ == right@),
{
    String::from_str(left) == String::from_str(right)
}

/// Reads a port: at least one decimal digit, after an optional plus sign,
/// that stands for a number of at most 65535.
pub fn parse_port(value: &str) -> (port: Option<u16>)
    ensures
        port == port_of(value@),
{
    let len = value.unicode_len();
    let first: usize = if len > 0 && value.get_char(0) == '+' {
        1
    } else {
        0
    };
    if first == len {
        return None;
    }
    let ghost digits = port_digits(value@);
    let mut number: u32 = 0;
    let mut index = first;
    while index < len
        invariant
            len == value@.len(),
            first <= index <= len,
            digits == port_digits(value@),
            digits == value@.subrange(first as int, len as int),
            forall|i: int| 0 <= i < index - first ==> is_digit(#[trigger] digits[i]),
            number == decimal(digits.subrange(0, index - first)),
            number <= u16::MAX,
        decreases len - index,
    {
        let c = value.get_char(index);
        if !(c >= '0' && c <= '9') {
            assert(!is_digit(digits[index - first]));
            return None;
        }
        let ghost longer = digits.subrange(0, index - first + 1);
        assert(longer.drop_last() =~= digits.subrange(0, index - first));
        number = number * 10 + (c as u32 - '0' as u32);
        if number > 65535 {
            proof {
                if forall|i: int| 0 <= i < digits.len() ==> is_digit(#[trigger] digits[i]) {
                    lemma_decimal_grows(digits, index - first + 1);
                }
            }
            return None;
        }
        index += 1;
    }
    assert(digits.subrange(0, index - first) =~= digits);
    Some(number as u16)
}

/// Reads the configuration. The first line that cannot be read decides the
/// error; a text that sets all three keys gives the settings, each with the
/// value of the last line that sets it.
pub fn parse(text: &str) -> (outcome: Result<Settings, ConfigError>)
    ensures
        outcome_view(outcome) == settings_of(text@),
{
    let len = text.unicode_len();
    let mut ssid: Option<String> = None;
    let mut psk: Option<String> = None;
    let mut port: Option<u16> = None;
    let mut start: usize = 0;
    let mut number: usize = 0;
    let ghost mut fields = Fields { ssid: None, psk: None, port: None };
    while start < len
        invariant
            len == text@.len(),
            number <= start <= len,
            fields.ssid == match ssid {
                Some(s) => Some(s@),
                None => None,
            },
            fields.psk == match psk {
                Some(s) => Some(s@),
                None => None,
            },
            fields.port == port,
            read_from(text@, 0, 0, Fields { ssid: None, psk: None, port: None }) == read_from(
                text@,
                start as int,
                number as nat,
                fields,
            ),
        decreases len - start,
    {
        let end = find_char(text, len, '\n', start);
        let stop = if end < len && start < end && text.get_char(end - 1) == '\r' {
            end - 1
        } else {
            end
        };
        let line = text.substring_char(start, stop);
        let width = stop - start;
        let equals = find_char(line, width, '=', 0);
        let key = line.substring_char(0, equals);
        let is_ssid = same_text(key, "ssid");
        let is_psk = same_text(key, "psk");
        let is_port = same_text(key, "port");
        if !is_ssid && !is_psk && !is_port {
            return Err(ConfigError::UnknownField { line: number });
        }
        if equals == width {
            return Err(ConfigError::MissingValue { line: number });
        }
        let close = find_char(line, width, '=', equals + 1);
        let value = line.substring_char(equals + 1, close);
        if is_ssid {
            ssid = Some(String::from_str(value));
            proof {
                fields = Fields { ssid: Some(value@), psk: fields.psk, port: fields.port };
            }
        } else if is_psk {
            psk = Some(String::from_str(value));
            proof {
                fields = Fields { ssid: fields.ssid, psk: Some(value@), port: fields.port };
            }
        } else {
            match parse_port(value) {
                Some(p) => {
                    port = Some(p);
                    proof {
                        fields = Fields { ssid: fields.ssid, psk: fields.psk, port: Some(p) };
                    }
                },
                None => {
                    return Err(ConfigError::InvalidPort { line: number });
                },
            }
        }
        proof {
            let after = read_from(text@, end + 1, (number + 1) as nat, fields);
            assert(read_from(text@, 0, 0, Fields { ssid: None, psk: None, port: None }) == after);
            if end == len {
                assert(after == read_from(text@, end as int, (number + 1) as nat, fields));
            }
        }
        number += 1;
        start = if end < len {
            end + 1
        } else {
            end
        };
    }
    match (ssid, psk, port) {
        (Some(ssid), Some(psk), Some(port)) => Ok(Settings { ssid, psk, port }),
        _ => Err(ConfigError::MissingField),
    }
}

} // verus!
