//! The settings of the service, each taken from the environment where it is
//! set to a usable value and from a default otherwise.

use vstd::prelude::*;
use vstd::string::*;

use crate::utils::text::{all_digits, chars_of, is_ascii_digit};

verus! {

/// The number that a run of decimal digits writes.
pub open spec fn digits_value(s: Seq<char>) -> nat
    decreases s.len(),
{
    if s.len() == 0 {
        0
    } else {
        digits_value(s.drop_last()) * 10 + ((s.last() as nat) - 48) as nat
    }
}

/// The digits of a numeral: the text without a leading `+`.
pub open spec fn numeral_digits(s: Seq<char>) -> Seq<char> {
    if s.len() > 0 && s[0] == '+' {
        s.subrange(1, s.len() as int)
    } else {
        s
    }
}

/// The number that a text writes, as the integer types read it: an optional
/// `+` and then decimal digits, at least one, and nothing else; a number
/// above `max` is no value.
pub open spec fn parsed_number(s: Seq<char>, max: nat) -> Option<nat> {
    let digits = numeral_digits(s);
    if digits.len() == 0 || !all_digits(digits) || digits_value(digits) > max {
        None
    } else {
        Some(digits_value(digits))
    }
}

proof fn lemma_digits_value_grows(s: Seq<char>, k: int)
    requires
        0 <= k <= s.len(),
        all_digits(s),
    ensures
        digits_value(s.take(k)) <= digits_value(s),
    decreases s.len() - k,
{
    if k < s.len() {
        lemma_digits_value_grows(s, k + 1);
        assert(s.take(k + 1).drop_last() == s.take(k));
        assert(is_ascii_digit(s[k]));
    } else {
        assert(s.take(k) == s);
    }
}

/// Reads a number of at most `max` from a text.
pub fn parse_number(text: &str, max: u64) -> (r: Option<u64>)
    ensures
        match r {
            Some(n) => parsed_number(text@, max as nat) == Some(n as nat),
            None => parsed_number(text@, max as nat) is None,
        },
{
    let chars = chars_of(text);
    let start: usize = if chars.len() > 0 && chars[0] == '+' {
        1
    } else {
        0
    };
    let ghost digits = numeral_digits(text@);
    if start == chars.len() {
        return None;
    }
    let mut value: u64 = 0;
    let mut i: usize = start;
    while i < chars.len()
        invariant
            start <= i <= chars.len(),
            chars@ == text@,
            digits == text@.subrange(start as int, text@.len() as int),
            digits == numeral_digits(text@),
            all_digits(digits.take(i - start)),
            value == digits_value(digits.take(i - start)),
            value <= max,
        decreases chars.len() - i,
    {
        let c = chars[i];
        let ghost k = i - start;
        proof {
            assert(digits[k] == c);
            assert(digits.take(k + 1).drop_last() == digits.take(k));
        }
        if !(c >= '0' && c <= '9') {
            return None;
        }
        let d: u64 = (c as u64) - 48;
        if d > max || value > (max - d) / 10 {
            proof {
                assert forall|j: int| 0 <= j < digits.take(k + 1).len() implies is_ascii_digit(
                    #[trigger] digits.take(k + 1)[j],
                ) by {
                    if j < k {
                        assert(is_ascii_digit(digits.take(k)[j]));
                    }
                }
                assert(digits_value(digits.take(k + 1)) > max);
                if all_digits(digits) {
                    lemma_digits_value_grows(digits, k + 1);
                }
            }
            return None;
        }
        value = value * 10 + d;
        proof {
            assert forall|j: int| 0 <= j < digits.take(k + 1).len() implies is_ascii_digit(
                #[trigger] digits.take(k + 1)[j],
            ) by {
                if j < k {
                    assert(is_ascii_digit(digits.take(k)[j]));
                }
            }
        }
        i += 1;
    }
    proof {
        assert(digits.take(digits.len() as int) == digits);
    }
    Some(value)
}

/// The settings of the service.
#[derive(Debug)]
pub struct Config {
    pub save_interval_minutes: u64,
    pub host: String,
    pub port: u16,
    pub workers: usize,
    pub operator_mappings_file_path: String,
    pub country_borders_file_path: String,
}

impl Clone for Config {
    fn clone(&self) -> (c: Config)
        ensures
            c.save_interval_minutes == self.save_interval_minutes,
            c.host@ == self.host@,
            c.port == self.port,
            c.workers == self.workers,
            c.operator_mappings_file_path@ == self.operator_mappings_file_path@,
            c.country_borders_file_path@ == self.country_borders_file_path@,
    {
        Config {
            save_interval_minutes: self.save_interval_minutes,
            host: self.host.clone(),
            port: self.port,
            workers: self.workers,
            operator_mappings_file_path: self.operator_mappings_file_path.clone(),
            country_borders_file_path: self.country_borders_file_path.clone(),
        }
    }
}

impl Default for Config {
    fn default() -> (c: Config)
        ensures
            c.save_interval_minutes == 60,
            c.host@ == "0.0.0.0"@,
            c.port == 8080,
            c.workers == 4,
            c.operator_mappings_file_path@ == "./resources/operator_mappings.json"@,
            c.country_borders_file_path@ == "./resources/country_borders.csv"@,
    {
        Config {
            save_interval_minutes: 60,
            host: String::from_str("0.0.0.0"),
            port: 8080,
            workers: 4,
            operator_mappings_file_path: String::from_str("./resources/operator_mappings.json"),
            country_borders_file_path: String::from_str("./resources/country_borders.csv"),
        }
    }
}

/// What the environment holds for each setting: the text of the variable,
/// or `None` where the variable is not set.
#[derive(Debug)]
pub struct Environment {
    pub save_interval_minutes: Option<String>,
    pub host: Option<String>,
    pub port: Option<String>,
    pub workers: Option<String>,
    pub operator_mappings_file_path: Option<String>,
    pub country_borders_file_path: Option<String>,
}

/// The number that a variable sets: the number that its text writes, and
/// the default where the variable is not set or writes no number up to
/// `max`.
pub open spec fn number_setting(value: Option<String>, max: nat, default: nat) -> nat {
    match value {
        Some(text) => match parsed_number(text@, max) {
            Some(n) => n,
            None => default,
        },
        None => default,
    }
}

/// The text that a variable sets: its own, and the default where the
/// variable is not set.
pub open spec fn text_setting(value: Option<String>, default: Seq<char>) -> Seq<char> {
    match value {
        Some(text) => text@,
        None => default,
    }
}

fn number_or(value: &Option<String>, max: u64, default: u64) -> (n: u64)
    requires
        default <= max,
    ensures
        n == number_setting(*value, max as nat, default as nat),
        n <= max,
{
    match value {
        Some(text) => match parse_number(text.as_str(), max) {
            Some(n) => n,
            None => default,
        },
        None => default,
    }
}

fn text_or(value: &Option<String>, default: String) -> (s: String)
    ensures
        s@ == text_setting(*value, default@),
{
    match value {
        Some(text) => text.clone(),
        None => default,
    }
}

impl Config {
    /// The settings that the environment gives, each with its default.
    pub fn from_env(env: &Environment) -> (c: Config)
        ensures
            c.save_interval_minutes == number_setting(
                env.save_interval_minutes,
                u64::MAX as nat,
                60,
            ),
            c.host@ == text_setting(env.host, "0.0.0.0"@),
            c.port == number_setting(env.port, u16::MAX as nat, 8080),
            c.workers == number_setting(env.workers, usize::MAX as nat, 4),
            c.operator_mappings_file_path@ == text_setting(
                env.operator_mappings_file_path,
                "./resources/operator_mappings.json"@,
            ),
            c.country_borders_file_path@ == text_setting(
                env.country_borders_file_path,
                "./resources/country_borders.csv"@,
            ),
    {
        let d = Config::default();
        Config {
            save_interval_minutes: number_or(
                &env.save_interval_minutes,
                u64::MAX,
                d.save_interval_minutes,
            ),
            host: text_or(&env.host, d.host),
            port: number_or(&env.port, 65535, 8080) as u16,
            workers: number_or(&env.workers, usize::MAX as u64, 4) as usize,
            operator_mappings_file_path: text_or(
                &env.operator_mappings_file_path,
                d.operator_mappings_file_path,
            ),
            country_borders_file_path: text_or(
                &env.country_borders_file_path,
                d.country_borders_file_path,
            ),
        }
    }
}

/// The settings that the environment gives.
pub fn load(env: &Environment) -> (c: Config)
    ensures
        c.save_interval_minutes == number_setting(env.save_interval_minutes, u64::MAX as nat, 60),
        c.host@ == text_setting(env.host, "0.0.0.0"@),
        c.port == number_setting(env.port, u16::MAX as nat, 8080),
        c.workers == number_setting(env.workers, usize::MAX as nat, 4),
        c.operator_mappings_file_path@ == text_setting(
            env.operator_mappings_file_path,
            "./resources/operator_mappings.json"@,
        ),
        c.country_borders_file_path@ == text_setting(
            env.country_borders_file_path,
            "./resources/country_borders.csv"@,
        ),
{
    Config::from_env(env)
}

} // verus!
