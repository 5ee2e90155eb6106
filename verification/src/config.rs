//! Runtime settings, read from the values of the environment variables.
use vstd::prelude::*;

use crate::text::{decimal_spec, digit_char};

verus! {

/// The service's settings.
#[derive(Debug, Clone)]
pub struct Config {
    pub database_url: String,
    pub screenshot_dir: String,
    pub port: u16,
    pub log_level: String,
    pub webhook_url: Option<String>,
}

/// Whether `c` is an ASCII decimal digit.
pub open spec fn is_digit(c: char) -> bool {
    '0' <= c <= '9'
}

/// The number that the decimal digits `s` write.
pub open spec fn digits_value(s: Seq<char>) -> nat
    decreases s.len(),
{
    if s.len() == 0 {
        0
    } else {
        digits_value(s.drop_last()) * 10 + (s.last() as int - 48) as nat
    }
}

/// The digits part of a number: `s` without a leading `+`.
pub open spec fn unsigned_digits(s: Seq<char>) -> Seq<char> {
    if s.len() > 0 && s[0] == '+' {
        s.drop_first()
    } else {
        s
    }
}

/// Whether every character of `s` is a decimal digit.
pub open spec fn all_digits(s: Seq<char>) -> bool {
    forall|i: int| 0 <= i < s.len() ==> is_digit(#[trigger] s[i])
}

/// What `str::parse::<u16>` gives for `s`: an optional `+`, then one or more
/// decimal digits, whose value must not exceed 65535.
pub open spec fn parse_u16_spec(s: Seq<char>) -> Option<u16> {
    let digits = unsigned_digits(s);
    if digits.len() > 0 && all_digits(digits) && digits_value(digits) <= 65535 {
        Some(digits_value(digits) as u16)
    } else {
        None
    }
}

/// Parses a port number as `str::parse::<u16>` does.
pub fn parse_port(s: &str) -> (r: Option<u16>)
    ensures
        r == parse_u16_spec(s@),
{
    let n = s.unicode_len();
    let mut start: usize = 0;
    if n > 0 && s.get_char(0) == '+' {
        start = 1;
    }
    let ghost digits = unsigned_digits(s@);
    assert(digits =~= s@.subrange(start as int, n as int));
    if start == n {
        return None;
    }
    let mut value: u32 = 0;
    let mut k: usize = start;
    while k < n
        invariant
            n == s@.len(),
            start <= k <= n,
            digits == s@.subrange(start as int, n as int),
            digits == unsigned_digits(s@),
            forall|i: int| 0 <= i < k - start ==> is_digit(#[trigger] digits[i]),
            value as int == if digits_value(digits.subrange(0, k - start)) < 65536 {
                digits_value(digits.subrange(0, k - start)) as int
            } else {
                65536
            },
        decreases n - k,
    {
        let c = s.get_char(k);
        if c < '0' || c > '9' {
            assert(!is_digit(digits[k - start]));
            return None;
        }
        let d = (c as u32) - 48;
        let ghost prefix = digits.subrange(0, k + 1 - start);
        assert(prefix.drop_last() =~= digits.subrange(0, k - start));
        assert(prefix.last() == c);
        if value >= 6554 {
            value = 65536;
        } else {
            value = value * 10 + d;
            if value > 65536 {
                value = 65536;
            }
        }
        k = k + 1;
    }
    assert(digits.subrange(0, n - start) =~= digits);
    if value <= 65535 {
        Some(value as u16)
    } else {
        None
    }
}

/// The port used when `PORT` is unset or is not a port number.
pub open spec fn default_port() -> u16 {
    8080
}

impl Config {
    /// The settings from the values of `DATABASE_URL`, `SCREENSHOT_DIR`,
    /// `PORT`, `RUST_LOG` and `WEBHOOK_URL` (`None` where a variable is unset):
    /// unset ones take their defaults, and a port that does not parse is 8080.
    pub fn from_vars(
        database_url: Option<String>,
        screenshot_dir: Option<String>,
        port: Option<String>,
        log_level: Option<String>,
        webhook_url: Option<String>,
    ) -> (c: Config)
        ensures
            c.database_url@ == match database_url {
                Some(v) => v@,
                None => "./data/driftguard.db"@,
            },
            c.screenshot_dir@ == match screenshot_dir {
                Some(v) => v@,
                None => "./data/screenshots"@,
            },
            c.port == match port {
                Some(v) => match parse_u16_spec(v@) {
                    Some(p) => p,
                    None => default_port(),
                },
                None => default_port(),
            },
            c.log_level@ == match log_level {
                Some(v) => v@,
                None => "info"@,
            },
            c.webhook_url == webhook_url,
    {
        let database_url = match database_url {
            Some(v) => v,
            None => "./data/driftguard.db".to_owned(),
        };
        let screenshot_dir = match screenshot_dir {
            Some(v) => v,
            None => "./data/screenshots".to_owned(),
        };
        let port = match port {
            Some(v) => match parse_port(v.as_str()) {
                Some(p) => p,
                None => 8080,
            },
            None => 8080,
        };
        let log_level = match log_level {
            Some(v) => v,
            None => "info".to_owned(),
        };
        Config { database_url, screenshot_dir, port, log_level, webhook_url }
    }
}

/// The decimal notation of a number is made of digits, has no leading zero
/// (unless it is `0`), and the digits read back as the number.
pub proof fn decimal_reads_back(n: nat)
    ensures
        decimal_spec(n).len() > 0,
        all_digits(decimal_spec(n)),
        n > 0 ==> decimal_spec(n)[0] != '0',
        digits_value(decimal_spec(n)) == n,
    decreases n,
{
    if n < 10 {
        assert(digit_char(n as int) as int == n + 48);
        assert(decimal_spec(n).drop_last() =~= Seq::<char>::empty());
        assert(decimal_spec(n).last() == digit_char(n as int));
        assert(digits_value(Seq::<char>::empty()) == 0);
    } else {
        decimal_reads_back(n / 10);
        let d = decimal_spec(n / 10);
        let c = digit_char((n % 10) as int);
        assert(c as int == (n % 10) + 48);
        assert(decimal_spec(n) == d.push(c));
        assert(d.push(c).drop_last() =~= d);
        assert(d.push(c).last() == c);
        assert(digits_value(d.push(c)) == digits_value(d) * 10 + (c as int - 48) as nat);
        assert((n / 10) * 10 + n % 10 == n);
        assert(d.push(c)[0] == d[0]);
        assert forall|i: int| 0 <= i < d.push(c).len() implies is_digit(#[trigger] d.push(c)[i]) by {
            if i < d.len() {
                assert(d.push(c)[i] == d[i]);
            }
        }
    }
}

/// A port written in decimal, as the server prints it, parses back to the
/// same port, with or without a leading `+`.
pub proof fn port_text_reads_back(p: u16)
    ensures
        parse_u16_spec(decimal_spec(p as nat)) == Some(p),
        parse_u16_spec(seq!['+'] + decimal_spec(p as nat)) == Some(p),
{
    decimal_reads_back(p as nat);
    let d = decimal_spec(p as nat);
    assert(d[0] != '+');
    assert((seq!['+'] + d).drop_first() =~= d);
}

} // verus!
