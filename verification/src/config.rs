//! Service configuration, from the values of its environment variables.
use crate::text::chars_of;
use vstd::prelude::*;

verus! {

/// Where the service listens and which database it uses.
#[derive(Debug, Clone)]
pub struct Config {
    pub host: String,
    pub port: u16,
    pub database_url: String,
}

/// A decimal digit.
pub open spec fn is_decimal_digit(c: char) -> bool {
    0x30 <= c as u32 && c as u32 <= 0x39
}

/// The number a string of decimal digits denotes.
pub open spec fn digits_value(s: Seq<char>) -> int
    decreases s.len(),
{
    if s.len() == 0 {
        0
    } else {
        digits_value(s.drop_last()) * 10 + (s.last() as u32 - 0x30)
    }
}

/// The digits of an unsigned number: the text without one leading `+`.
pub open spec fn unsigned_digits(s: Seq<char>) -> Seq<char> {
    if s.len() > 0 && s[0] == '+' {
        s.drop_first()
    } else {
        s
    }
}

/// What parsing `s` as an unsigned integer of at most `max` gives, as
/// `u16::from_str` and `u32::from_str` do: an optional `+`, then at least one
/// decimal digit and nothing else, denoting a number no larger than `max`.
pub open spec fn parse_unsigned(s: Seq<char>, max: int) -> Option<int> {
    let d = unsigned_digits(s);
    if d.len() > 0 && (forall|i: int| 0 <= i < d.len() ==> is_decimal_digit(#[trigger] d[i]))
        && digits_value(d) <= max {
        Some(digits_value(d))
    } else {
        None
    }
}

proof fn lemma_digits_value_grows(s: Seq<char>, k: int)
    requires
        0 <= k <= s.len(),
        forall|i: int| 0 <= i < s.len() ==> is_decimal_digit(#[trigger] s[i]),
    ensures
        0 <= digits_value(s.take(k)) <= digits_value(s),
    decreases s.len(),
{
    if s.len() > 0 {
        let t = s.drop_last();
        assert forall|i: int| 0 <= i < t.len() implies is_decimal_digit(#[trigger] t[i]) by {
            assert(t[i] == s[i]);
        }
        if k < s.len() {
            lemma_digits_value_grows(t, k);
            assert(t.take(k) == s.take(k));
        } else {
            lemma_digits_value_grows(t, 0);
            assert(s.take(k) == s);
        }
    } else {
        assert(s.take(k) == s);
    }
}

/// Parses `s` as an unsigned integer of at most `max`.
pub fn parse_unsigned_up_to(s: &str, max: u64) -> (r: Option<u64>)
    ensures
        match (r, parse_unsigned(s@, max as int)) {
            (Some(v), Some(w)) => v == w,
            (None, None) => true,
            _ => false,
        },
{
    let v = chars_of(s);
    let n = v.len();
    let start: usize = if n > 0 && v[0] == '+' {
        1
    } else {
        0
    };
    let ghost d = unsigned_digits(s@);
    assert(d == s@.skip(start as int));
    if start >= n {
        return None;
    }
    let mut acc: u64 = 0;
    let mut i: usize = start;
    assert(d.take(0) =~= Seq::<char>::empty());
    while i < n
        invariant
            v@ == s@,
            n == v@.len(),
            start <= i <= n,
            d == s@.skip(start as int),
            d == unsigned_digits(s@),
            acc as int == digits_value(d.take(i - start)),
            acc <= max,
            forall|j: int| 0 <= j < i - start ==> is_decimal_digit(#[trigger] d[j]),
        decreases n - i,
    {
        let c = v[i];
        let u = c as u32;
        assert(d[i - start] == c);
        if u < 0x30 || u > 0x39 {
            assert(!is_decimal_digit(d[i - start]));
            return None;
        }
        let digit = (u - 0x30) as u64;
        assert(d.take(i - start + 1).drop_last() == d.take(i - start));
        assert(d.take(i - start + 1).last() == c);
        if digit > max || acc > (max - digit) / 10 {
            proof {
                assert(acc * 10 + digit > max) by (nonlinear_arith)
                    requires
                        digit > max || acc > (max - digit) / 10,
                        0 <= digit <= 9,
                        acc >= 0,
                ;
                assert(digits_value(d.take(i - start + 1)) > max);
                if forall|j: int| 0 <= j < d.len() ==> is_decimal_digit(#[trigger] d[j]) {
                    lemma_digits_value_grows(d, i - start + 1);
                }
            }
            return None;
        }
        proof {
            assert(acc * 10 + digit <= max) by (nonlinear_arith)
                requires
                    acc <= (max - digit) / 10,
                    digit <= max,
                    0 <= digit <= 9,
            ;
        }
        acc = acc * 10 + digit;
        i = i + 1;
    }
    assert(d.take(n - start) == d);
    Some(acc)
}

impl Config {
    /// The configuration from the values of `OLYMPUS_HOST`, `OLYMPUS_PORT`
    /// and `DATABASE_URL` (`None` where a variable is unset): the host
    /// defaults to `0.0.0.0` and the port to 8080; a port that is not a
    /// number from 0 to 65535 is refused, and so is a missing database URL.
    pub fn from_values(
        host: Option<String>,
        port: Option<String>,
        database_url: Option<String>,
    ) -> (r: Result<Config, String>)
        ensures
            ({
                let port_text = match port {
                    Some(p) => p@,
                    None => "8080"@,
                };
                match r {
                    Ok(c) => {
                        &&& parse_unsigned(port_text, 65535) == Some(c.port as int)
                        &&& c.host@ == (match host {
                            Some(h) => h@,
                            None => "0.0.0.0"@,
                        })
                        &&& database_url == Some(c.database_url)
                    },
                    Err(m) => if parse_unsigned(port_text, 65535) is None {
                        m@ == "OLYMPUS_PORT must be a valid port"@
                    } else {
                        database_url is None && m@ == "DATABASE_URL is required"@
                    },
                }
            }),
    {
        let host = match host {
            Some(h) => h,
            None => "0.0.0.0".to_owned(),
        };
        let parsed = match port {
            Some(p) => parse_unsigned_up_to(p.as_str(), 65535),
            None => parse_unsigned_up_to("8080", 65535),
        };
        let port: u16 = match parsed {
            Some(p) => p as u16,
            None => {
                return Err("OLYMPUS_PORT must be a valid port".to_owned());
            },
        };
        match database_url {
            Some(url) => Ok(Config { host, port, database_url: url }),
            None => Err("DATABASE_URL is required".to_owned()),
        }
    }
}

} // verus!
