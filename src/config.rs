use vstd::prelude::*;

verus! {

/// Process-wide settings, read once at startup.
#[derive(Debug)]
pub struct AppConfig {
    pub database_url: String,
    pub jwt_secret: String,
    pub max_connections: u32,
    pub server_host: String,
    pub server_port: u16,
}

pub const DEFAULT_MAX_CONNECTIONS: u32 = 5;

pub const DEFAULT_PORT: u16 = 8080;

pub open spec fn is_digit(c: char) -> bool {
    '0' <= c <= '9'
}

pub open spec fn all_digits(s: Seq<char>) -> bool {
    forall|i: int| 0 <= i < s.len() ==> is_digit(#[trigger] s[i])
}

/// The number that a string of decimal digits writes.
pub open spec fn digits_value(s: Seq<char>) -> int
    decreases s.len(),
{
    if s.len() == 0 {
        0
    } else {
        digits_value(s.drop_last()) * 10 + (s.last() as int - '0' as int)
    }
}

/// The digits of an unsigned decimal: all of `s`, or what follows one `+`.
pub open spec fn unsigned_digits(s: Seq<char>) -> Seq<char> {
    if s.len() > 0 && s[0] == '+' {
        s.drop_first()
    } else {
        s
    }
}

/// The value of `s` read as an unsigned decimal no larger than `max`, as
/// `str::parse` reads an unsigned integer type: an optional `+`, then one
/// or more digits.
pub open spec fn decimal_upto(s: Seq<char>, max: int) -> Option<int> {
    let d = unsigned_digits(s);
    if d.len() > 0 && all_digits(d) && digits_value(d) <= max {
        Some(digits_value(d))
    } else {
        None
    }
}

proof fn lemma_digits_nonneg(s: Seq<char>)
    requires
        all_digits(s),
    ensures
        digits_value(s) >= 0,
    decreases s.len(),
{
    if s.len() > 0 {
        lemma_digits_nonneg(s.drop_last());
    }
}

/// A longer run of digits writes a number at least as large.
proof fn lemma_digits_grow(s: Seq<char>, k: int)
    requires
        all_digits(s),
        0 <= k <= s.len(),
    ensures
        digits_value(s.subrange(0, k)) <= digits_value(s),
    decreases s.len() - k,
{
    if k < s.len() {
        lemma_digits_grow(s, k + 1);
        let p = s.subrange(0, k + 1);
        assert(p.drop_last() =~= s.subrange(0, k));
        lemma_digits_nonneg(s.subrange(0, k));
        let v = digits_value(s.subrange(0, k));
        assert(v * 10 >= v) by (nonlinear_arith)
            requires
                v >= 0,
        ;
    } else {
        assert(s.subrange(0, k) =~= s);
    }
}

/// Reads `s` as an unsigned decimal no larger than `max`.
pub fn parse_decimal(s: &str, max: u32) -> (r: Option<u32>)
    ensures
        match decimal_upto(s@, max as int) {
            Some(n) => r matches Some(v) && v as int == n,
            None => r is None,
        },
        r matches Some(v) ==> v <= max,
{
    let len = s.unicode_len();
    let start: usize = if len > 0 && s.get_char(0) == '+' {
        1
    } else {
        0
    };
    let ghost d = unsigned_digits(s@);
    assert(d =~= s@.subrange(start as int, len as int));
    if start == len {
        return None;
    }
    let mut acc: u64 = 0;
    let mut i: usize = start;
    while i < len
        invariant
            len == s@.len(),
            d == s@.subrange(start as int, len as int),
            d == unsigned_digits(s@),
            start <= i <= len,
            start < len,
            max as int <= u32::MAX,
            forall|j: int| 0 <= j < i - start ==> is_digit(#[trigger] d[j]),
            acc as int == digits_value(d.subrange(0, i - start)),
            acc <= max,
        decreases len - i,
    {
        let c = s.get_char(i);
        assert(d[i - start] == c);
        if c < '0' || c > '9' {
            assert(!is_digit(d[i - start]));
            assert(!all_digits(d));
            return None;
        }
        let digit: u64 = (c as u64) - ('0' as u64);
        let next: u64 = acc * 10 + digit;
        assert(d.subrange(0, i - start + 1).drop_last() =~= d.subrange(0, i - start));
        assert(d.subrange(0, i - start + 1).last() == c);
        assert(next as int == digits_value(d.subrange(0, i - start + 1)));
        if next > max as u64 {
            proof {
                if all_digits(d) {
                    lemma_digits_grow(d, i - start + 1);
                }
            }
            return None;
        }
        acc = next;
        i = i + 1;
    }
    assert(d.subrange(0, len - start) =~= d);
    assert(all_digits(d));
    Some(acc as u32)
}

/// A numeric setting no larger than `max`: its value, or `default` when it
/// is absent or not such a number.
pub open spec fn setting(v: Option<String>, max: int, default: int) -> int {
    match v {
        Some(s) => match decimal_upto(s@, max) {
            Some(n) => n,
            None => default,
        },
        None => default,
    }
}

impl AppConfig {
    /// Builds the settings from the raw values of the environment. The
    /// database URL and the signing secret are required; the pool size and
    /// the port fall back to their defaults when absent or not a number,
    /// the host to `127.0.0.1`.
    pub fn from_values(
        database_url: Option<String>,
        jwt_secret: Option<String>,
        max_connections: Option<String>,
        server_host: Option<String>,
        server_port: Option<String>,
    ) -> (r: Result<AppConfig, String>)
        ensures
            match (database_url, jwt_secret) {
                (None, _) => r matches Err(m) && m@ == "DATABASE_URL must be set"@,
                (Some(_), None) => r matches Err(m) && m@ == "JWT_SECRET must be set"@,
                (Some(d), Some(k)) => r matches Ok(c) && c.database_url@ == d@
                    && c.jwt_secret@ == k@
                    && c.max_connections as int == setting(max_connections, u32::MAX as int, DEFAULT_MAX_CONNECTIONS as int)
                    && c.server_port as int == setting(server_port, u16::MAX as int, DEFAULT_PORT as int)
                    && c.server_host@ == match server_host {
                    Some(h) => h@,
                    None => "127.0.0.1"@,
                },
            },
    {
        let database_url = match database_url {
            Some(d) => d,
            None => return Err("DATABASE_URL must be set".to_owned()),
        };
        let jwt_secret = match jwt_secret {
            Some(k) => k,
            None => return Err("JWT_SECRET must be set".to_owned()),
        };
        let max_connections = match &max_connections {
            Some(s) => match parse_decimal(s.as_str(), u32::MAX) {
                Some(n) => n,
                None => DEFAULT_MAX_CONNECTIONS,
            },
            None => DEFAULT_MAX_CONNECTIONS,
        };
        let server_port = match &server_port {
            Some(s) => match parse_decimal(s.as_str(), u16::MAX as u32) {
                Some(n) => n as u16,
                None => DEFAULT_PORT,
            },
            None => DEFAULT_PORT,
        };
        let server_host = match server_host {
            Some(h) => h,
            None => "127.0.0.1".to_owned(),
        };
        Ok(AppConfig { database_url, jwt_secret, max_connections, server_host, server_port })
    }
}

} // verus!
