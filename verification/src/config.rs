//! Process configuration: key material, token lifetimes and connection
//! targets, plus the verified decimal parser that turns the textual
//! lifetime settings into numbers. Reading the environment itself is left
//! to the process boundary; this module only holds and interprets the
//! values.
use vstd::prelude::*;

verus! {

/// Configuration parameters of the service: signing and verification keys
/// (base64-encoded PEM), token lifetimes in minutes, and the addresses of
/// the two external stores.
#[derive(Debug, Clone)]
pub struct Config {
    pub database_url: String,
    pub access_token_private_key: String,
    pub access_token_public_key: String,
    pub access_token_expires_in: String,
    pub access_token_max_age: i64,
    pub refresh_token_private_key: String,
    pub refresh_token_public_key: String,
    pub refresh_token_expires_in: String,
    pub refresh_token_max_age: i64,
    pub redis_url: String,
}

/// Whether every character of `s` from `start` on is a decimal digit.
pub open spec fn dec_digits(s: Seq<char>, start: int) -> bool {
    forall|i: int| start <= i < s.len() ==> '0' <= #[trigger] s[i] <= '9'
}

/// The value of the digit run `s[start..i)`, most significant digit first.
pub open spec fn dec_val(s: Seq<char>, start: int, i: int) -> int
    decreases i - start,
{
    if i <= start {
        0
    } else {
        dec_val(s, start, i - 1) * 10 + (s[i - 1] as int - 48)
    }
}

/// Whether `s` is decimal text for a value representable as an `i64`: an
/// optional leading minus sign, then at least one digit, within range.
pub open spec fn decimal_i64_ok(s: Seq<char>) -> bool {
    if s.len() == 0 {
        false
    } else if s[0] == '-' {
        s.len() > 1 && dec_digits(s, 1) && -dec_val(s, 1, s.len() as int) >= i64::MIN
    } else {
        dec_digits(s, 0) && dec_val(s, 0, s.len() as int) <= i64::MAX
    }
}

/// The value that decimal text denotes.
pub open spec fn decimal_i64_value(s: Seq<char>) -> int {
    if s[0] == '-' {
        -dec_val(s, 1, s.len() as int)
    } else {
        dec_val(s, 0, s.len() as int)
    }
}

/// A digit run's value is non-negative.
proof fn lemma_dec_val_nonneg(s: Seq<char>, start: int, i: int)
    requires
        forall|k: int| start <= k < i ==> '0' <= #[trigger] s[k] <= '9',
        start <= i,
    ensures
        0 <= dec_val(s, start, i),
    decreases i - start,
{
    if i > start {
        lemma_dec_val_nonneg(s, start, i - 1);
    }
}

/// A digit run's value never shrinks as the run extends.
proof fn lemma_dec_val_monotone(s: Seq<char>, start: int, i: int, j: int)
    requires
        forall|k: int| start <= k < j ==> '0' <= #[trigger] s[k] <= '9',
        start <= i <= j <= s.len(),
    ensures
        0 <= dec_val(s, start, i) <= dec_val(s, start, j),
    decreases j - i,
{
    lemma_dec_val_nonneg(s, start, i);
    if i < j {
        lemma_dec_val_monotone(s, start, i, j - 1);
        lemma_dec_val_nonneg(s, start, j - 1);
        assert(dec_val(s, start, j) == dec_val(s, start, j - 1) * 10 + (s[j - 1] as int - 48));
    }
}

/// Parses decimal text as an `i64`: returns the denoted value exactly when
/// the text is well-formed and the value representable.
pub fn parse_i64(s: &str) -> (r: Option<i64>)
    ensures
        r is Some <==> decimal_i64_ok(s@),
        r matches Some(v) ==> v == decimal_i64_value(s@),
{
    broadcast use vstd::string::is_ascii_spec_bytes, vstd::utf8::char_u32_cast;

    if !s.is_ascii() {
        proof {
            if decimal_i64_ok(s@) {
                assert forall|i: int| 0 <= i < s@.len() implies '\0' <= #[trigger] s@[i] && s@[i]
                    <= '\u{7f}' by {
                    if i == 0 && s@[0] == '-' {
                    } else if s@[0] == '-' {
                        assert('0' <= s@[i] <= '9');
                    } else {
                        assert('0' <= s@[i] <= '9');
                    }
                }
                assert(vstd::utf8::is_ascii_chars(s@));
                assert(false);
            }
        }
        return None;
    }
    let bytes = s.as_bytes();
    let n = bytes.len();
    let ghost cs = s@;
    assert(forall|i: int| 0 <= i < cs.len() ==> bytes@[i] == cs[i] as u8);
    assert(forall|i: int| 0 <= i < cs.len() ==> (cs[i] as u32) < 128) by {
        assert(vstd::utf8::is_ascii_chars(cs));
    }
    if n == 0 {
        return None;
    }
    let negative = bytes[0] == 45;
    proof {
        assert(bytes@[0] == cs[0] as u8);
        assert((cs[0] as u32) as char == cs[0]);
        assert(negative <==> cs[0] == '-');
    }
    let start: usize = if negative {
        1
    } else {
        0
    };
    if n == start {
        return None;
    }
    let mut acc: i64 = 0;
    let mut i: usize = start;
    while i < n
        invariant
            start <= i <= n,
            n == cs.len(),
            negative ==> start == 1,
            !negative ==> start == 0,
            bytes@.len() == n,
            cs == s@,
            vstd::utf8::is_ascii_chars(cs),
            forall|j: int| 0 <= j < cs.len() ==> bytes@[j] == cs[j] as u8,
            forall|j: int| start <= j < i ==> '0' <= #[trigger] cs[j] <= '9',
            negative <==> cs[0] == '-',
            negative ==> acc == -dec_val(cs, start as int, i as int) && acc <= 0,
            !negative ==> acc == dec_val(cs, start as int, i as int) && acc >= 0,
        decreases n - i,
    {
        let b = bytes[i];
        proof {
            assert(b == cs[i as int] as u8);
            assert((b as u32) as char == cs[i as int]);
        }
        if b < 48 || b > 57 {
            proof {
                assert(!('0' <= cs[i as int] <= '9'));
                assert(!decimal_i64_ok(cs));
            }
            return None;
        }
        let d = b - 48;
        proof {
            assert('0' <= cs[i as int] <= '9');
            assert(d as int == cs[i as int] as int - 48);
        }
        let scaled = match acc.checked_mul(10) {
            Some(x) => x,
            None => {
                proof {
                    lemma_out_of_range(cs, start as int, i as int, negative);
                }
                return None;
            },
        };
        let next = if negative {
            match scaled.checked_sub(d as i64) {
                Some(x) => x,
                None => {
                    proof {
                        lemma_out_of_range(cs, start as int, i as int, negative);
                    }
                    return None;
                },
            }
        } else {
            match scaled.checked_add(d as i64) {
                Some(x) => x,
                None => {
                    proof {
                        lemma_out_of_range(cs, start as int, i as int, negative);
                    }
                    return None;
                },
            }
        };
        acc = next;
        i += 1;
    }
    Some(acc)
}

/// If the value of the digits seen so far already leaves the `i64` range
/// at the next step, the whole run's value is out of range too.
proof fn lemma_out_of_range(s: Seq<char>, start: int, i: int, negative: bool)
    requires
        0 <= start <= i < s.len(),
        forall|j: int| start <= j < i ==> '0' <= #[trigger] s[j] <= '9',
        '0' <= s[i] <= '9',
        negative ==> -(dec_val(s, start, i) * 10 + (s[i] as int - 48)) < i64::MIN,
        !negative ==> dec_val(s, start, i) * 10 + (s[i] as int - 48) > i64::MAX,
    ensures
        dec_digits(s, start) ==> (negative ==> -dec_val(s, start, s.len() as int) < i64::MIN) && (
        !negative ==> dec_val(s, start, s.len() as int) > i64::MAX),
{
    if dec_digits(s, start) {
        lemma_dec_val_monotone(s, start, i + 1, s.len() as int);
        assert(dec_val(s, start, i + 1) == dec_val(s, start, i) * 10 + (s[i] as int - 48));
    }
}

} // verus!
