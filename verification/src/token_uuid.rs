//! Token identifiers and their canonical text form.
//!
//! A token identifier is a 128-bit value; its text form is the usual
//! hyphenated UUID notation (8-4-4-4-12 lower-case hex digits), which is
//! what the session cache and the token claims carry. Formatting and
//! parsing are verified against character-level spec functions.
use vstd::prelude::*;

verus! {

/// The nibble of `v` at position `i`, counting the most significant nibble
/// as position 0; only positions 0 to 31 are meaningful.
pub open spec fn uuid_nibble(v: u128, i: int) -> u8 {
    ((v >> (((31 - i) * 4) as u128)) & 0xf) as u8
}

/// The lower-case hex digit for a nibble value.
pub open spec fn hex_char(n: u8) -> char {
    if n < 10 {
        ((n + 48) as char)  // '0'..'9'
    } else {
        ((n + 87) as char)  // 'a'..'f'
    }
}

/// The hex digits of `count` consecutive nibbles of `v` starting at
/// nibble position `start`.
pub open spec fn hex_group(v: u128, start: int, count: nat) -> Seq<char>
    decreases count,
{
    if count == 0 {
        Seq::empty()
    } else {
        seq![hex_char(uuid_nibble(v, start))] + hex_group(v, start + 1, (count - 1) as nat)
    }
}

/// The canonical hyphenated text form of a 128-bit identifier.
pub open spec fn uuid_chars(v: u128) -> Seq<char> {
    hex_group(v, 0, 8) + seq!['-'] + hex_group(v, 8, 4) + seq!['-'] + hex_group(v, 12, 4)
        + seq!['-'] + hex_group(v, 16, 4) + seq!['-'] + hex_group(v, 20, 12)
}

/// The value of a hex digit character, upper or lower case.
pub open spec fn hex_digit_val(c: char) -> Option<u8> {
    if '0' <= c && c <= '9' {
        Some(((c as u8) - 48) as u8)
    } else if 'a' <= c && c <= 'f' {
        Some(((c as u8) - 87) as u8)
    } else if 'A' <= c && c <= 'F' {
        Some(((c as u8) - 55) as u8)
    } else {
        None
    }
}

/// Whether position `i` of a 36-character UUID text holds a hyphen.
pub open spec fn is_hyphen_pos(i: int) -> bool {
    i == 8 || i == 13 || i == 18 || i == 23
}

/// Whether `s` is hyphenated UUID text: 36 characters, hyphens in the four
/// canonical places, hex digits (either case) everywhere else.
pub open spec fn is_uuid_text(s: Seq<char>) -> bool {
    &&& s.len() == 36
    &&& forall|i: int| 0 <= i < 36 && is_hyphen_pos(i) ==> s[i] == '-'
    &&& forall|i: int| 0 <= i < 36 && !is_hyphen_pos(i) ==> hex_digit_val(s[i]) is Some
}

/// One step of the accumulator that folds hex digits into a value, exactly
/// as the parser computes it: shift four bits and take in the digit.
pub open spec fn uuid_acc_step(acc: u128, d: u8) -> u128 {
    (acc << 4) | (d as u128)
}

/// The accumulator after folding the digits of the first `i` characters of
/// UUID text `s` (hyphens contribute nothing).
pub open spec fn uuid_acc(s: Seq<char>, i: int) -> u128
    decreases i,
{
    if i <= 0 {
        0
    } else if is_hyphen_pos(i - 1) {
        uuid_acc(s, i - 1)
    } else {
        uuid_acc_step(uuid_acc(s, i - 1), hex_digit_val(s[i - 1])->Some_0)
    }
}

/// The 128-bit value denoted by hyphenated UUID text.
pub open spec fn uuid_value(s: Seq<char>) -> u128 {
    uuid_acc(s, 36)
}

/// Relies on String's FromIterator impl: collecting characters yields the
/// string of exactly those characters in order.
#[verifier::external_body]
fn chars_to_string(v: Vec<char>) -> (r: String)
    ensures
        r@ == v@,
{
    v.into_iter().collect()
}

proof fn lemma_hex_group_snoc(v: u128, start: int, count: nat)
    requires
        count > 0,
    ensures
        hex_group(v, start, count) == hex_group(v, start, (count - 1) as nat) + seq![
            hex_char(uuid_nibble(v, start + count - 1)),
        ],
    decreases count,
{
    if count == 1 {
        assert(hex_group(v, start + 1, 0) =~= Seq::empty());
        assert(hex_group(v, start, 0) =~= Seq::empty());
        assert(hex_group(v, start, 1) =~= hex_group(v, start, 0) + seq![
            hex_char(uuid_nibble(v, start)),
        ]);
    } else {
        lemma_hex_group_snoc(v, start + 1, (count - 1) as nat);
        assert(hex_group(v, start, count) =~= hex_group(v, start, (count - 1) as nat) + seq![
            hex_char(uuid_nibble(v, start + count - 1)),
        ]);
    }
}

/// The hex digit character for a nibble value, as the formatter emits it.
fn hex_char_of(n: u8) -> (r: char)
    requires
        n < 16,
    ensures
        r == hex_char(n),
{
    if n < 10 {
        (n + 48) as char
    } else {
        (n + 87) as char
    }
}

/// Appends the hex digits of `count` nibbles of `v` starting at nibble
/// position `start`.
fn push_hex_group(out: &mut Vec<char>, v: u128, start: usize, count: usize)
    requires
        start + count <= 32,
    ensures
        final(out)@ == old(out)@ + hex_group(v, start as int, count as nat),
{
    let mut i: usize = 0;
    while i < count
        invariant
            i <= count,
            start + count <= 32,
            out@ == old(out)@ + hex_group(v, start as int, i as nat),
        decreases count - i,
    {
        let sh: u128 = ((31 - (start + i)) * 4) as u128;
        let masked: u128 = (v >> sh) & 0xf;
        proof {
            assert(((v >> sh) & 0xf) < 16) by (bit_vector);
        }
        let nib: u8 = masked as u8;
        assert(nib == uuid_nibble(v, start + i as int));
        out.push(hex_char_of(nib));
        proof {
            lemma_hex_group_snoc(v, start as int, (i + 1) as nat);
        }
        i += 1;
    }
}

/// Formats `v` in the canonical hyphenated UUID notation.
pub fn uuid_string(v: u128) -> (r: String)
    ensures
        r@ == uuid_chars(v),
{
    let mut out: Vec<char> = Vec::new();
    push_hex_group(&mut out, v, 0, 8);
    out.push('-');
    push_hex_group(&mut out, v, 8, 4);
    out.push('-');
    push_hex_group(&mut out, v, 12, 4);
    out.push('-');
    push_hex_group(&mut out, v, 16, 4);
    out.push('-');
    push_hex_group(&mut out, v, 20, 12);
    assert(out@ =~= uuid_chars(v));
    chars_to_string(out)
}

/// The value of an ASCII hex digit byte, mirroring `hex_digit_val`.
fn hex_digit_of_byte(b: u8) -> (r: Option<u8>)
    ensures
        b < 128 ==> r == hex_digit_val(b as char),
        r is Some ==> r->Some_0 < 16,
{
    if 48 <= b && b <= 57 {
        Some(b - 48)
    } else if 97 <= b && b <= 102 {
        Some(b - 87)
    } else if 65 <= b && b <= 70 {
        Some(b - 55)
    } else {
        None
    }
}

/// Parses hyphenated UUID text; returns the denoted value exactly when the
/// text is well-formed, and nothing otherwise.
pub fn parse_uuid(s: &str) -> (r: Option<u128>)
    ensures
        r is Some <==> is_uuid_text(s@),
        r matches Some(v) ==> v == uuid_value(s@),
{
    broadcast use vstd::string::is_ascii_spec_bytes;

    if !s.is_ascii() {
        proof {
            if is_uuid_text(s@) {
                assert forall|i: int| 0 <= i < s@.len() implies '\0' <= #[trigger] s@[i] && s@[i]
                    <= '\u{7f}' by {
                    if is_hyphen_pos(i) {
                        assert(s@[i] == '-');
                    } else {
                        assert(hex_digit_val(s@[i]) is Some);
                    }
                }
                assert(vstd::utf8::is_ascii_chars(s@));
                assert(false);
            }
        }
        return None;
    }
    let bytes = s.as_bytes();
    if bytes.len() != 36 {
        return None;
    }
    let ghost cs = s@;
    assert(cs.len() == 36);
    assert(forall|i: int| 0 <= i < 36 ==> bytes@[i] == cs[i] as u8);
    assert(forall|i: int| 0 <= i < 36 ==> (cs[i] as u32) < 128) by {
        assert(vstd::utf8::is_ascii_chars(cs));
    }
    let mut acc: u128 = 0;
    let mut i: usize = 0;
    while i < 36
        invariant
            i <= 36,
            bytes@.len() == 36,
            cs.len() == 36,
            cs == s@,
            vstd::utf8::is_ascii_chars(cs),
            forall|j: int| 0 <= j < 36 ==> bytes@[j] == cs[j] as u8,
            forall|j: int| 0 <= j < i && is_hyphen_pos(j) ==> cs[j] == '-',
            forall|j: int| 0 <= j < i && !is_hyphen_pos(j) ==> hex_digit_val(cs[j]) is Some,
            acc == uuid_acc(cs, i as int),
        decreases 36 - i,
    {
        let b = bytes[i];
        proof {
            broadcast use vstd::utf8::char_u32_cast;

            assert((cs[i as int] as u32) < 128);
            assert(b == cs[i as int] as u8);
            assert(b < 128);
            assert(b as u32 == cs[i as int] as u32);
            assert((b as u32) as char == cs[i as int]);
            assert(b as char == cs[i as int]);
        }
        if i == 8 || i == 13 || i == 18 || i == 23 {
            if b != 45 {
                proof {
                    assert(cs[i as int] != '-');
                    assert(is_hyphen_pos(i as int));
                    assert(!is_uuid_text(cs));
                }
                return None;
            }
            proof {
                assert(cs[i as int] == '-');
            }
        } else {
            match hex_digit_of_byte(b) {
                Some(d) => {
                    acc = (acc << 4) | (d as u128);
                    proof {
                        assert(hex_digit_val(cs[i as int]) == Some(d));
                    }
                },
                None => {
                    proof {
                        assert(hex_digit_val(cs[i as int]) is None);
                        assert(!is_hyphen_pos(i as int));
                        assert(!is_uuid_text(cs));
                    }
                    return None;
                },
            }
        }
        i += 1;
    }
    Some(acc)
}

/// How many of the first `i` positions of UUID text hold hyphens.
spec fn hyphens_before(i: int) -> int {
    (if i > 8 {
        1int
    } else {
        0int
    }) + (if i > 13 {
        1int
    } else {
        0int
    }) + (if i > 18 {
        1int
    } else {
        0int
    }) + (if i > 23 {
        1int
    } else {
        0int
    })
}

/// The value of the first `k` nibbles of `v`, right-aligned.
spec fn uuid_prefix(v: u128, k: int) -> u128 {
    if k <= 0 {
        0
    } else if k >= 32 {
        v
    } else {
        v >> (((32 - k) * 4) as u128)
    }
}

/// Position `k` of a hex group is the digit of the nibble `start + k`.
proof fn lemma_hex_group_index(v: u128, start: int, count: nat, k: int)
    requires
        0 <= k < count,
    ensures
        hex_group(v, start, count).len() == count,
        hex_group(v, start, count)[k] == hex_char(uuid_nibble(v, start + k)),
    decreases count,
{
    if k == 0 {
        lemma_hex_group_len(v, start + 1, (count - 1) as nat);
    } else {
        lemma_hex_group_index(v, start + 1, (count - 1) as nat, k - 1);
    }
}

/// A hex group has as many characters as it was asked for.
proof fn lemma_hex_group_len(v: u128, start: int, count: nat)
    ensures
        hex_group(v, start, count).len() == count,
    decreases count,
{
    if count > 0 {
        lemma_hex_group_len(v, start + 1, (count - 1) as nat);
    }
}

/// Nibbles are small, and reading the digit of a nibble back gives the
/// nibble.
proof fn lemma_hex_char_round_trip(v: u128, i: int)
    ensures
        uuid_nibble(v, i) < 16,
        hex_digit_val(hex_char(uuid_nibble(v, i))) == Some(uuid_nibble(v, i)),
{
    let sh = ((31 - i) * 4) as u128;
    assert(((v >> sh) & 0xf) < 16) by (bit_vector);
    let n = uuid_nibble(v, i);
    if n < 10 {
        assert(hex_digit_val(((n + 48) as char)) == Some(n));
    } else {
        assert(hex_digit_val(((n + 87) as char)) == Some(n));
    }
}

/// Each position of the canonical text of `v`: a hyphen in the four
/// canonical places, elsewhere the digit of the corresponding nibble.
proof fn lemma_uuid_chars_index(v: u128, i: int)
    requires
        0 <= i < 36,
    ensures
        uuid_chars(v).len() == 36,
        is_hyphen_pos(i) ==> uuid_chars(v)[i] == '-',
        !is_hyphen_pos(i) ==> uuid_chars(v)[i] == hex_char(
            uuid_nibble(v, i - hyphens_before(i)),
        ),
{
    lemma_hex_group_len(v, 0, 8);
    lemma_hex_group_len(v, 8, 4);
    lemma_hex_group_len(v, 12, 4);
    lemma_hex_group_len(v, 16, 4);
    lemma_hex_group_len(v, 20, 12);
    if !is_hyphen_pos(i) {
        if i < 8 {
            lemma_hex_group_index(v, 0, 8, i);
        } else if i < 13 {
            lemma_hex_group_index(v, 8, 4, i - 9);
        } else if i < 18 {
            lemma_hex_group_index(v, 12, 4, i - 14);
        } else if i < 23 {
            lemma_hex_group_index(v, 16, 4, i - 19);
        } else {
            lemma_hex_group_index(v, 20, 12, i - 24);
        }
    }
}

/// Folding one more nibble into a right-aligned prefix extends it by four
/// bits.
proof fn lemma_uuid_prefix_step(v: u128, k: int)
    requires
        0 <= k < 32,
    ensures
        (uuid_prefix(v, k) << 4) | (uuid_nibble(v, k) as u128) == uuid_prefix(v, k + 1),
{
    if k == 0 {
        assert((0u128 << 4) | ((v >> 124) & 0xf) == v >> 124) by (bit_vector);
        assert((((v >> 124) & 0xf) as u8) as u128 == (v >> 124) & 0xf) by (bit_vector);
        assert(((31 - k) * 4) as u128 == 124u128);
        assert(((32 - (k + 1)) * 4) as u128 == 124u128);
    } else {
        let sh = ((31 - k) * 4) as u128;
        assert(sh <= 120);
        assert(sh <= 120 ==> ((v >> (sh + 4)) << 4) | ((v >> sh) & 0xf) == v >> sh)
            by (bit_vector);
        assert((((v >> sh) & 0xf) as u8) as u128 == (v >> sh) & 0xf) by (bit_vector);
        assert(((32 - k) * 4) as u128 == sh + 4);
        assert(uuid_prefix(v, k) == v >> (sh + 4));
        assert(uuid_nibble(v, k) as u128 == (v >> sh) & 0xf);
        if k + 1 == 32 {
            assert(sh == 0);
            assert(v >> 0u128 == v) by (bit_vector);
        } else {
            assert(((32 - (k + 1)) * 4) as u128 == sh);
        }
    }
}

/// The parser's accumulator over the canonical text of `v` tracks the
/// right-aligned prefix of `v`, nibble by nibble.
proof fn lemma_uuid_acc_prefix(v: u128, i: int)
    requires
        0 <= i <= 36,
    ensures
        uuid_acc(uuid_chars(v), i) == uuid_prefix(v, i - hyphens_before(i)),
    decreases i,
{
    let s = uuid_chars(v);
    if i > 0 {
        lemma_uuid_acc_prefix(v, i - 1);
        lemma_uuid_chars_index(v, i - 1);
        if is_hyphen_pos(i - 1) {
            assert(hyphens_before(i) == hyphens_before(i - 1) + 1);
        } else {
            let k = i - 1 - hyphens_before(i - 1);
            lemma_hex_char_round_trip(v, k);
            assert(hex_digit_val(s[i - 1]) == Some(uuid_nibble(v, k)));
            assert(hyphens_before(i) == hyphens_before(i - 1));
            lemma_uuid_prefix_step(v, k);
        }
    }
}

/// Formatting then parsing is the identity: the canonical text of any
/// 128-bit identifier is well-formed UUID text, and it denotes exactly
/// that identifier. Together with the parser's and formatter's contracts,
/// a formatted identifier always survives the trip through a token claim
/// or a cache key unchanged.
pub proof fn lemma_uuid_text_round_trip(v: u128)
    ensures
        is_uuid_text(uuid_chars(v)),
        uuid_value(uuid_chars(v)) == v,
{
    let s = uuid_chars(v);
    assert forall|i: int| 0 <= i < 36 && is_hyphen_pos(i) implies s[i] == '-' by {
        lemma_uuid_chars_index(v, i);
    }
    assert forall|i: int| 0 <= i < 36 && !is_hyphen_pos(i) implies hex_digit_val(s[i]) is Some by {
        lemma_uuid_chars_index(v, i);
        lemma_hex_char_round_trip(v, i - hyphens_before(i));
    }
    lemma_uuid_chars_index(v, 0);
    assert(s.len() == 36);
    assert(is_uuid_text(s));
    lemma_uuid_acc_prefix(v, 36);
    assert(hyphens_before(36) == 4);
    assert(uuid_prefix(v, 32) == v);
}

/// A token identifier: the revocation key minted at each issuance, distinct
/// from the user identifier.
#[derive(Debug, Clone, Copy, PartialEq, Eq, Structural)]
pub struct TokenUuid(u128);

impl TokenUuid {
    /// The identifier's 128-bit value.
    pub closed spec fn value(&self) -> u128 {
        self.0
    }

    pub fn new(value: u128) -> (r: TokenUuid)
        ensures
            r.value() == value,
    {
        TokenUuid(value)
    }

    /// The identifier's canonical hyphenated text form, as the session
    /// cache keys it.
    pub fn get_string(&self) -> (r: String)
        ensures
            r@ == uuid_chars(self.value()),
    {
        uuid_string(self.0)
    }

    /// The raw 128-bit value.
    pub fn get(&self) -> (r: u128)
        ensures
            r == self.value(),
    {
        self.0
    }
}

} // verus!
