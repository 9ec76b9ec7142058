//! Page cursors of the Gamma API: the offset of the next page, written in
//! decimal and encoded as base64.
use vstd::prelude::*;

verus! {

/// Standard, padded base64 text of `bytes`.
pub uninterp spec fn base64_text(bytes: Seq<u8>) -> Seq<char>;

/// The bytes that standard, padded base64 text `s` stands for, when it is valid.
pub uninterp spec fn base64_bytes(s: Seq<char>) -> Option<Seq<u8>>;

/// Relies on base64's `general_purpose::STANDARD` engine and its `encode`,
/// whose output decodes back to the input. It panics only when the output
/// length overflows `usize`.
#[verifier::external_body]
fn base64_encode(bytes: &Vec<u8>) -> (r: String)
    requires
        bytes@.len() <= usize::MAX / 2,
    ensures
        r@ == base64_text(bytes@),
        base64_bytes(r@) == Some(bytes@),
{
    base64::Engine::encode(&base64::engine::general_purpose::STANDARD, bytes)
}

/// Relies on base64's `general_purpose::STANDARD` engine and its `decode`.
#[verifier::external_body]
fn base64_decode(s: &str) -> (r: Option<Vec<u8>>)
    ensures
        match base64_bytes(s@) {
            Some(b) => r matches Some(v) && v@ == b,
            None => r is None,
        },
{
    base64::Engine::decode(&base64::engine::general_purpose::STANDARD, s).ok()
}

/// The ASCII decimal digits of `n`, without leading zeros.
pub open spec fn decimal_digits(n: nat) -> Seq<u8>
    decreases n,
{
    if n < 10 {
        seq![(48 + n) as u8]
    } else {
        decimal_digits(n / 10).push((48 + n % 10) as u8)
    }
}

/// The number that the ASCII digits `s` spell.
pub open spec fn digits_value(s: Seq<u8>) -> nat
    decreases s.len(),
{
    if s.len() == 0 {
        0
    } else {
        digits_value(s.drop_last()) * 10 + (s.last() - 48) as nat
    }
}

pub open spec fn all_digits(s: Seq<u8>) -> bool {
    forall|i: int| 0 <= i < s.len() ==> 48 <= #[trigger] s[i] <= 57
}

/// The `u64` that text `s` reads as, as `str::parse::<u64>` reads it: an
/// optional `+`, then one or more decimal digits, with no overflow.
pub open spec fn parsed_u64(s: Seq<u8>) -> Option<u64> {
    let d = unsigned_digits(s);
    if d.len() > 0 && all_digits(d) && digits_value(d) <= u64::MAX {
        Some(digits_value(d) as u64)
    } else {
        None
    }
}

/// `s` without one leading `+`.
pub open spec fn unsigned_digits(s: Seq<u8>) -> Seq<u8> {
    if s.len() > 0 && s[0] == 43 { s.drop_first() } else { s }
}

pub open spec fn pow10(k: nat) -> nat
    decreases k,
{
    if k == 0 { 1 } else { 10 * pow10((k - 1) as nat) }
}

proof fn lemma_digits_len(n: nat, k: nat)
    requires
        k >= 1,
        n < pow10(k),
    ensures
        decimal_digits(n).len() <= k,
    decreases k,
{
    if n >= 10 {
        assert(k >= 2) by {
            if k == 1 {
                assert(pow10(1) == 10 * pow10(0));
            }
        }
        assert(pow10(k) == 10 * pow10((k - 1) as nat));
        assert(n / 10 < pow10((k - 1) as nat)) by (nonlinear_arith)
            requires
                n < 10 * pow10((k - 1) as nat),
        ;
        lemma_digits_len(n / 10, (k - 1) as nat);
    }
}

proof fn lemma_digits_parse(n: nat)
    ensures
        all_digits(decimal_digits(n)),
        digits_value(decimal_digits(n)) == n,
        decimal_digits(n).len() > 0,
        decimal_digits(n)[0] != 43,
    decreases n,
{
    if n >= 10 {
        lemma_digits_parse(n / 10);
        let d = decimal_digits(n);
        assert(d.drop_last() =~= decimal_digits(n / 10));
        assert(d.last() == (48 + n % 10) as u8);
        assert((d.last() - 48) as nat == n % 10);
        assert(digits_value(d) == digits_value(decimal_digits(n / 10)) * 10 + n % 10);
        assert(n == (n / 10) * 10 + n % 10);
    } else {
        let d = decimal_digits(n);
        assert(d.drop_last() =~= Seq::<u8>::empty());
        assert(digits_value(d) == digits_value(Seq::<u8>::empty()) * 10 + (d.last() - 48) as nat);
    }
}

fn u64_digits(n: u64) -> (r: Vec<u8>)
    ensures
        r@ == decimal_digits(n as nat),
    decreases n,
{
    if n < 10 {
        let mut v: Vec<u8> = Vec::new();
        v.push((48 + n) as u8);
        assert(v@ =~= decimal_digits(n as nat));
        v
    } else {
        let mut v = u64_digits(n / 10);
        v.push((48 + n % 10) as u8);
        v
    }
}

/// Reads `bytes` as `String::from_utf8` followed by `str::parse::<u64>`
/// would: text that is an optional `+` and digits is plain ASCII, and any
/// other text is refused by both readings.
fn parse_u64(bytes: &Vec<u8>) -> (r: Option<u64>)
    ensures
        r == parsed_u64(bytes@),
{
    let start: usize = if bytes.len() > 0 && bytes[0] == 43 { 1 } else { 0 };
    let ghost d = unsigned_digits(bytes@);
    assert(d =~= bytes@.skip(start as int));
    if start >= bytes.len() {
        return None;
    }
    let mut value: u64 = 0;
    let mut i: usize = start;
    while i < bytes.len()
        invariant
            start <= i <= bytes@.len(),
            d =~= bytes@.skip(start as int),
            d == unsigned_digits(bytes@),
            all_digits(bytes@.subrange(start as int, i as int)),
            value as nat == digits_value(bytes@.subrange(start as int, i as int)),
        decreases bytes.len() - i,
    {
        let b = bytes[i];
        let ghost prefix = bytes@.subrange(start as int, i + 1);
        assert(prefix.drop_last() =~= bytes@.subrange(start as int, i as int));
        if b < 48 || b > 57 {
            let ghost k: int = i - start;
            assert(d[k] == b);
            assert(!all_digits(d));
            assert(parsed_u64(bytes@) is None);
            return None;
        }
        let next: u128 = (value as u128) * 10 + ((b - 48) as u128);
        assert(prefix.last() == b);
        assert(digits_value(prefix) == value * 10 + (b - 48));
        if next > u64::MAX as u128 {
            proof { lemma_prefix_value_grows(d, (i + 1 - start) as int); }
            assert(d.take((i + 1 - start) as int) =~= prefix);
            assert(parsed_u64(bytes@) is None);
            return None;
        }
        value = next as u64;
        i = i + 1;
    }
    assert(bytes@.subrange(start as int, i as int) =~= d);
    Some(value)
}

/// The value of a digit string is at least that of each of its prefixes.
proof fn lemma_prefix_value_grows(s: Seq<u8>, k: int)
    requires
        0 <= k <= s.len(),
    ensures
        digits_value(s.take(k)) <= digits_value(s),
    decreases s.len() - k,
{
    if k < s.len() {
        assert(s.take(k + 1).drop_last() =~= s.take(k));
        lemma_prefix_value_grows(s, k + 1);
    } else {
        assert(s.take(k) =~= s);
    }
}

/// The cursor that stands for offset `offset`.
pub fn encode_cursor(offset: u64) -> (r: String)
    ensures
        r@ == base64_text(decimal_digits(offset as nat)),
        base64_bytes(r@) == Some(decimal_digits(offset as nat)),
{
    let digits = u64_digits(offset);
    proof {
        reveal_with_fuel(pow10, 21);
        assert(pow10(20) == 100000000000000000000nat);
        lemma_digits_len(offset as nat, 20);
    }
    base64_encode(&digits)
}

/// The offset a cursor stands for; `None` when it is not base64 of a
/// decimal `u64`.
pub fn decode_cursor(cursor: &str) -> (r: Option<u64>)
    ensures
        r == match base64_bytes(cursor@) {
            Some(b) => parsed_u64(b),
            None => None,
        },
{
    match base64_decode(cursor) {
        Some(bytes) => parse_u64(&bytes),
        None => None,
    }
}

/// Decoding the cursor of an offset gives that offset back.
pub proof fn lemma_cursor_round_trip(offset: u64)
    ensures
        parsed_u64(decimal_digits(offset as nat)) == Some(offset),
{
    lemma_digits_parse(offset as nat);
}

/// Number of markets asked for per page.
pub const GAMMA_MARKETS_LIMIT: u32 = 50;

/// The offset a page request starts at: the cursor's, else zero.
pub fn page_offset(next_cursor: Option<&str>) -> (r: u64)
    ensures
        r == match next_cursor {
            Some(c) => match base64_bytes(c@) {
                Some(b) => match parsed_u64(b) {
                    Some(v) => v,
                    None => 0,
                },
                None => 0,
            },
            None => 0,
        },
{
    match next_cursor {
        Some(c) => match decode_cursor(c) {
            Some(v) => v,
            None => 0,
        },
        None => 0,
    }
}

/// The cursor of the page after one that started at `offset` and held
/// `count` of at most `limit` items: none when the page was not full.
pub fn next_page_cursor(offset: u64, count: usize, limit: u32) -> (r: Option<String>)
    requires
        offset + count <= u64::MAX,
    ensures
        count < limit ==> r is None,
        count >= limit ==> (r matches Some(c) && c@ == base64_text(decimal_digits((offset + count) as nat))),
{
    if count < limit as usize {
        None
    } else {
        Some(encode_cursor(offset + count as u64))
    }
}

} // verus!
