use vstd::prelude::*;

verus! {

// Hyphenated UUID text is 36 characters: 32 hexadecimal digits with `-`
// at positions 8, 13, 18 and 23. Its value is the 128-bit number the
// digits spell, most significant digit first.

/// True of the four positions where hyphenated UUID text carries `-`.
pub open spec fn uuid_hyphen_position(i: int) -> bool {
    i == 8 || i == 13 || i == 18 || i == 23
}

pub open spec fn is_hex_digit(c: char) -> bool {
    ('0' <= c && c <= '9') || ('a' <= c && c <= 'f') || ('A' <= c && c <= 'F')
}

pub open spec fn hex_digit_value(c: char) -> int {
    if '0' <= c && c <= '9' {
        c as int - '0' as int
    } else if 'a' <= c && c <= 'f' {
        c as int - 'a' as int + 10
    } else {
        c as int - 'A' as int + 10
    }
}

/// What position `i` of hyphenated UUID text must hold.
pub open spec fn uuid_char_ok(s: Seq<char>, i: int) -> bool {
    if uuid_hyphen_position(i) {
        s[i] == '-'
    } else {
        is_hex_digit(s[i])
    }
}

/// True exactly of well-formed hyphenated UUID text.
pub open spec fn valid_uuid_text(s: Seq<char>) -> bool {
    s.len() == 36 && forall|i: int| 0 <= i < 36 ==> uuid_char_ok(s, i)
}

/// How many digit (non-hyphen) positions lie before position `n`.
pub open spec fn uuid_digits_before(n: int) -> nat
    decreases n,
{
    if n <= 0 {
        0
    } else if uuid_hyphen_position(n - 1) {
        uuid_digits_before(n - 1)
    } else {
        uuid_digits_before(n - 1) + 1
    }
}

/// The number spelled by the hex digits among the first `n` characters,
/// most significant digit first; hyphens contribute nothing.
pub open spec fn uuid_prefix_value(s: Seq<char>, n: int) -> int
    decreases n,
{
    if n <= 0 {
        0
    } else if uuid_hyphen_position(n - 1) {
        uuid_prefix_value(s, n - 1)
    } else {
        uuid_prefix_value(s, n - 1) * 16 + hex_digit_value(s[n - 1])
    }
}

/// The 128-bit value that well-formed hyphenated UUID text denotes.
pub open spec fn uuid_text_value(s: Seq<char>) -> int {
    uuid_prefix_value(s, 36)
}

/// Sixteen to the power `n`.
pub open spec fn pow16(n: nat) -> int
    decreases n,
{
    if n == 0 {
        1
    } else {
        16 * pow16((n - 1) as nat)
    }
}

proof fn lemma_pow16_positive(n: nat)
    ensures
        pow16(n) >= 1,
    decreases n,
{
    if n > 0 {
        lemma_pow16_positive((n - 1) as nat);
    }
}

proof fn lemma_pow16_increases(a: nat, b: nat)
    requires
        a <= b,
    ensures
        pow16(a) <= pow16(b),
    decreases b,
{
    if a < b {
        lemma_pow16_increases(a, (b - 1) as nat);
        lemma_pow16_positive((b - 1) as nat);
    }
}

proof fn lemma_pow16_31()
    ensures
        pow16(31) == 0x1000_0000_0000_0000_0000_0000_0000_0000,
{
    assert(pow16(0) == 1);
    assert(pow16(1) == 0x10);
    assert(pow16(2) == 0x100);
    assert(pow16(3) == 0x1000);
    assert(pow16(4) == 0x1_0000);
    assert(pow16(5) == 0x10_0000);
    assert(pow16(6) == 0x100_0000);
    assert(pow16(7) == 0x1000_0000);
    assert(pow16(8) == 0x1_0000_0000);
    assert(pow16(9) == 0x10_0000_0000);
    assert(pow16(10) == 0x100_0000_0000);
    assert(pow16(11) == 0x1000_0000_0000);
    assert(pow16(12) == 0x1_0000_0000_0000);
    assert(pow16(13) == 0x10_0000_0000_0000);
    assert(pow16(14) == 0x100_0000_0000_0000);
    assert(pow16(15) == 0x1000_0000_0000_0000);
    assert(pow16(16) == 0x1_0000_0000_0000_0000);
    assert(pow16(17) == 0x10_0000_0000_0000_0000);
    assert(pow16(18) == 0x100_0000_0000_0000_0000);
    assert(pow16(19) == 0x1000_0000_0000_0000_0000);
    assert(pow16(20) == 0x1_0000_0000_0000_0000_0000);
    assert(pow16(21) == 0x10_0000_0000_0000_0000_0000);
    assert(pow16(22) == 0x100_0000_0000_0000_0000_0000);
    assert(pow16(23) == 0x1000_0000_0000_0000_0000_0000);
    assert(pow16(24) == 0x1_0000_0000_0000_0000_0000_0000);
    assert(pow16(25) == 0x10_0000_0000_0000_0000_0000_0000);
    assert(pow16(26) == 0x100_0000_0000_0000_0000_0000_0000);
    assert(pow16(27) == 0x1000_0000_0000_0000_0000_0000_0000);
    assert(pow16(28) == 0x1_0000_0000_0000_0000_0000_0000_0000);
    assert(pow16(29) == 0x10_0000_0000_0000_0000_0000_0000_0000);
    assert(pow16(30) == 0x100_0000_0000_0000_0000_0000_0000_0000);
    assert(pow16(31) == 0x1000_0000_0000_0000_0000_0000_0000_0000);
}

/// Position `n` has seen `n` characters, four of them hyphens at most.
proof fn lemma_uuid_digits_before_closed(n: int)
    requires
        0 <= n <= 36,
    ensures
        uuid_digits_before(n) == n - (if n > 8 { 1int } else { 0int }) - (if n > 13 { 1int } else { 0int })
            - (if n > 18 { 1int } else { 0int }) - (if n > 23 { 1int } else { 0int }),
    decreases n,
{
    if n > 0 {
        lemma_uuid_digits_before_closed(n - 1);
    }
}

/// The digits seen so far keep the running value under `16^digits`.
proof fn lemma_uuid_prefix_value_bound(s: Seq<char>, n: int)
    requires
        0 <= n,
        forall|i: int| 0 <= i < n && !uuid_hyphen_position(i) ==> is_hex_digit(#[trigger] s[i]),
    ensures
        0 <= uuid_prefix_value(s, n) < pow16(uuid_digits_before(n)),
    decreases n,
{
    if n > 0 {
        lemma_uuid_prefix_value_bound(s, n - 1);
        if !uuid_hyphen_position(n - 1) {
            assert(pow16(uuid_digits_before(n)) == 16 * pow16(uuid_digits_before(n - 1)));
            assert(0 <= hex_digit_value(s[n - 1]) < 16);
        }
    }
}

/// Converts one character of hexadecimal digit text to its value.
fn hex_digit_of(c: char) -> (r: Option<u8>)
    ensures
        r is Some <==> is_hex_digit(c),
        r matches Some(d) ==> d as int == hex_digit_value(c),
{
    let u = c as u32;
    if 48 <= u && u <= 57 {
        Some((u - 48) as u8)
    } else if 97 <= u && u <= 102 {
        Some((u - 97 + 10) as u8)
    } else if 65 <= u && u <= 70 {
        Some((u - 65 + 10) as u8)
    } else {
        None
    }
}

/// Parses hyphenated UUID text into its 128-bit value.
///
/// Accepts exactly the well-formed hyphenated form; every other string,
/// including the simple, braced and URN UUID forms, is rejected.
pub fn parse_uuid_text(s: &str) -> (r: Option<u128>)
    ensures
        r is Some <==> valid_uuid_text(s@),
        r matches Some(v) ==> v as int == uuid_text_value(s@),
{
    let len = s.unicode_len();
    if len != 36 {
        return None;
    }
    let mut acc: u128 = 0;
    let mut i: usize = 0;
    while i < 36
        invariant
            i <= 36,
            s@.len() == 36,
            forall|j: int| 0 <= j < i ==> uuid_char_ok(s@, j),
            acc as int == uuid_prefix_value(s@, i as int),
        decreases 36 - i,
    {
        let c = s.get_char(i);
        if i == 8 || i == 13 || i == 18 || i == 23 {
            if c != '-' {
                proof {
                    assert(!uuid_char_ok(s@, i as int));
                }
                return None;
            }
        } else {
            match hex_digit_of(c) {
                None => {
                    proof {
                        assert(!uuid_char_ok(s@, i as int));
                    }
                    return None;
                },
                Some(d) => {
                    proof {
                        assert forall|j: int| 0 <= j < i && !uuid_hyphen_position(j) implies is_hex_digit(
                            s@[j],
                        ) by {
                            assert(uuid_char_ok(s@, j));
                        }
                        lemma_uuid_prefix_value_bound(s@, i as int);
                        lemma_uuid_digits_before_closed(i as int);
                        lemma_pow16_increases(uuid_digits_before(i as int), 31);
                        lemma_pow16_31();
                    }
                    acc = acc * 16 + (d as u128);
                },
            }
        }
        i = i + 1;
    }
    Some(acc)
}

} // verus!
