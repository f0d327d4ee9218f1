//! Character-level helpers shared by the parsing and formatting code:
//! whitespace tokenization, decimal digits, and string building.

use vstd::prelude::*;

verus! {

/// ASCII whitespace, the separator set used for header tokenization.
pub open spec fn is_space_char(c: char) -> bool {
    c == ' ' || c == '\t' || c == '\n' || c == '\r' || c == '\u{b}' || c == '\u{c}'
}

/// Tokenization state: the tokens found so far are implicit in the caller;
/// `cur` is the token being accumulated when scanning `s` from position `i`.
pub open spec fn ws_tokens_from(s: Seq<char>, i: int, cur: Seq<char>) -> Seq<Seq<char>>
    decreases s.len() - i,
{
    if i < 0 || i >= s.len() {
        if cur.len() > 0 {
            seq![cur]
        } else {
            Seq::empty()
        }
    } else if is_space_char(s[i]) {
        if cur.len() > 0 {
            seq![cur] + ws_tokens_from(s, i + 1, Seq::empty())
        } else {
            ws_tokens_from(s, i + 1, Seq::empty())
        }
    } else {
        ws_tokens_from(s, i + 1, cur.push(s[i]))
    }
}

/// The whitespace-separated tokens of `s`, in order.
pub open spec fn ws_tokens(s: Seq<char>) -> Seq<Seq<char>> {
    ws_tokens_from(s, 0, Seq::empty())
}

/// Splits `s` into its whitespace-separated tokens.
pub fn ws_token_list(s: &str) -> (r: Vec<String>)
    ensures
        r.deep_view() == ws_tokens(s@),
{
    let n = s.unicode_len();
    let mut r: Vec<String> = Vec::new();
    let mut start: Option<usize> = None;
    let mut i: usize = 0;
    while i < n
        invariant
            0 <= i <= n == s@.len(),
            match start {
                None => ws_tokens(s@) == r.deep_view() + ws_tokens_from(
                    s@,
                    i as int,
                    Seq::empty(),
                ),
                Some(st) => st < i && ws_tokens(s@) == r.deep_view() + ws_tokens_from(
                    s@,
                    i as int,
                    s@.subrange(st as int, i as int),
                ),
            },
        decreases n - i,
    {
        let c = s.get_char(i);
        let space = c == ' ' || c == '\t' || c == '\n' || c == '\r' || c == '\u{b}' || c
            == '\u{c}';
        match start {
            None => {
                if !space {
                    proof {
                        assert(Seq::<char>::empty().push(s@[i as int]) =~= s@.subrange(
                            i as int,
                            i as int + 1,
                        ));
                    }
                    start = Some(i);
                }
            },
            Some(st) => {
                if space {
                    let token = String::from_str(s.substring_char(st, i));
                    let ghost old_r = r.deep_view();
                    r.push(token);
                    proof {
                        assert(r.deep_view() =~= old_r + seq![token@]);
                        assert(old_r + (seq![token@] + ws_tokens_from(
                            s@,
                            i as int + 1,
                            Seq::empty(),
                        )) =~= r.deep_view() + ws_tokens_from(s@, i as int + 1, Seq::empty()));
                    }
                    start = None;
                } else {
                    proof {
                        assert(s@.subrange(st as int, i as int).push(s@[i as int]) =~= s@.subrange(
                            st as int,
                            i as int + 1,
                        ));
                    }
                }
            },
        }
        i = i + 1;
    }
    match start {
        None => {},
        Some(st) => {
            let token = String::from_str(s.substring_char(st, n));
            let ghost old_r = r.deep_view();
            r.push(token);
            proof {
                assert(r.deep_view() =~= old_r + seq![token@]);
            }
        },
    }
    r
}

/// Character-for-character string equality.
pub fn eq_str(a: &str, b: &str) -> (r: bool)
    ensures
        r == (a@ == b@),
{
    let na = a.unicode_len();
    let nb = b.unicode_len();
    if na != nb {
        return false;
    }
    let mut i: usize = 0;
    while i < na
        invariant
            0 <= i <= na == a@.len() == b@.len(),
            forall|j: int| 0 <= j < i ==> a@[j] == b@[j],
        decreases na - i,
    {
        if a.get_char(i) != b.get_char(i) {
            return false;
        }
        i = i + 1;
    }
    proof {
        assert(a@ =~= b@);
    }
    true
}

/// The decimal digit characters.
pub open spec fn is_digit_char(c: char) -> bool {
    '0' as u32 <= c as u32 && c as u32 <= '9' as u32
}

/// The numeric value of a digit character; zero on anything else.
pub open spec fn digit_val(c: char) -> nat {
    if is_digit_char(c) {
        (c as u32 - '0' as u32) as nat
    } else {
        0
    }
}

/// Whether every character of `s` is a decimal digit.
pub open spec fn all_digits(s: Seq<char>) -> bool {
    forall|i: int| 0 <= i < s.len() ==> #[trigger] is_digit_char(s[i])
}

/// The numeric value of a digit string, most significant digit first.
pub open spec fn digits_value(s: Seq<char>) -> nat
    decreases s.len(),
{
    if s.len() == 0 {
        0
    } else {
        digits_value(s.drop_last()) * 10 + digit_val(s.last())
    }
}

/// Reading one more digit multiplies the prefix value by ten and adds it.
proof fn lemma_digits_value_extend(s: Seq<char>, i: int)
    requires
        0 <= i < s.len(),
    ensures
        digits_value(s.subrange(0, i + 1)) == digits_value(s.subrange(0, i)) * 10 + digit_val(
            s[i],
        ),
{
    assert(s.subrange(0, i + 1).drop_last() =~= s.subrange(0, i));
    assert(s.subrange(0, i + 1).last() == s[i]);
}

/// The value of a digit string is at least the value of any of its prefixes.
proof fn lemma_digits_value_prefix_le(s: Seq<char>, i: int)
    requires
        0 <= i <= s.len(),
    ensures
        digits_value(s.subrange(0, i)) <= digits_value(s),
    decreases s.len() - i,
{
    if i == s.len() {
        assert(s.subrange(0, i) =~= s);
    } else {
        lemma_digits_value_extend(s, i);
        lemma_digits_value_prefix_le(s, i + 1);
    }
}

/// Parses a string of decimal digits as a `u16`. Returns the value exactly
/// when the string is non-empty, all digits, and the value fits.
pub fn parse_u16(s: &str) -> (r: Option<u16>)
    ensures
        r is Some <==> s@.len() > 0 && all_digits(s@) && digits_value(s@) <= u16::MAX,
        r is Some ==> r->Some_0 as nat == digits_value(s@),
{
    let n = s.unicode_len();
    if n == 0 {
        return None;
    }
    let mut v: u32 = 0;
    let mut i: usize = 0;
    while i < n
        invariant
            0 <= i <= n == s@.len(),
            all_digits(s@.subrange(0, i as int)),
            v as nat == digits_value(s@.subrange(0, i as int)),
            v <= u16::MAX,
        decreases n - i,
    {
        let c = s.get_char(i);
        let u = c as u32;
        if u < '0' as u32 || u > '9' as u32 {
            assert(!is_digit_char(s@[i as int]));
            return None;
        }
        let d = u - '0' as u32;
        proof {
            lemma_digits_value_extend(s@, i as int);
        }
        let next = v * 10 + d;
        if next > u16::MAX as u32 {
            proof {
                lemma_digits_value_prefix_le(s@, i as int + 1);
            }
            return None;
        }
        proof {
            assert(all_digits(s@.subrange(0, i as int + 1))) by {
                assert(forall|j: int|
                    0 <= j < i as int + 1 ==> s@.subrange(0, i as int + 1)[j] == s@.subrange(
                        0,
                        i as int,
                    ).push(s@[i as int])[j]);
                assert(s@.subrange(0, i as int + 1) =~= s@.subrange(0, i as int).push(
                    s@[i as int],
                ));
            }
        }
        v = next;
        i = i + 1;
    }
    proof {
        assert(s@.subrange(0, n as int) =~= s@);
    }
    Some(v as u16)
}

/// Powers of ten.
pub open spec fn pow10(n: nat) -> nat
    decreases n,
{
    if n == 0 {
        1
    } else {
        10 * pow10((n - 1) as nat)
    }
}

/// A digit string's value is bounded by the power of ten of its length.
pub proof fn lemma_digits_value_bound(s: Seq<char>)
    ensures
        digits_value(s) < pow10(s.len()),
    decreases s.len(),
{
    if s.len() > 0 {
        lemma_digits_value_bound(s.drop_last());
        assert(digit_val(s.last()) <= 9);
    }
}

/// Powers of ten are monotonic.
proof fn lemma_pow10_le(a: nat, b: nat)
    requires
        a <= b,
    ensures
        pow10(a) <= pow10(b),
    decreases b,
{
    if a < b {
        lemma_pow10_le(a, (b - 1) as nat);
    }
}

/// Parses the digits of `s` between positions `from` and `to` as a number.
/// The range is at most nine digits, so the value fits comfortably.
pub fn parse_digits_range(s: &str, from: usize, to: usize) -> (r: Option<u32>)
    requires
        from <= to <= s@.len(),
        to - from <= 9,
    ensures
        r is Some <==> (from < to && all_digits(s@.subrange(from as int, to as int))),
        r matches Some(v) ==> v as nat == digits_value(s@.subrange(from as int, to as int)),
{
    if from == to {
        return None;
    }
    let ghost whole = s@.subrange(from as int, to as int);
    proof {
        assert(pow10(0) == 1);
        assert(pow10(1) == 10);
        assert(pow10(2) == 100);
        assert(pow10(3) == 1000);
        assert(pow10(4) == 10000);
        assert(pow10(5) == 100000);
        assert(pow10(6) == 1000000);
        assert(pow10(7) == 10000000);
        assert(pow10(8) == 100000000);
    }
    let mut v: u32 = 0;
    let mut i: usize = from;
    while i < to
        invariant
            from <= i <= to <= s@.len(),
            to - from <= 9,
            whole == s@.subrange(from as int, to as int),
            all_digits(whole.subrange(0, i - from)),
            v as nat == digits_value(whole.subrange(0, i - from)),
            (v as nat) < pow10((i - from) as nat),
            pow10(8) == 100000000,
        decreases to - i,
    {
        let c = s.get_char(i);
        let u = c as u32;
        if u < '0' as u32 || u > '9' as u32 {
            assert(!is_digit_char(whole[i - from as int]));
            return None;
        }
        let d = u - '0' as u32;
        proof {
            lemma_pow10_le((i - from) as nat, 8);
            lemma_digits_value_extend(whole, i - from as int);
            assert(whole.subrange(0, i - from as int + 1) =~= whole.subrange(
                0,
                i - from as int,
            ).push(whole[i - from as int]));
        }
        v = v * 10 + d;
        i = i + 1;
    }
    proof {
        assert(whole.subrange(0, (to - from) as int) =~= whole);
    }
    Some(v)
}

/// A digit as a character.
pub open spec fn digit_char(d: nat) -> char {
    if d == 0 {
        '0'
    } else if d == 1 {
        '1'
    } else if d == 2 {
        '2'
    } else if d == 3 {
        '3'
    } else if d == 4 {
        '4'
    } else if d == 5 {
        '5'
    } else if d == 6 {
        '6'
    } else if d == 7 {
        '7'
    } else if d == 8 {
        '8'
    } else {
        '9'
    }
}

/// A value below sixteen as a lower-case hexadecimal character.
pub open spec fn hex_char(d: nat) -> char {
    if d < 10 {
        digit_char(d)
    } else if d == 10 {
        'a'
    } else if d == 11 {
        'b'
    } else if d == 12 {
        'c'
    } else if d == 13 {
        'd'
    } else if d == 14 {
        'e'
    } else {
        'f'
    }
}

/// Appends the character for a single decimal digit.
pub fn append_digit(s: &mut String, d: u8)
    requires
        d < 10,
    ensures
        final(s)@ == old(s)@ + seq![digit_char(d as nat)],
{
    let piece: &str = match d {
        0 => "0",
        1 => "1",
        2 => "2",
        3 => "3",
        4 => "4",
        5 => "5",
        6 => "6",
        7 => "7",
        8 => "8",
        _ => "9",
    };
    proof {
        reveal_strlit("0");
        reveal_strlit("1");
        reveal_strlit("2");
        reveal_strlit("3");
        reveal_strlit("4");
        reveal_strlit("5");
        reveal_strlit("6");
        reveal_strlit("7");
        reveal_strlit("8");
        reveal_strlit("9");
        assert(piece@ =~= seq![digit_char(d as nat)]);
    }
    s.append(piece);
}

/// Appends the character for a value below sixteen in lower-case hex.
pub fn append_hex_char(s: &mut String, d: u8)
    requires
        d < 16,
    ensures
        final(s)@ == old(s)@ + seq![hex_char(d as nat)],
{
    if d < 10 {
        append_digit(s, d);
    } else {
        let piece: &str = match d {
            10 => "a",
            11 => "b",
            12 => "c",
            13 => "d",
            14 => "e",
            _ => "f",
        };
        proof {
            reveal_strlit("a");
            reveal_strlit("b");
            reveal_strlit("c");
            reveal_strlit("d");
            reveal_strlit("e");
            reveal_strlit("f");
            assert(piece@ =~= seq![hex_char(d as nat)]);
        }
        s.append(piece);
    }
}

} // verus!
