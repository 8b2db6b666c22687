//! String helpers that the rest of the crate builds on.

use vstd::prelude::*;
use vstd::string::StringExecFns;
use vstd::string::StringSliceAdditionalSpecFns;
use vstd::utf8::encode_utf8;
use vstd::utf8::encode_utf8_decode_utf8;

verus! {

/// Two character sequences with the same UTF-8 encoding are the same sequence.
pub proof fn lemma_same_bytes_same_chars(a: Seq<char>, b: Seq<char>)
    requires
        encode_utf8(a) == encode_utf8(b),
    ensures
        a == b,
{
    encode_utf8_decode_utf8(a);
    encode_utf8_decode_utf8(b);
}

/// Whether `a` and `b` hold the same characters.
pub fn str_eq(a: &str, b: &str) -> (same: bool)
    ensures
        same == (a@ == b@),
{
    let x = a.as_bytes();
    let y = b.as_bytes();
    if x.len() != y.len() {
        return false;
    }
    let n = x.len();
    let mut i: usize = 0;
    while i < n
        invariant
            n == x@.len(),
            n == y@.len(),
            x@ == a.spec_bytes(),
            y@ == b.spec_bytes(),
            i <= n,
            forall|j: int| 0 <= j < i ==> x@[j] == y@[j],
        decreases n - i,
    {
        if x[i] != y[i] {
            return false;
        }
        i += 1;
    }
    proof {
        assert(x@ =~= y@);
        lemma_same_bytes_same_chars(a@, b@);
    }
    true
}

/// The character sequences of a list of names.
pub open spec fn name_views(names: Seq<String>) -> Seq<Seq<char>> {
    names.map_values(|name: String| name@)
}

/// Whether `needle` occurs in `names`.
pub fn contains_name(names: &Vec<String>, needle: &str) -> (found: bool)
    ensures
        found == name_views(names@).contains(needle@),
{
    let mut i: usize = 0;
    while i < names.len()
        invariant
            i <= names@.len(),
            forall|j: int| 0 <= j < i ==> name_views(names@)[j] != needle@,
        decreases names@.len() - i,
    {
        if str_eq(names[i].as_str(), needle) {
            proof {
                assert(name_views(names@)[i as int] == needle@);
            }
            return true;
        }
        i += 1;
    }
    false
}

/// The lower-case hexadecimal digit for a number below sixteen.
pub open spec fn hex_digit(n: int) -> char {
    if n == 0 {
        '0'
    } else if n == 1 {
        '1'
    } else if n == 2 {
        '2'
    } else if n == 3 {
        '3'
    } else if n == 4 {
        '4'
    } else if n == 5 {
        '5'
    } else if n == 6 {
        '6'
    } else if n == 7 {
        '7'
    } else if n == 8 {
        '8'
    } else if n == 9 {
        '9'
    } else if n == 10 {
        'a'
    } else if n == 11 {
        'b'
    } else if n == 12 {
        'c'
    } else if n == 13 {
        'd'
    } else if n == 14 {
        'e'
    } else {
        'f'
    }
}

/// How many hyphens stand before the position `at` of a hyphenated id.
pub open spec fn hyphens_before(at: int) -> int {
    if at > 23 {
        4
    } else if at > 18 {
        3
    } else if at > 13 {
        2
    } else if at > 8 {
        1
    } else {
        0
    }
}

/// The character at the position `at` of the hyphenated text of `id`: a
/// hyphen after the 8th, 12th, 16th and 20th digit, else the digit, the most
/// significant first.
pub open spec fn hyphenated_char(id: u128, at: int) -> char {
    if at == 8 || at == 13 || at == 18 || at == 23 {
        '-'
    } else {
        let digit = at - hyphens_before(at);
        hex_digit(((id >> ((4 * (31 - digit)) as u128)) & 0xf) as int)
    }
}

/// The hyphenated text of a 128-bit id: its 32 lower-case hexadecimal
/// digits in groups of 8, 4, 4, 4 and 12.
pub open spec fn hyphenated_text(id: u128) -> Seq<char> {
    Seq::new(36, |at: int| hyphenated_char(id, at))
}

/// The lower-case hexadecimal digit for a number below sixteen, as a text.
fn hex_digit_str(n: u128) -> (digit: &'static str)
    requires
        n < 16,
    ensures
        digit@ == seq![hex_digit(n as int)],
{
    proof {
        reveal_strlit("0");
        reveal_strlit("1");
        reveal_strlit("2");
        reveal_strlit("3");
        reveal_strlit("4");
        reveal_strlit("5");
        reveal_strlit("6");
        reveal_strlit("7");
        reveal_strlit("8");
        reveal_strlit("9");
        reveal_strlit("a");
        reveal_strlit("b");
        reveal_strlit("c");
        reveal_strlit("d");
        reveal_strlit("e");
        reveal_strlit("f");
    }
    let digit = if n == 0 {
        "0"
    } else if n == 1 {
        "1"
    } else if n == 2 {
        "2"
    } else if n == 3 {
        "3"
    } else if n == 4 {
        "4"
    } else if n == 5 {
        "5"
    } else if n == 6 {
        "6"
    } else if n == 7 {
        "7"
    } else if n == 8 {
        "8"
    } else if n == 9 {
        "9"
    } else if n == 10 {
        "a"
    } else if n == 11 {
        "b"
    } else if n == 12 {
        "c"
    } else if n == 13 {
        "d"
    } else if n == 14 {
        "e"
    } else {
        "f"
    };
    assert(digit@ =~= seq![hex_digit(n as int)]);
    digit
}

/// The hyphenated text of a 128-bit id, such as
/// `67e55044-10b1-426f-9247-bb680e5fe0c8`.
pub fn hyphenated(id: u128) -> (text: String)
    ensures
        text@ == hyphenated_text(id),
{
    let mut text = String::new();
    let mut at: u128 = 0;
    let mut digit: u128 = 0;
    while at < 36
        invariant
            at <= 36,
            digit == at - hyphens_before(at as int),
            text@ == Seq::new(at as nat, |i: int| hyphenated_char(id, i)),
        decreases 36 - at,
    {
        let ghost before = text@;
        if at == 8 || at == 13 || at == 18 || at == 23 {
            proof {
                reveal_strlit("-");
            }
            text.append("-");
            assert(text@ =~= Seq::new((at + 1) as nat, |i: int| hyphenated_char(id, i)));
        } else {
            let shift: u128 = 4 * (31 - digit);
            let nibble: u128 = (id >> shift) & 0xf;
            assert(nibble < 16) by (bit_vector)
                requires
                    nibble == (id >> shift) & 0xf,
            ;
            text.append(hex_digit_str(nibble));
            assert(text@ =~= Seq::new((at + 1) as nat, |i: int| hyphenated_char(id, i)));
            digit += 1;
        }
        at += 1;
    }
    text
}

} // verus!
