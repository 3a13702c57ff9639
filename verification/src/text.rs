//! Comparison and formatting of text, stated over sequences of characters.

use vstd::prelude::*;
use vstd::utf8::*;

verus! {

/// Two character sequences with the same UTF-8 encoding are the same sequence.
pub proof fn lemma_utf8_injective(a: Seq<char>, b: Seq<char>)
    requires
        encode_utf8(a) == encode_utf8(b),
    ensures
        a == b,
{
    encode_utf8_decode_utf8(a);
    encode_utf8_decode_utf8(b);
}

/// Compares two byte strings without leaving early on the first difference:
/// every position is visited whenever the lengths agree.
pub fn bytes_equal(a: &[u8], b: &[u8]) -> (same: bool)
    ensures
        same == (a@ == b@),
{
    if a.len() != b.len() {
        return false;
    }
    let mut diff: u8 = 0;
    let mut i: usize = 0;
    assert(a@.subrange(0, 0) =~= b@.subrange(0, 0));
    while i < a.len()
        invariant
            i <= a.len(),
            a.len() == b.len(),
            (diff == 0) == (a@.subrange(0, i as int) == b@.subrange(0, i as int)),
        decreases a.len() - i,
    {
        let x: u8 = a[i];
        let y: u8 = b[i];
        let d: u8 = x ^ y;
        proof {
            assert((d == 0) == (x == y)) by (bit_vector)
                requires
                    d == x ^ y,
            ;
            assert((diff | d == 0) == (diff == 0 && d == 0)) by (bit_vector);
            let pa = a@.subrange(0, i as int);
            let pb = b@.subrange(0, i as int);
            let na = a@.subrange(0, i + 1);
            let nb = b@.subrange(0, i + 1);
            assert(na =~= pa.push(x));
            assert(nb =~= pb.push(y));
            if na == nb {
                assert(na[i as int] == nb[i as int]);
                assert(pa =~= na.subrange(0, i as int));
                assert(pb =~= nb.subrange(0, i as int));
            }
        }
        diff = diff | d;
        i = i + 1;
    }
    proof {
        assert(a@.subrange(0, a.len() as int) =~= a@);
        assert(b@.subrange(0, b.len() as int) =~= b@);
    }
    diff == 0
}

/// Equality of two strings, decided over their bytes.
pub fn str_equal(a: &str, b: &str) -> (same: bool)
    ensures
        same == (a@ == b@),
{
    let same = bytes_equal(a.as_bytes(), b.as_bytes());
    proof {
        if same {
            lemma_utf8_injective(a@, b@);
        }
    }
    same
}

/// The character that stands for a digit below ten.
pub open spec fn digit_char(d: nat) -> char {
    if d == 0 {
        '0'
    } else if d == 1 {
        '1'
    } else if d == 2 {
        '2'
    } else if d == 3 {
        '3'
    } else if d == 4 {
        '4'
    } else if d == 5 {
        '5'
    } else if d == 6 {
        '6'
    } else if d == 7 {
        '7'
    } else if d == 8 {
        '8'
    } else {
        '9'
    }
}

/// The decimal digits of a natural number, most significant first, without
/// leading zeros.
pub open spec fn decimal(n: nat) -> Seq<char>
    decreases n,
{
    if n < 10 {
        seq![digit_char(n)]
    } else {
        decimal(n / 10).push(digit_char(n % 10))
    }
}

/// The decimal form of an integer, with a minus sign before a negative one.
pub open spec fn signed_decimal(i: int) -> Seq<char> {
    if i < 0 {
        seq!['-'] + decimal((-i) as nat)
    } else {
        decimal(i as nat)
    }
}

fn digit_text(d: u64) -> (t: &'static str)
    requires
        d < 10,
    ensures
        t@ == seq![digit_char(d as nat)],
{
    proof {
        reveal_strlit("0");
        reveal_strlit("1");
        reveal_strlit("2");
        reveal_strlit("3");
        reveal_strlit("4");
        reveal_strlit("5");
        reveal_strlit("6");
        reveal_strlit("7");
        reveal_strlit("8");
        reveal_strlit("9");
    }
    let t = if d == 0 {
        "0"
    } else if d == 1 {
        "1"
    } else if d == 2 {
        "2"
    } else if d == 3 {
        "3"
    } else if d == 4 {
        "4"
    } else if d == 5 {
        "5"
    } else if d == 6 {
        "6"
    } else if d == 7 {
        "7"
    } else if d == 8 {
        "8"
    } else {
        "9"
    };
    assert(t@ =~= seq![digit_char(d as nat)]);
    t
}

/// Writes a number in decimal.
pub fn decimal_text(n: u64) -> (t: String)
    ensures
        t@ == decimal(n as nat),
    decreases n,
{
    if n < 10 {
        String::from_str(digit_text(n))
    } else {
        let mut t = decimal_text(n / 10);
        t.append(digit_text(n % 10));
        assert(t@ =~= decimal(n as nat));
        t
    }
}

/// Writes a signed number in decimal.
pub fn signed_decimal_text(i: i64) -> (t: String)
    ensures
        t@ == signed_decimal(i as int),
{
    if i < 0 {
        let magnitude: u64 = if i == i64::MIN {
            9223372036854775808u64
        } else {
            (-i) as u64
        };
        proof {
            reveal_strlit("-");
        }
        let mut t = String::from_str("-");
        let digits = decimal_text(magnitude);
        t.append(digits.as_str());
        assert(t@ =~= signed_decimal(i as int));
        t
    } else {
        decimal_text(i as u64)
    }
}

/// The concatenation of two texts.
pub fn joined(a: &str, b: &str) -> (t: String)
    ensures
        t@ == a@ + b@,
{
    let mut t = String::from_str(a);
    t.append(b);
    t
}

/// The characters of an optional text.
pub open spec fn opt_text(o: Option<String>) -> Option<Seq<char>> {
    match o {
        Some(s) => Some(s@),
        None => None,
    }
}

/// The characters of a text that may be absent, or present and empty of value.
pub open spec fn opt_opt_text(o: Option<Option<String>>) -> Option<Option<Seq<char>>> {
    match o {
        Some(inner) => Some(opt_text(inner)),
        None => None,
    }
}

/// The character sequences of a list of texts, in order.
pub open spec fn texts(v: Seq<String>) -> Seq<Seq<char>> {
    v.map_values(|s: String| s@)
}

/// A copy of an optional text.
pub fn clone_opt_text(o: &Option<String>) -> (copy: Option<String>)
    ensures
        copy == *o,
{
    match o {
        Some(s) => Some(s.clone()),
        None => None,
    }
}

/// A copy of a text that may be absent, or present and empty of value.
pub fn clone_opt_opt_text(o: &Option<Option<String>>) -> (copy: Option<Option<String>>)
    ensures
        copy == *o,
{
    match o {
        Some(inner) => Some(clone_opt_text(inner)),
        None => None,
    }
}

/// Equality of two optional texts.
pub fn opt_text_equal(a: &Option<String>, b: &Option<String>) -> (same: bool)
    ensures
        same == (opt_text(*a) == opt_text(*b)),
{
    match (a, b) {
        (Some(x), Some(y)) => str_equal(x.as_str(), y.as_str()),
        (None, None) => true,
        _ => false,
    }
}

/// Equality of two lists of texts.
pub fn texts_equal(a: &Vec<String>, b: &Vec<String>) -> (same: bool)
    ensures
        same == (texts(a@) == texts(b@)),
{
    if a.len() != b.len() {
        assert(texts(a@).len() != texts(b@).len());
        return false;
    }
    let mut i: usize = 0;
    while i < a.len()
        invariant
            i <= a.len(),
            a.len() == b.len(),
            forall|j: int| 0 <= j < i ==> a@[j]@ == b@[j]@,
        decreases a.len() - i,
    {
        if !str_equal(a[i].as_str(), b[i].as_str()) {
            assert(texts(a@)[i as int] != texts(b@)[i as int]);
            return false;
        }
        i = i + 1;
    }
    assert(texts(a@) =~= texts(b@));
    true
}

/// A copy of a list of texts.
pub fn clone_texts(v: &Vec<String>) -> (copy: Vec<String>)
    ensures
        copy@ == v@,
{
    let mut copy: Vec<String> = Vec::new();
    let mut i: usize = 0;
    while i < v.len()
        invariant
            i <= v.len(),
            copy@ == v@.subrange(0, i as int),
        decreases v.len() - i,
    {
        copy.push(v[i].clone());
        assert(copy@ =~= v@.subrange(0, i + 1));
        i = i + 1;
    }
    assert(v@.subrange(0, v.len() as int) =~= v@);
    copy
}

} // verus!
