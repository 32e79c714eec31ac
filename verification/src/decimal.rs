//! Decimal text for BPM numbers: rendering an `i64` the way the comment
//! format writes it, and parsing decimal strings back, with the exact
//! range behaviour of `str::parse::<i64>`.
use vstd::prelude::*;

verus! {

/// The digit character for a value below ten.
pub open spec fn spec_digit_char(d: nat) -> char {
    if d == 0 {
        '0'
    } else if d == 1 {
        '1'
    } else if d == 2 {
        '2'
    } else if d == 3 {
        '3'
    } else if d == 4 {
        '4'
    } else if d == 5 {
        '5'
    } else if d == 6 {
        '6'
    } else if d == 7 {
        '7'
    } else if d == 8 {
        '8'
    } else {
        '9'
    }
}

/// The value of a digit character, or ten for any non-digit.
pub open spec fn spec_digit_val(c: char) -> nat {
    if c == '0' {
        0
    } else if c == '1' {
        1
    } else if c == '2' {
        2
    } else if c == '3' {
        3
    } else if c == '4' {
        4
    } else if c == '5' {
        5
    } else if c == '6' {
        6
    } else if c == '7' {
        7
    } else if c == '8' {
        8
    } else if c == '9' {
        9
    } else {
        10
    }
}

/// Whether a character is an ASCII decimal digit.
pub open spec fn spec_is_digit(c: char) -> bool {
    spec_digit_val(c) < 10
}

/// The decimal rendering of a natural number, without sign.
pub open spec fn spec_udec(n: nat) -> Seq<char>
    decreases n,
{
    if n < 10 {
        seq![spec_digit_char(n)]
    } else {
        spec_udec(n / 10).push(spec_digit_char(n % 10))
    }
}

/// The decimal rendering of an integer, with a leading minus when negative.
pub open spec fn spec_idec(i: int) -> Seq<char> {
    if i < 0 {
        seq!['-'] + spec_udec((-i) as nat)
    } else {
        spec_udec(i as nat)
    }
}

/// The value of a sequence of digit characters.
pub open spec fn spec_digits_val(s: Seq<char>) -> nat
    decreases s.len(),
{
    if s.len() == 0 {
        0
    } else {
        spec_digits_val(s.drop_last()) * 10 + spec_digit_val(s.last())
    }
}

/// Whether every character of the sequence is a decimal digit.
pub open spec fn spec_all_digits(s: Seq<char>) -> bool {
    forall|i: int| 0 <= i < s.len() ==> spec_is_digit(#[trigger] s[i])
}

/// Whether a sequence has the shape `str::parse::<i64>` accepts:
/// an optional sign followed by one or more digits.
pub open spec fn spec_is_int_string(s: Seq<char>) -> bool {
    if s.len() == 0 {
        false
    } else if s[0] == '+' || s[0] == '-' {
        s.len() > 1 && spec_all_digits(s.skip(1))
    } else {
        spec_all_digits(s)
    }
}

/// The signed value of a sequence of the shape above.
pub open spec fn spec_int_val(s: Seq<char>) -> int {
    if s.len() > 0 && s[0] == '-' {
        -(spec_digits_val(s.skip(1)) as int)
    } else if s.len() > 0 && s[0] == '+' {
        spec_digits_val(s.skip(1)) as int
    } else {
        spec_digits_val(s) as int
    }
}

/// What `str::parse::<i64>` returns: the value when the text has the right
/// shape and the value fits, nothing otherwise.
pub open spec fn spec_parse_i64(s: Seq<char>) -> Option<i64> {
    if spec_is_int_string(s) && i64::MIN <= spec_int_val(s) <= i64::MAX {
        Some(spec_int_val(s) as i64)
    } else {
        None
    }
}

/// A one-character string for a digit value.
fn digit_str(d: u64) -> (r: &'static str)
    requires
        d < 10,
    ensures
        r@ =~= seq![spec_digit_char(d as nat)],
{
    proof {
        reveal_strlit("0");
        reveal_strlit("1");
        reveal_strlit("2");
        reveal_strlit("3");
        reveal_strlit("4");
        reveal_strlit("5");
        reveal_strlit("6");
        reveal_strlit("7");
        reveal_strlit("8");
        reveal_strlit("9");
    }
    match d {
        0 => "0",
        1 => "1",
        2 => "2",
        3 => "3",
        4 => "4",
        5 => "5",
        6 => "6",
        7 => "7",
        8 => "8",
        _ => "9",
    }
}

/// Render an unsigned number in decimal.
pub fn u64_to_string(n: u64) -> (r: String)
    ensures
        r@ == spec_udec(n as nat),
    decreases n,
{
    if n < 10 {
        String::from_str(digit_str(n))
    } else {
        let mut s = u64_to_string(n / 10);
        s.append(digit_str(n % 10));
        proof {
            assert(s@ =~= spec_udec(n as nat));
        }
        s
    }
}

/// Render a signed number in decimal, as `{}` formatting does.
pub fn i64_to_string(i: i64) -> (r: String)
    ensures
        r@ == spec_idec(i as int),
{
    if i >= 0 {
        u64_to_string(i as u64)
    } else {
        let m: u64 = if i == i64::MIN {
            9223372036854775808u64
        } else {
            (-i) as u64
        };
        assert(m as nat == (-(i as int)) as nat);
        let mut s = String::from_str("-");
        let tail = u64_to_string(m);
        s.append(tail.as_str());
        proof {
            reveal_strlit("-");
            assert(s@ =~= spec_idec(i as int));
        }
        s
    }
}

/// The value of a digit character, checked at run time.
fn digit_val(c: char) -> (r: u64)
    ensures
        r == spec_digit_val(c),
        r <= 10,
{
    match c {
        '0' => 0,
        '1' => 1,
        '2' => 2,
        '3' => 3,
        '4' => 4,
        '5' => 5,
        '6' => 6,
        '7' => 7,
        '8' => 8,
        '9' => 9,
        _ => 10,
    }
}

/// Appending one more digit multiplies the value by ten and adds the digit.
proof fn lemma_digits_val_snoc(s: Seq<char>, i: int)
    requires
        0 <= i < s.len(),
    ensures
        spec_digits_val(s.take(i + 1)) == spec_digits_val(s.take(i)) * 10 + spec_digit_val(s[i]),
{
    assert(s.take(i + 1).drop_last() =~= s.take(i));
    assert(s.take(i + 1).last() == s[i]);
}

/// Reading further digits never decreases the value.
proof fn lemma_digits_val_grows(s: Seq<char>, i: int, j: int)
    requires
        0 <= i <= j <= s.len(),
    ensures
        spec_digits_val(s.take(i)) <= spec_digits_val(s.take(j)),
    decreases j - i,
{
    if i < j {
        lemma_digits_val_grows(s, i, j - 1);
        lemma_digits_val_snoc(s, j - 1);
    }
}

/// The value of a whole sequence is the value of its full-length prefix.
proof fn lemma_digits_val_take_all(s: Seq<char>)
    ensures
        spec_digits_val(s.take(s.len() as int)) == spec_digits_val(s),
{
    assert(s.take(s.len() as int) =~= s);
}

/// Parse the digit run `v[start..end]`, with an optional leading sign,
/// exactly as `str::parse::<i64>` would parse that text.
#[verifier::loop_isolation(false)]
pub fn parse_i64_range(v: &Vec<char>, start: usize, end: usize) -> (r: Option<i64>)
    requires
        start <= end <= v@.len(),
    ensures
        r == spec_parse_i64(v@.subrange(start as int, end as int)),
{
    let ghost s = v@.subrange(start as int, end as int);
    if start == end {
        return None;
    }
    let first = v[start];
    let neg = first == '-';
    let body_start: usize = if first == '-' || first == '+' {
        start + 1
    } else {
        start
    };
    let ghost body = v@.subrange(body_start as int, end as int);
    proof {
        if first == '-' || first == '+' {
            assert(body =~= s.skip(1));
        } else {
            assert(body =~= s);
        }
    }
    if body_start == end {
        // a bare sign has no digits
        return None;
    }
    // the largest magnitude that can still matter: |i64::MIN| = 2^63
    let bound: u64 = 9223372036854775808u64;
    let mut acc: u64 = 0;
    let mut i: usize = body_start;
    while i < end
        invariant
            body_start <= i <= end <= v@.len(),
            body == v@.subrange(body_start as int, end as int),
            spec_all_digits(body.take(i - body_start)),
            acc == spec_digits_val(body.take(i - body_start)),
            acc <= 9223372036854775808u64,
        decreases end - i,
    {
        let d = digit_val(v[i]);
        if d >= 10 {
            proof {
                assert(s.len() == end - start);
                assert(s[0] == v@[start as int]);
                assert(body[i - body_start] == v@[i as int]);
                assert(!spec_is_digit(body[i - body_start]));
                assert(!spec_all_digits(body));
                assert(!spec_is_int_string(s));
            }
            return None;
        }
        proof {
            lemma_digits_val_snoc(body, i - body_start);
        }
        if acc > 922337203685477580u64 || (acc == 922337203685477580u64 && d > 8) {
            // any further digits keep the value above every i64
            proof {
                assert(spec_digits_val(body.take(i - body_start + 1)) == acc * 10 + d);
                assert(spec_digits_val(body.take(i - body_start + 1)) > 9223372036854775808u64);
                lemma_digits_val_grows(body, i - body_start + 1, body.len() as int);
                lemma_digits_val_take_all(body);
                assert(spec_digits_val(body) > 9223372036854775808u64);
                if spec_is_int_string(s) {
                    assert(!(i64::MIN <= spec_int_val(s) <= i64::MAX));
                }
            }
            return None;
        }
        acc = acc * 10 + d;
        i += 1;
    }
    proof {
        lemma_digits_val_take_all(body);
        assert(body.take(end - body_start) =~= body);
        assert(spec_all_digits(body));
        assert(spec_is_int_string(s));
    }
    if neg {
        proof {
            assert(spec_int_val(s) == -(acc as int));
        }
        if acc == bound {
            Some(i64::MIN)
        } else {
            Some(-(acc as i64))
        }
    } else {
        proof {
            assert(spec_int_val(s) == acc as int);
        }
        if acc > 9223372036854775807u64 {
            // positive values stop one short of the negative bound
            None
        } else {
            Some(acc as i64)
        }
    }
}

/// Parse a whole string as `str::parse::<i64>` does.
pub fn parse_i64_str(st: &str) -> (r: Option<i64>)
    ensures
        r == spec_parse_i64(st@),
{
    let v = crate::types::chars_of(st);
    let n = v.len();
    let r = parse_i64_range(&v, 0, n);
    proof {
        assert(v@.subrange(0, v@.len() as int) =~= st@);
    }
    r
}

} // verus!
