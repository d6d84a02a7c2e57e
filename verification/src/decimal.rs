//! Decimal rendering of integers, shared by the date formatting, the
//! wire-frame building and the status-frame parser.

use vstd::prelude::*;

verus! {

/// Whether a character is a decimal digit.
pub open spec fn is_digit_char(c: char) -> bool {
    c == '0' || c == '1' || c == '2' || c == '3' || c == '4' || c == '5' || c == '6' || c == '7'
        || c == '8' || c == '9'
}

/// The numeric value of a decimal digit character.
pub open spec fn digit_val(c: char) -> nat {
    if c == '0' {
        0
    } else if c == '1' {
        1
    } else if c == '2' {
        2
    } else if c == '3' {
        3
    } else if c == '4' {
        4
    } else if c == '5' {
        5
    } else if c == '6' {
        6
    } else if c == '7' {
        7
    } else if c == '8' {
        8
    } else {
        9
    }
}

/// The digit character for a value below ten.
pub open spec fn digit_char(d: nat) -> char {
    if d == 0 {
        '0'
    } else if d == 1 {
        '1'
    } else if d == 2 {
        '2'
    } else if d == 3 {
        '3'
    } else if d == 4 {
        '4'
    } else if d == 5 {
        '5'
    } else if d == 6 {
        '6'
    } else if d == 7 {
        '7'
    } else if d == 8 {
        '8'
    } else {
        '9'
    }
}

/// The canonical decimal rendering of a natural number: no sign, no
/// leading zero except for the single digit of zero itself.
pub open spec fn dec_digits(n: nat) -> Seq<char>
    decreases n,
{
    if n < 10 {
        seq![digit_char(n)]
    } else {
        dec_digits(n / 10).push(digit_char(n % 10))
    }
}

/// The decimal rendering of an integer: a minus sign before the digits
/// of the magnitude when negative.
pub open spec fn dec_int(i: int) -> Seq<char> {
    if i < 0 {
        seq!['-'] + dec_digits((-i) as nat)
    } else {
        dec_digits(i as nat)
    }
}

/// The value of a sequence of digit characters, most significant first.
pub open spec fn dec_val(s: Seq<char>) -> nat
    decreases s.len(),
{
    if s.len() == 0 {
        0
    } else {
        dec_val(s.drop_last()) * 10 + digit_val(s.last())
    }
}

pub proof fn lemma_dec_digits_wf(n: nat)
    ensures
        dec_digits(n).len() >= 1,
        forall|i: int| 0 <= i < dec_digits(n).len() ==> is_digit_char(#[trigger] dec_digits(n)[i]),
        n > 0 ==> dec_digits(n)[0] != '0',
        n < 10 ==> dec_digits(n).len() == 1,
        n >= 10 ==> dec_digits(n).len() >= 2,
    decreases n,
{
    if n >= 10 {
        lemma_dec_digits_wf(n / 10);
    }
}

/// Rendering then reading a number back gives the number itself.
pub proof fn lemma_dec_val_of_digits(n: nat)
    ensures
        dec_val(dec_digits(n)) == n,
    decreases n,
{
    if n < 10 {
        assert(dec_digits(n) == seq![digit_char(n)]);
        assert(dec_digits(n).drop_last() =~= Seq::<char>::empty());
        assert(dec_val(Seq::<char>::empty()) == 0);
        assert(dec_digits(n).last() == digit_char(n));
        assert(digit_val(digit_char(n)) == n);
        assert(dec_val(dec_digits(n)) == digit_val(digit_char(n)));
    } else {
        lemma_dec_val_of_digits(n / 10);
        assert(dec_digits(n).drop_last() =~= dec_digits(n / 10));
        assert(dec_digits(n).last() == digit_char(n % 10));
        assert(digit_val(digit_char(n % 10)) == n % 10);
        assert(dec_val(dec_digits(n)) == (n / 10) * 10 + n % 10);
        assert((n / 10) * 10 + n % 10 == n) by (nonlinear_arith);
    }
}

/// A run of zero characters.
pub open spec fn zero_seq(k: nat) -> Seq<char> {
    Seq::new(k, |i: int| '0')
}

/// The decimal rendering of a number left-padded with zeros to a width
/// of at least the digits themselves.
pub open spec fn padded(n: nat, w: nat) -> Seq<char> {
    zero_seq((w - dec_digits(n).len()) as nat) + dec_digits(n)
}

/// How many digits the canonical rendering has, for small magnitudes.
pub proof fn lemma_dec_digits_len(n: nat)
    ensures
        n < 10 ==> dec_digits(n).len() == 1,
        10 <= n < 100 ==> dec_digits(n).len() == 2,
        100 <= n < 1000 ==> dec_digits(n).len() == 3,
        1000 <= n < 10000 ==> dec_digits(n).len() == 4,
        n < 100000 ==> dec_digits(n).len() <= 5,
    decreases n,
{
    if n >= 10 {
        lemma_dec_digits_len(n / 10);
    }
}

/// A leading zero does not change the value that a digit run denotes.
pub proof fn lemma_dec_val_leading_zero(s: Seq<char>)
    ensures
        dec_val(seq!['0'] + s) == dec_val(s),
    decreases s.len(),
{
    if s.len() == 0 {
        assert(seq!['0'] + s =~= seq!['0']);
        assert(seq!['0'].drop_last() =~= Seq::<char>::empty());
        assert(seq!['0'].last() == '0');
        assert(dec_val(seq!['0']) == dec_val(Seq::<char>::empty()) * 10 + digit_val('0'));
    } else {
        assert((seq!['0'] + s).drop_last() =~= seq!['0'] + s.drop_last());
        assert((seq!['0'] + s).last() == s.last());
        lemma_dec_val_leading_zero(s.drop_last());
    }
}

/// Zero padding does not change the value that a digit run denotes.
pub proof fn lemma_dec_val_zero_pad(k: nat, s: Seq<char>)
    ensures
        dec_val(zero_seq(k) + s) == dec_val(s),
    decreases k,
{
    if k == 0 {
        assert(zero_seq(0) + s =~= s);
    } else {
        assert(zero_seq(k) + s =~= seq!['0'] + (zero_seq((k - 1) as nat) + s));
        lemma_dec_val_zero_pad((k - 1) as nat, s);
        lemma_dec_val_leading_zero(zero_seq((k - 1) as nat) + s);
    }
}

/// Whether every character of a sequence is a decimal digit.
pub open spec fn all_digits(s: Seq<char>) -> bool {
    forall|i: int| 0 <= i < s.len() ==> is_digit_char(#[trigger] s[i])
}

/// Powers of ten.
pub open spec fn pow10(k: nat) -> nat
    decreases k,
{
    if k == 0 {
        1
    } else {
        10 * pow10((k - 1) as nat)
    }
}

/// The small powers of ten, written out.
pub proof fn lemma_pow10_small()
    ensures
        pow10(0) == 1,
        pow10(1) == 10,
        pow10(2) == 100,
        pow10(3) == 1000,
        pow10(4) == 10000,
        pow10(5) == 100000,
{
    assert(pow10(1) == 10 * pow10(0));
    assert(pow10(2) == 10 * pow10(1));
    assert(pow10(3) == 10 * pow10(2));
    assert(pow10(4) == 10 * pow10(3));
    assert(pow10(5) == 10 * pow10(4));
}

/// A digit character is reproduced by rendering its value.
pub proof fn lemma_digit_roundtrip(c: char)
    requires
        is_digit_char(c),
    ensures
        digit_char(digit_val(c)) == c,
{
}

/// The value a digit run denotes is below ten to the run's length.
pub proof fn lemma_dec_val_bound(s: Seq<char>)
    requires
        all_digits(s),
    ensures
        dec_val(s) < pow10(s.len()),
    decreases s.len(),
{
    if s.len() > 0 {
        lemma_dec_val_bound(s.drop_last());
        assert(digit_val(s.last()) <= 9);
    }
}

/// A rendering is no longer than the width that bounds its value.
pub proof fn lemma_dec_digits_len_pow(n: nat, k: nat)
    requires
        n < pow10(k),
        k >= 1,
    ensures
        dec_digits(n).len() <= k,
    decreases n,
{
    if n >= 10 {
        assert(pow10(k) == 10 * pow10((k - 1) as nat));
        lemma_dec_digits_len_pow(n / 10, (k - 1) as nat);
    }
}

/// A digit run that does not start with zero denotes a positive value.
pub proof fn lemma_dec_val_first_nonzero(s: Seq<char>)
    requires
        all_digits(s),
        s.len() >= 1,
        s[0] != '0',
    ensures
        dec_val(s) >= 1,
    decreases s.len(),
{
    if s.len() == 1 {
        assert(digit_val(s[0]) >= 1);
    } else {
        assert(s.drop_last()[0] == s[0]);
        lemma_dec_val_first_nonzero(s.drop_last());
    }
}

/// A digit run without a leading zero is the canonical rendering of
/// its own value.
pub proof fn lemma_dec_digits_of_val(s: Seq<char>)
    requires
        all_digits(s),
        s.len() >= 1,
        s.len() == 1 || s[0] != '0',
    ensures
        dec_digits(dec_val(s)) == s,
    decreases s.len(),
{
    if s.len() == 1 {
        lemma_digit_roundtrip(s[0]);
        assert(s.drop_last() =~= Seq::<char>::empty());
        assert(dec_val(Seq::<char>::empty()) == 0);
        assert(s.last() == s[0]);
        assert(dec_val(s) == dec_val(s.drop_last()) * 10 + digit_val(s.last()));
        assert(dec_val(s) == digit_val(s[0]));
        assert(dec_digits(dec_val(s)) =~= s);
    } else {
        let t = s.drop_last();
        let c = s.last();
        assert(t[0] == s[0]);
        lemma_dec_digits_of_val(t);
        lemma_dec_val_first_nonzero(t);
        let v = dec_val(s);
        assert(v == dec_val(t) * 10 + digit_val(c));
        assert(v >= 10) by {
            assert(dec_val(t) >= 1);
        }
        assert(v / 10 == dec_val(t) && v % 10 == digit_val(c)) by (nonlinear_arith)
            requires
                v == dec_val(t) * 10 + digit_val(c),
                digit_val(c) < 10,
        ;
        lemma_digit_roundtrip(c);
        assert(dec_digits(v) =~= s);
    }
}

/// A fixed-width digit run is the zero-padded rendering of its value.
pub proof fn lemma_padded_of_val(s: Seq<char>)
    requires
        all_digits(s),
        s.len() >= 1,
    ensures
        padded(dec_val(s), s.len()) == s,
    decreases s.len(),
{
    if s[0] != '0' || s.len() == 1 {
        lemma_dec_digits_of_val(s);
        assert(padded(dec_val(s), s.len()) =~= s);
    } else {
        let t = s.drop_first();
        assert(s =~= seq![s[0]] + t);
        lemma_dec_val_leading_zero(t);
        assert(dec_val(s) == dec_val(t));
        lemma_padded_of_val(t);
        lemma_dec_val_bound(t);
        lemma_dec_digits_len_pow(dec_val(t), t.len());
        assert(padded(dec_val(s), s.len()) =~= s);
    }
}

/// A zero-padded rendering has exactly the asked width, consists of
/// digits, and denotes the rendered value.
pub proof fn lemma_padded_props(n: nat, w: nat)
    requires
        dec_digits(n).len() <= w,
    ensures
        padded(n, w).len() == w,
        all_digits(padded(n, w)),
        dec_val(padded(n, w)) == n,
{
    lemma_dec_digits_wf(n);
    lemma_dec_val_zero_pad((w - dec_digits(n).len()) as nat, dec_digits(n));
    lemma_dec_val_of_digits(n);
    assert forall|i: int| 0 <= i < padded(n, w).len() implies is_digit_char(
        #[trigger] padded(n, w)[i],
    ) by {
        if i >= w - dec_digits(n).len() {
            assert(padded(n, w)[i] == dec_digits(n)[i - (w - dec_digits(n).len())]);
        }
    }
}

/// Reads a single decimal digit character.
pub fn parse_digit(c: char) -> (r: Option<u64>)
    ensures
        r is Some <==> is_digit_char(c),
        r matches Some(v) ==> v == digit_val(c) && v <= 9,
{
    match c {
        '0' => Some(0),
        '1' => Some(1),
        '2' => Some(2),
        '3' => Some(3),
        '4' => Some(4),
        '5' => Some(5),
        '6' => Some(6),
        '7' => Some(7),
        '8' => Some(8),
        '9' => Some(9),
        _ => None,
    }
}

/// Reads a fixed-width digit run out of a string, returning the value
/// it denotes, or nothing where a non-digit stands in the window.
pub fn read_digits(s: &str, start: usize, count: usize) -> (r: Option<u64>)
    requires
        s@.len() <= usize::MAX,
        start + count <= s@.len(),
        count <= 5,
    ensures
        r is Some <==> all_digits(s@.subrange(start as int, start + count)),
        r matches Some(v) ==> v == dec_val(s@.subrange(start as int, start + count)) && v < pow10(
            count as nat,
        ),
{
    let mut acc: u64 = 0;
    let mut i: usize = 0;
    proof {
        assert(s@.subrange(start as int, start as int) =~= Seq::<char>::empty());
        assert(pow10(0) == 1);
        assert(pow10(1) == 10);
        assert(pow10(2) == 100);
        assert(pow10(3) == 1000);
        assert(pow10(4) == 10000);
        assert(pow10(5) == 100000);
    }
    while i < count
        invariant
            0 <= i <= count,
            count <= 5,
            s@.len() <= usize::MAX,
            start + count <= s@.len(),
            all_digits(s@.subrange(start as int, start + i)),
            acc == dec_val(s@.subrange(start as int, start + i)),
            acc < pow10(i as nat),
            pow10(count as nat) <= 100000,
            forall|k: nat| k <= 5 ==> pow10(k) <= 100000,
        decreases count - i,
    {
        let c = s.get_char(start + i);
        match parse_digit(c) {
            Some(d) => {
                proof {
                    assert(pow10((i + 1) as nat) == 10 * pow10(i as nat));
                    assert(s@.subrange(start as int, start + i + 1) =~= s@.subrange(
                        start as int,
                        start + i,
                    ).push(c));
                    assert(s@.subrange(start as int, start + i + 1).drop_last() =~= s@.subrange(
                        start as int,
                        start + i,
                    ));
                }
                acc = acc * 10 + d;
                i = i + 1;
            },
            None => {
                proof {
                    assert(s@.subrange(start as int, start + count)[i as int] == c);
                }
                return None;
            },
        }
    }
    proof {
        assert(s@.subrange(start as int, start + i) =~= s@.subrange(start as int, start + count));
    }
    Some(acc)
}

/// The digit character of a value below ten, as a one-character string.
fn digit_str(d: u64) -> (r: &'static str)
    requires
        d < 10,
    ensures
        r@ =~= seq![digit_char(d as nat)],
{
    proof {
        reveal_strlit("0");
        reveal_strlit("1");
        reveal_strlit("2");
        reveal_strlit("3");
        reveal_strlit("4");
        reveal_strlit("5");
        reveal_strlit("6");
        reveal_strlit("7");
        reveal_strlit("8");
        reveal_strlit("9");
    }
    match d {
        0 => "0",
        1 => "1",
        2 => "2",
        3 => "3",
        4 => "4",
        5 => "5",
        6 => "6",
        7 => "7",
        8 => "8",
        _ => "9",
    }
}

/// The canonical decimal rendering of an unsigned number.
pub fn u64_to_string(n: u64) -> (r: String)
    ensures
        r@ == dec_digits(n as nat),
    decreases n,
{
    if n < 10 {
        String::from_str(digit_str(n))
    } else {
        let prefix = u64_to_string(n / 10);
        let r = prefix.concat(digit_str(n % 10));
        proof {
            assert(r@ =~= dec_digits(n as nat));
        }
        r
    }
}

/// The two-digit zero-padded rendering of a number below one hundred.
pub fn u64_to_string_pad2(n: u64) -> (r: String)
    requires
        n < 100,
    ensures
        r@ == padded(n as nat, 2),
{
    proof {
        lemma_dec_digits_len(n as nat);
    }
    if n < 10 {
        let r = String::from_str("0").concat(digit_str(n));
        proof {
            reveal_strlit("0");
            assert(r@ =~= padded(n as nat, 2));
        }
        r
    } else {
        let r = u64_to_string(n);
        proof {
            assert(r@ =~= padded(n as nat, 2));
        }
        r
    }
}

/// The four-digit zero-padded rendering of a number below ten thousand.
pub fn u64_to_string_pad4(n: u64) -> (r: String)
    requires
        n < 10000,
    ensures
        r@ == padded(n as nat, 4),
{
    proof {
        lemma_dec_digits_len(n as nat);
        reveal_strlit("0");
        reveal_strlit("00");
        reveal_strlit("000");
    }
    if n < 10 {
        let r = String::from_str("000").concat(digit_str(n));
        proof {
            assert(r@ =~= padded(n as nat, 4));
        }
        r
    } else if n < 100 {
        let r = String::from_str("00").concat(u64_to_string(n).as_str());
        proof {
            assert(r@ =~= padded(n as nat, 4));
        }
        r
    } else if n < 1000 {
        let r = String::from_str("0").concat(u64_to_string(n).as_str());
        proof {
            assert(r@ =~= padded(n as nat, 4));
        }
        r
    } else {
        let r = u64_to_string(n);
        proof {
            assert(r@ =~= padded(n as nat, 4));
        }
        r
    }
}

/// The decimal rendering of a signed number, minus sign included.
pub fn i64_to_string(n: i64) -> (r: String)
    ensures
        r@ == dec_int(n as int),
{
    if n < 0 {
        let wide: i128 = n as i128;
        let mag: u64 = (-wide) as u64;
        let digits = u64_to_string(mag);
        let r = String::from_str("-").concat(digits.as_str());
        proof {
            reveal_strlit("-");
            assert(r@ =~= dec_int(n as int));
        }
        r
    } else {
        u64_to_string(n as u64)
    }
}

} // verus!
