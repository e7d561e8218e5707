//! Decimal strings: rendering integers into documents and reading them
//! back out of result codes, counters and dates.

use vstd::prelude::*;

verus! {

broadcast use vstd::seq::group_seq_axioms;

/// The digit character for one decimal digit.
pub open spec fn spec_digit(d: nat) -> char
    recommends
        d < 10,
{
    if d == 0 {
        '0'
    } else if d == 1 {
        '1'
    } else if d == 2 {
        '2'
    } else if d == 3 {
        '3'
    } else if d == 4 {
        '4'
    } else if d == 5 {
        '5'
    } else if d == 6 {
        '6'
    } else if d == 7 {
        '7'
    } else if d == 8 {
        '8'
    } else {
        '9'
    }
}

/// The decimal rendering of a number, most significant digit first.
pub open spec fn spec_dec(n: nat) -> Seq<char>
    decreases n,
{
    if n < 10 {
        seq![spec_digit(n)]
    } else {
        spec_dec(n / 10) + seq![spec_digit(n % 10)]
    }
}

/// Whether a character is a decimal digit.
pub open spec fn spec_is_digit(c: char) -> bool {
    48 <= c as u32 <= 57
}

/// The value of one digit character.
pub open spec fn spec_digit_val(c: char) -> nat
    recommends
        spec_is_digit(c),
{
    (c as u32 - 48) as nat
}

/// The value of a digit string, most significant digit first.
pub open spec fn spec_dec_val(s: Seq<char>) -> nat
    decreases s.len(),
{
    if s.len() == 0 {
        0
    } else {
        spec_dec_val(s.drop_last()) * 10 + spec_digit_val(s.last())
    }
}

/// The number parsed from a string: every character must be a digit and
/// there must be at least one.
pub open spec fn spec_parse_dec(s: Seq<char>) -> Option<nat> {
    if s.len() > 0 && (forall|i: int| 0 <= i < s.len() ==> spec_is_digit(#[trigger] s[i])) {
        Some(spec_dec_val(s))
    } else {
        None
    }
}

/// Rendered digits are digits, and the rendering never starts with an
/// unnecessary zero.
pub proof fn lemma_dec_digits(n: nat)
    ensures
        spec_dec(n).len() > 0,
        forall|i: int| 0 <= i < spec_dec(n).len() ==> spec_is_digit(#[trigger] spec_dec(n)[i]),
    decreases n,
{
    if n >= 10 {
        lemma_dec_digits(n / 10);
    }
}

/// Parsing a rendered number gives the number back.
pub proof fn lemma_dec_round_trip(n: nat)
    ensures
        spec_parse_dec(spec_dec(n)) == Some(n),
{
    lemma_dec_digits(n);
    lemma_dec_val(n);
}

proof fn lemma_digit_val(d: nat)
    requires
        d < 10,
    ensures
        spec_digit_val(spec_digit(d)) == d,
{
    if d == 0 {
        assert(spec_digit_val('0') == 0);
    } else if d == 1 {
        assert(spec_digit_val('1') == 1);
    } else if d == 2 {
        assert(spec_digit_val('2') == 2);
    } else if d == 3 {
        assert(spec_digit_val('3') == 3);
    } else if d == 4 {
        assert(spec_digit_val('4') == 4);
    } else if d == 5 {
        assert(spec_digit_val('5') == 5);
    } else if d == 6 {
        assert(spec_digit_val('6') == 6);
    } else if d == 7 {
        assert(spec_digit_val('7') == 7);
    } else if d == 8 {
        assert(spec_digit_val('8') == 8);
    } else {
        assert(spec_digit_val('9') == 9);
    }
}

proof fn lemma_dec_val(n: nat)
    ensures
        spec_dec_val(spec_dec(n)) == n,
    decreases n,
{
    if n < 10 {
        let s = spec_dec(n);
        assert(s == seq![spec_digit(n)]);
        assert(s.drop_last() =~= Seq::<char>::empty());
        assert(spec_dec_val(s.drop_last()) == 0);
        assert(s.last() == spec_digit(n));
        lemma_digit_val(n);
        assert(spec_dec_val(s) == 0 * 10 + spec_digit_val(spec_digit(n)));
    } else {
        let s = spec_dec(n);
        lemma_dec_val(n / 10);
        assert(s == spec_dec(n / 10) + seq![spec_digit(n % 10)]);
        assert(s.drop_last() =~= spec_dec(n / 10));
        assert(s.last() == (spec_dec(n / 10) + seq![spec_digit(n % 10)])[s.len() - 1]);
        assert(s.last() == spec_digit(n % 10));
        lemma_digit_val(n % 10);
        assert(spec_dec_val(s) == spec_dec_val(spec_dec(n / 10)) * 10 + spec_digit_val(
            spec_digit(n % 10),
        ));
        assert((n / 10) * 10 + n % 10 == n);
    }
}

/// The digit character for a digit value.
fn digit_str(d: u64) -> (s: &'static str)
    requires
        d < 10,
    ensures
        s@ == seq![spec_digit(d as nat)],
{
    proof {
        reveal_strlit("0");
        reveal_strlit("1");
        reveal_strlit("2");
        reveal_strlit("3");
        reveal_strlit("4");
        reveal_strlit("5");
        reveal_strlit("6");
        reveal_strlit("7");
        reveal_strlit("8");
        reveal_strlit("9");
    }
    if d == 0 {
        "0"
    } else if d == 1 {
        "1"
    } else if d == 2 {
        "2"
    } else if d == 3 {
        "3"
    } else if d == 4 {
        "4"
    } else if d == 5 {
        "5"
    } else if d == 6 {
        "6"
    } else if d == 7 {
        "7"
    } else if d == 8 {
        "8"
    } else {
        "9"
    }
}

/// Append the decimal rendering of `n`.
pub fn append_dec(out: &mut String, n: u64)
    ensures
        final(out)@ == old(out)@ + spec_dec(n as nat),
    decreases n,
{
    if n < 10 {
        out.append(digit_str(n));
    } else {
        append_dec(out, n / 10);
        out.append(digit_str(n % 10));
        proof {
            assert(old(out)@ + spec_dec((n / 10) as nat) + seq![spec_digit((n % 10) as nat)]
                =~= old(out)@ + (spec_dec((n / 10) as nat) + seq![spec_digit((n % 10) as nat)]));
        }
    }
}

/// The decimal rendering of `n` as a fresh string.
pub fn dec_string(n: u64) -> (s: String)
    ensures
        s@ == spec_dec(n as nat),
{
    let mut s = String::new();
    append_dec(&mut s, n);
    proof {
        assert(Seq::<char>::empty() + spec_dec(n as nat) =~= spec_dec(n as nat));
    }
    s
}

/// The decimal rendering of `n`, left-padded with zeros to at least
/// `width` characters (as dates require).
pub open spec fn spec_dec_padded(n: nat, width: nat) -> Seq<char>
    decreases width,
{
    if spec_dec(n).len() >= width {
        spec_dec(n)
    } else {
        seq!['0'] + spec_dec_padded(n, (width - 1) as nat)
    }
}

/// Append the zero-padded decimal rendering of `n`.
pub fn append_dec_padded(out: &mut String, n: u64, width: usize)
    requires
        width <= 8,
    ensures
        final(out)@ == old(out)@ + spec_dec_padded(n as nat, width as nat),
    decreases width,
{
    let digits = dec_string(n);
    if digits.as_str().unicode_len() >= width {
        out.append(digits.as_str());
    } else {
        proof {
            reveal_strlit("0");
        }
        out.append("0");
        append_dec_padded(out, n, width - 1);
        proof {
            assert(old(out)@ + seq!['0'] + spec_dec_padded(n as nat, (width - 1) as nat)
                =~= old(out)@ + (seq!['0'] + spec_dec_padded(n as nat, (width - 1) as nat)));
        }
    }
}

/// Parse a decimal string no greater than `cap`.
#[verifier::loop_isolation(false)]
pub fn parse_dec_capped(s: &str, cap: u64) -> (r: Option<u64>)
    ensures
        match r {
            Some(v) => spec_parse_dec(s@) == Some(v as nat) && v <= cap,
            None => spec_parse_dec(s@) is None || spec_parse_dec(s@)->Some_0 > cap,
        },
{
    let n = s.unicode_len();
    if n == 0 {
        return None;
    }
    let mut acc: u64 = 0;
    let mut i: usize = 0;
    while i < n
        invariant
            0 <= i <= n,
            acc <= cap,
            forall|j: int| 0 <= j < i ==> spec_is_digit(#[trigger] s@[j]),
            acc == spec_dec_val(s@.take(i as int)),
        decreases n - i,
    {
        let c = s.get_char(i);
        let code = c as u32;
        if !(48 <= code && code <= 57) {
            return None;
        }
        let d = (code - 48) as u64;
        if acc > cap / 10 || (acc == cap / 10 && d > cap % 10) {
            proof {
                assert(acc * 10 + d > cap) by (nonlinear_arith)
                    requires
                        acc > cap / 10 || (acc == cap / 10 && d > cap % 10),
                        acc == cap / 10 ==> d > cap % 10,
                        cap == (cap / 10) * 10 + cap % 10,
                        d < 10,
                ;
                assert(s@.take(i + 1 as int).drop_last() =~= s@.take(i as int));
                assert(s@.take(i + 1 as int).last() == s@[i as int]);
                assert(spec_digit_val(s@[i as int]) == d);
                assert(spec_dec_val(s@.take(i + 1 as int)) == acc * 10 + d);
                lemma_dec_val_grows(s@, i + 1, n as int);
                assert(s@.take(n as int) =~= s@);
            }
            return None;
        }
        proof {
            assert(acc * 10 + d <= cap) by (nonlinear_arith)
                requires
                    acc <= cap / 10,
                    acc == cap / 10 ==> d <= cap % 10,
                    cap == (cap / 10) * 10 + cap % 10,
                    d < 10,
            ;
            assert(s@.take(i + 1 as int).drop_last() =~= s@.take(i as int));
        }
        acc = acc * 10 + d;
        i = i + 1;
    }
    proof {
        assert(s@.take(n as int) =~= s@);
    }
    Some(acc)
}

/// A longer digit string parses to at least as large a value: once the
/// accumulated value exceeds the cap, the whole string does.
proof fn lemma_dec_val_grows(s: Seq<char>, i: int, n: int)
    requires
        0 <= i <= n <= s.len(),
    ensures
        spec_dec_val(s.take(n)) >= spec_dec_val(s.take(i)),
    decreases n - i,
{
    if i < n {
        lemma_dec_val_grows(s, i + 1, n);
        assert(s.take(i + 1).drop_last() =~= s.take(i));
        assert(spec_dec_val(s.take(i + 1)) == spec_dec_val(s.take(i)) * 10 + spec_digit_val(
            s.take(i + 1).last(),
        ));
        assert(spec_dec_val(s.take(i)) * 10 >= spec_dec_val(s.take(i))) by (nonlinear_arith);
    }
}

} // verus!
