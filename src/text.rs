//! The line of text that a frame shows.
use vstd::prelude::*;
use vstd::string::StringExecFns;

verus! {

/// The character of a decimal digit.
pub open spec fn digit_char(d: nat) -> char
    recommends
        d < 10,
{
    seq!['0', '1', '2', '3', '4', '5', '6', '7', '8', '9'][d as int]
}

/// The decimal digits of a natural number, most significant first, with no
/// leading zeros (zero itself is the single digit `0`).
pub open spec fn decimal(n: nat) -> Seq<char>
    decreases n,
{
    if n < 10 {
        seq![digit_char(n)]
    } else {
        decimal(n / 10).push(digit_char(n % 10))
    }
}

/// A signed integer written in decimal, with a leading `-` when negative.
pub open spec fn signed_decimal(i: int) -> Seq<char> {
    if i < 0 {
        seq!['-'] + decimal((-i) as nat)
    } else {
        decimal(i as nat)
    }
}

/// The text shown for a counter value: `Counter: ` and the value.
pub open spec fn counter_line(c: i32) -> Seq<char> {
    seq!['C', 'o', 'u', 'n', 't', 'e', 'r', ':', ' '] + signed_decimal(c as int)
}

/// Every character of a counter line is printable ASCII.
pub proof fn lemma_counter_line_printable(c: i32)
    ensures
        forall|i: int|
            0 <= i < counter_line(c).len() ==> ' ' <= #[trigger] counter_line(c)[i] <= '~',
{
    let v = c as int;
    let n: nat = if v < 0 { (-v) as nat } else { v as nat };
    lemma_decimal_digits(n);
    let line = counter_line(c);
    assert forall|i: int| 0 <= i < line.len() implies ' ' <= #[trigger] line[i] <= '~' by {
        if i >= 9 {
            if v < 0 && i > 9 {
                assert(line[i] == decimal(n)[i - 10]);
            } else if v >= 0 {
                assert(line[i] == decimal(n)[i - 9]);
            }
        }
    }
}

/// The decimal form of a number holds digits only.
pub proof fn lemma_decimal_digits(n: nat)
    ensures
        forall|i: int| 0 <= i < decimal(n).len() ==> '0' <= #[trigger] decimal(n)[i] <= '9',
    decreases n,
{
    if n >= 10 {
        lemma_decimal_digits(n / 10);
        let d = decimal(n);
        assert forall|i: int| 0 <= i < d.len() implies '0' <= #[trigger] d[i] <= '9' by {
            if i < d.len() - 1 {
                assert(d[i] == decimal(n / 10)[i]);
            }
        }
    }
}

fn digit_str(d: u32) -> (r: &'static str)
    requires
        d < 10,
    ensures
        r@ == seq![digit_char(d as nat)],
{
    proof {
        reveal_strlit("0");
        reveal_strlit("1");
        reveal_strlit("2");
        reveal_strlit("3");
        reveal_strlit("4");
        reveal_strlit("5");
        reveal_strlit("6");
        reveal_strlit("7");
        reveal_strlit("8");
        reveal_strlit("9");
    }
    match d {
        0 => "0",
        1 => "1",
        2 => "2",
        3 => "3",
        4 => "4",
        5 => "5",
        6 => "6",
        7 => "7",
        8 => "8",
        _ => "9",
    }
}

/// Appends the decimal digits of `n` to `s`.
fn push_decimal(s: &mut String, n: u32)
    ensures
        final(s)@ == old(s)@ + decimal(n as nat),
    decreases n,
{
    if n >= 10 {
        push_decimal(s, n / 10);
    }
    s.append(digit_str(n % 10));
    assert(decimal(n as nat) == if n < 10 {
        seq![digit_char(n as nat)]
    } else {
        decimal((n / 10) as nat).push(digit_char((n % 10) as nat))
    });
}

/// The text shown for a counter value.
pub fn counter_text(c: i32) -> (r: String)
    ensures
        r@ == counter_line(c),
{
    proof {
        reveal_strlit("Counter: ");
        reveal_strlit("-");
    }
    let mut s = String::from_str("Counter: ");
    if c < 0 {
        s.append("-");
        let magnitude: u32 = (0i64 - c as i64) as u32;
        push_decimal(&mut s, magnitude);
    } else {
        push_decimal(&mut s, c as u32);
    }
    assert(s@ =~= counter_line(c));
    s
}

} // verus!
