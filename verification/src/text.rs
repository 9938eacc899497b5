//! Small pieces of text shown to a client: decimal numbers and line endings.

use vstd::prelude::*;

verus! {

/// `String::push` appends the given character to the end of the string.
pub assume_specification[ String::push ](s: &mut String, c: char)
    ensures
        final(s)@ == old(s)@.push(c),
;

/// The decimal digit of `d`, for `d` below ten.
pub open spec fn digit(d: nat) -> char {
    (48 + d) as char
}

/// The decimal digits of `n`, most significant first and without leading zeros.
pub open spec fn digits(n: nat) -> Seq<char>
    decreases n,
{
    if n < 10 {
        seq![digit(n)]
    } else {
        digits(n / 10).push(digit(n % 10))
    }
}

/// `n` in decimal notation, with a leading minus sign when it is negative.
pub open spec fn decimal(n: int) -> Seq<char> {
    if n < 0 {
        seq!['-'] + digits((-n) as nat)
    } else {
        digits(n as nat)
    }
}

/// `s` with `with` in place of every occurrence of `c`.
pub open spec fn replace_each(s: Seq<char>, c: char, with: Seq<char>) -> Seq<char>
    decreases s.len(),
{
    if s.len() == 0 {
        Seq::empty()
    } else if s.last() == c {
        replace_each(s.drop_last(), c, with) + with
    } else {
        replace_each(s.drop_last(), c, with).push(s.last())
    }
}

fn push_digits(out: &mut String, n: u64)
    ensures
        final(out)@ == old(out)@ + digits(n as nat),
    decreases n,
{
    if n >= 10 {
        push_digits(out, n / 10);
    }
    let d: u8 = (n % 10) as u8;
    out.push((48u8 + d) as char);
}

/// Appends `n` in decimal notation to `out`.
pub fn push_decimal(out: &mut String, n: i32)
    ensures
        final(out)@ == old(out)@ + decimal(n as int),
{
    if n < 0 {
        out.push('-');
        push_digits(out, (-(n as i64)) as u64);
    } else {
        push_digits(out, n as u64);
    }
}

/// Copies `s`, putting `with` in place of every occurrence of `c`.
pub fn replace_char(s: &str, c: char, with: &str) -> (r: String)
    ensures
        r@ == replace_each(s@, c, with@),
{
    let mut out = String::new();
    for x in it: s.chars()
        invariant
            it.seq() == s@,
            out@ == replace_each(s@.take(it.index() as int), c, with@),
    {
        proof {
            let before = s@.take(it.index() as int);
            let after = s@.take(it.index() + 1);
            assert(after.drop_last() =~= before);
            assert(after.last() == x);
        }
        if x == c {
            out.append(with);
        } else {
            out.push(x);
        }
    }
    assert(s@.take(s@.len() as int) =~= s@);
    out
}

/// The number that a row of decimal digits stands for.
pub open spec fn number(s: Seq<char>) -> int
    decreases s.len(),
{
    if s.len() == 0 {
        0
    } else {
        number(s.drop_last()) * 10 + (s.last() as int - '0' as int)
    }
}

/// A row of decimal digits that does not start with a zero it could do without.
pub open spec fn canonical(s: Seq<char>) -> bool {
    &&& s.len() > 0
    &&& forall|i: int| 0 <= i < s.len() ==> '0' <= #[trigger] s[i] <= '9'
    &&& s[0] == '0' ==> s.len() == 1
}

/// The digits of a number stand for that number, and are as few as can be.
pub proof fn law_digits_stand_for_their_number(n: nat)
    ensures
        number(digits(n)) == n,
        canonical(digits(n)),
        digits(n)[0] == '0' ==> n == 0,
    decreases n,
{
    if n < 10 {
        assert(digits(n).drop_last() =~= seq![]);
        reveal_with_fuel(number, 2);
    } else {
        law_digits_stand_for_their_number(n / 10);
        assert(digits(n).drop_last() =~= digits(n / 10));
    }
}

/// A number in decimal notation stands for itself: a minus sign comes before the
/// digits of its magnitude exactly if it is negative.
pub proof fn law_decimal_stands_for_its_number(n: int)
    ensures
        n >= 0 ==> canonical(decimal(n)) && number(decimal(n)) == n,
        n < 0 ==> decimal(n).len() > 1 && decimal(n)[0] == '-' && canonical(decimal(n).skip(1))
            && number(decimal(n).skip(1)) == -n,
{
    if n < 0 {
        law_digits_stand_for_their_number((-n) as nat);
        assert(decimal(n).skip(1) =~= digits((-n) as nat));
    } else {
        law_digits_stand_for_their_number(n as nat);
    }
}

/// Replacement goes character by character: a text is replaced piece by piece, the
/// character sought gives way, and every other stays.
pub proof fn law_replacement_is_piecewise(
    a: Seq<char>,
    b: Seq<char>,
    x: char,
    c: char,
    with: Seq<char>,
)
    ensures
        replace_each(a + b, c, with) == replace_each(a, c, with) + replace_each(b, c, with),
        replace_each(seq![x], c, with) == if x == c {
            with
        } else {
            seq![x]
        },
        replace_each(seq![], c, with).len() == 0,
    decreases b.len(),
{
    assert(seq![x].drop_last() =~= seq![]);
    reveal_with_fuel(replace_each, 2);
    if b.len() == 0 {
        assert(a + b =~= a);
    } else {
        assert((a + b).drop_last() =~= a + b.drop_last());
        law_replacement_is_piecewise(a, b.drop_last(), x, c, with);
    }
}

/// A text without the character sought stays as it is.
pub proof fn law_nothing_to_replace(s: Seq<char>, c: char, with: Seq<char>)
    requires
        forall|i: int| 0 <= i < s.len() ==> #[trigger] s[i] != c,
    ensures
        replace_each(s, c, with) == s,
    decreases s.len(),
{
    if s.len() > 0 {
        let before = s.drop_last();
        assert(s.last() == s[s.len() - 1]);
        assert forall|i: int| 0 <= i < before.len() implies #[trigger] before[i] != c by {
            assert(before[i] == s[i]);
        }
        law_nothing_to_replace(before, c, with);
    }
}

/// What is appended and what is copied, by any call.
pub proof fn law_texts_are_built_as_stated(n: i32, s: &str, c: char, with: &str, copy: String)
    ensures
        forall|out: &mut String| #[trigger]
            call_ensures(push_decimal, (out, n), ()) ==> final(out)@ == (*out)@ + decimal(n as int),
        call_ensures(replace_char, (s, c, with), copy) ==> copy@ == replace_each(s@, c, with@),
{
}

} // verus!
