//! Reading numbers and rectangles from text.

use vstd::prelude::*;
use crate::region::Rectangle;

verus! {

/// Whether a character separates fields: a blank, a tab, a line feed, a
/// vertical tab, a form feed or a carriage return.
pub open spec fn is_space(c: char) -> bool {
    c == ' ' || c == '\t' || c == '\n' || c == '\x0b' || c == '\x0c' || c == '\r'
}

/// Whether a character is a decimal digit.
pub open spec fn is_digit(c: char) -> bool {
    '0' <= c && c <= '9'
}

/// The value of a decimal digit.
pub open spec fn digit_value(c: char) -> int {
    c as int - '0' as int
}

/// Whether every character of `s` is a decimal digit.
pub open spec fn all_digits(s: Seq<char>) -> bool {
    forall|i: int| 0 <= i < s.len() ==> is_digit(#[trigger] s[i])
}

/// The number that a sequence of decimal digits writes.
pub open spec fn decimal(s: Seq<char>) -> int
    decreases s.len(),
{
    if s.len() == 0 {
        0
    } else {
        10 * decimal(s.drop_last()) + digit_value(s.last())
    }
}

/// A numeral without the plus sign that may begin it.
pub open spec fn unsigned_part(s: Seq<char>) -> Seq<char> {
    if s.len() > 0 && s[0] == '+' {
        s.drop_first()
    } else {
        s
    }
}

/// The number that a numeral writes: one or more decimal digits, after a plus
/// sign or none, whose value is at most `u32::MAX`.
pub open spec fn spec_number(s: Seq<char>) -> Option<u32> {
    let d = unsigned_part(s);
    if d.len() > 0 && all_digits(d) && decimal(d) <= u32::MAX {
        Some(decimal(d) as u32)
    } else {
        None
    }
}

/// The fields of a text: its maximal runs of characters that are no spaces,
/// in order. A character that is no space continues the field of the
/// character before it, or begins a field where a space or nothing precedes.
pub open spec fn fields(s: Seq<char>) -> Seq<Seq<char>>
    decreases s.len(),
{
    if s.len() == 0 {
        Seq::empty()
    } else {
        let before = fields(s.drop_last());
        let c = s.last();
        if is_space(c) {
            before
        } else if s.len() >= 2 && !is_space(s[s.len() - 2]) {
            before.drop_last().push(before.last().push(c))
        } else {
            before.push(seq![c])
        }
    }
}

/// The rectangle that a text writes: exactly four fields, each a numeral, for
/// `x`, `y`, `width` and `height` in this order.
pub open spec fn spec_rectangle(s: Seq<char>) -> Option<Rectangle> {
    let f = fields(s);
    if f.len() == 4 && spec_number(f[0]) is Some && spec_number(f[1]) is Some && spec_number(
        f[2],
    ) is Some && spec_number(f[3]) is Some {
        Some(
            Rectangle {
                x: spec_number(f[0])->0,
                y: spec_number(f[1])->0,
                width: spec_number(f[2])->0,
                height: spec_number(f[3])->0,
            },
        )
    } else {
        None
    }
}

/// Among digits, a numeral is worth at least as much as each of its
/// beginnings.
pub proof fn lemma_decimal_prefix(s: Seq<char>, n: int)
    requires
        all_digits(s),
        0 <= n <= s.len(),
    ensures
        0 <= decimal(s.take(n)) <= decimal(s),
    decreases s.len() - n,
{
    if n == s.len() {
        assert(s.take(n) =~= s);
        lemma_decimal_nonnegative(s);
    } else {
        lemma_decimal_prefix(s, n + 1);
        assert(s.take(n + 1).drop_last() =~= s.take(n));
        assert(is_digit(s[n]));
        lemma_decimal_nonnegative(s.take(n));
    }
}

/// A sequence of digits writes no negative number.
pub proof fn lemma_decimal_nonnegative(s: Seq<char>)
    requires
        all_digits(s),
    ensures
        0 <= decimal(s),
    decreases s.len(),
{
    if s.len() > 0 {
        assert(is_digit(s.last()));
        lemma_decimal_nonnegative(s.drop_last());
    }
}

/// Decides whether a character separates fields.
pub fn space(c: char) -> (b: bool)
    ensures
        b == is_space(c),
{
    c == ' ' || c == '\t' || c == '\n' || c == '\x0b' || c == '\x0c' || c == '\r'
}

/// Reads a numeral.
pub fn parse_number(s: &Vec<char>) -> (r: Option<u32>)
    ensures
        r == spec_number(s@),
{
    let n = s.len();
    let start: usize = if n > 0 && s[0] == '+' {
        1
    } else {
        0
    };
    let ghost d = unsigned_part(s@);
    assert(d =~= s@.skip(start as int));
    if start == n {
        return None;
    }
    let mut value: u64 = 0;
    let mut i: usize = start;
    assert(d.take(0) =~= Seq::<char>::empty());
    while i < n
        invariant
            start <= i <= n,
            n == s@.len(),
            d == s@.skip(start as int),
            d == unsigned_part(s@),
            all_digits(d.take(i - start)),
            value == decimal(d.take(i - start)),
            value <= u32::MAX,
        decreases n - i,
    {
        let c = s[i];
        let ghost j = i - start;
        assert(d[j] == c);
        assert(d.take(j + 1).drop_last() =~= d.take(j));
        if !('0' <= c && c <= '9') {
            assert(!all_digits(d));
            return None;
        }
        let next: u64 = value * 10 + (c as u64 - '0' as u64);
        assert(all_digits(d.take(j + 1))) by {
            assert forall|k: int| 0 <= k < j + 1 implies is_digit(#[trigger] d.take(j + 1)[k]) by {
                if k < j {
                    assert(d.take(j)[k] == d.take(j + 1)[k]);
                }
            }
        }
        if next > u32::MAX as u64 {
            proof {
                if all_digits(d) {
                    lemma_decimal_prefix(d, j + 1);
                }
            }
            return None;
        }
        value = next;
        i = i + 1;
    }
    assert(d.take(n - start) =~= d);
    Some(value as u32)
}

/// The character sequences that a sequence of vectors holds.
pub open spec fn views(v: Seq<Vec<char>>) -> Seq<Seq<char>> {
    Seq::new(v.len(), |i: int| v[i]@)
}

/// Splits a text into its fields.
pub fn split_fields(text: &str) -> (r: Vec<Vec<char>>)
    ensures
        views(r@) == fields(text@),
{
    let mut done: Vec<Vec<char>> = Vec::new();
    let mut cur: Vec<char> = Vec::new();
    assert(text@.take(0) =~= Seq::<char>::empty());
    assert(views(done@) =~= Seq::<Seq<char>>::empty());
    for c in it: text.chars()
        invariant
            it.seq() == text@,
            cur@.len() == 0 ==> (it.index() == 0 || is_space(text@[it.index() - 1])) && views(done@)
                == fields(text@.take(it.index() as int)),
            cur@.len() > 0 ==> it.index() > 0 && !is_space(text@[it.index() - 1]) && views(
                done@,
            ).push(cur@) == fields(text@.take(it.index() as int)),
    {
        let ghost i = it.index() as int;
        let ghost before = fields(text@.take(i));
        let ghost old_done = views(done@);
        let ghost old_cur = cur@;
        assert(text@.take(i + 1).drop_last() =~= text@.take(i));
        assert(text@.take(i + 1).last() == c);
        if space(c) {
            if cur.len() > 0 {
                done.push(cur);
                cur = Vec::new();
                assert(views(done@) =~= old_done.push(old_cur));
            }
        } else {
            cur.push(c);
            proof {
                if old_cur.len() > 0 {
                    assert(text@.take(i + 1)[i - 1] == text@[i - 1]);
                    assert(before.drop_last() =~= old_done);
                    assert(before.last() == old_cur);
                } else {
                    assert(cur@ =~= seq![c]);
                    if i > 0 {
                        assert(text@.take(i + 1)[i - 1] == text@[i - 1]);
                    }
                }
            }
        }
    }
    assert(text@.take(text@.len() as int) =~= text@);
    if cur.len() > 0 {
        let ghost old_done = views(done@);
        let ghost old_cur = cur@;
        done.push(cur);
        assert(views(done@) =~= old_done.push(old_cur));
    }
    done
}

/// Reads a rectangle from a text such as `"10 20 64 48"`.
pub fn parse_rectangle(text: &str) -> (r: Option<Rectangle>)
    ensures
        r == spec_rectangle(text@),
{
    let f = split_fields(text);
    if f.len() != 4 {
        return None;
    }
    assert(views(f@)[0] == f@[0]@ && views(f@)[1] == f@[1]@ && views(f@)[2] == f@[2]@ && views(
        f@,
    )[3] == f@[3]@);
    let x = match parse_number(&f[0]) {
        Some(n) => n,
        None => { return None; },
    };
    let y = match parse_number(&f[1]) {
        Some(n) => n,
        None => { return None; },
    };
    let width = match parse_number(&f[2]) {
        Some(n) => n,
        None => { return None; },
    };
    let height = match parse_number(&f[3]) {
        Some(n) => n,
        None => { return None; },
    };
    Some(Rectangle { x, y, width, height })
}

} // verus!
