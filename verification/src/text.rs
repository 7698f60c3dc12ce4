//! Building text: decimal numbers and joined lists.

use vstd::prelude::*;
use vstd::string::*;

verus! {

/// The characters of each string of a list.
pub open spec fn texts(list: Seq<String>) -> Seq<Seq<char>> {
    list.map_values(|s: String| s@)
}

/// The character that stands for the digit `d`.
pub open spec fn digit(d: nat) -> char
    recommends
        d < 10,
{
    (('0' as nat) + d) as char
}

/// `n` in decimal, without leading zeros.
pub open spec fn decimal(n: nat) -> Seq<char>
    decreases n,
{
    if n < 10 {
        seq![digit(n)]
    } else {
        decimal(n / 10).push(digit(n % 10))
    }
}

/// `i` in decimal, a negative number with a minus sign in front.
pub open spec fn signed_decimal(i: int) -> Seq<char> {
    if i < 0 {
        "-"@ + decimal((-i) as nat)
    } else {
        decimal(i as nat)
    }
}

/// The number that a row of decimal digits denotes.
pub open spec fn decimal_value(s: Seq<char>) -> int
    decreases s.len(),
{
    if s.len() == 0 {
        0
    } else {
        10 * decimal_value(s.drop_last()) + (s.last() as int - '0' as int)
    }
}

/// The parts one after the other, with `separator` between neighbours.
pub open spec fn joined(parts: Seq<Seq<char>>, separator: Seq<char>) -> Seq<char>
    decreases parts.len(),
{
    if parts.len() == 0 {
        Seq::empty()
    } else if parts.len() == 1 {
        parts[0]
    } else {
        joined(parts.drop_last(), separator) + separator + parts.last()
    }
}

/// A number's decimal text is a row of digits that denotes the number and that begins
/// with a zero only where the number is zero.
pub proof fn law_decimal_reads_back(n: nat)
    ensures
        decimal_value(decimal(n)) == n,
        decimal(n).len() >= 1,
        n == 0 ==> decimal(n).len() == 1,
        n > 0 ==> decimal(n)[0] != '0',
        forall|i: int| 0 <= i < decimal(n).len() ==> '0' <= #[trigger] decimal(n)[i] <= '9',
    decreases n,
{
    if n < 10 {
        assert(decimal(n).drop_last() =~= Seq::<char>::empty());
        assert(decimal_value(decimal(n).drop_last()) == 0);
    } else {
        law_decimal_reads_back(n / 10);
        assert(decimal(n).drop_last() =~= decimal(n / 10));
    }
}

/// The text of the digit `d`.
fn digit_text(d: u32) -> (text: &'static str)
    requires
        d < 10,
    ensures
        text@ == seq![digit(d as nat)],
{
    proof {
        reveal_strlit("0");
        reveal_strlit("1");
        reveal_strlit("2");
        reveal_strlit("3");
        reveal_strlit("4");
        reveal_strlit("5");
        reveal_strlit("6");
        reveal_strlit("7");
        reveal_strlit("8");
        reveal_strlit("9");
    }
    let text: &'static str = match d {
        0 => "0",
        1 => "1",
        2 => "2",
        3 => "3",
        4 => "4",
        5 => "5",
        6 => "6",
        7 => "7",
        8 => "8",
        _ => "9",
    };
    assert(text@ =~= seq![digit(d as nat)]);
    text
}

/// `n` in decimal.
pub fn decimal_text(n: u32) -> (text: String)
    ensures
        text@ == decimal(n as nat),
    decreases n,
{
    if n < 10 {
        String::from_str(digit_text(n))
    } else {
        let mut text = decimal_text(n / 10);
        text.append(digit_text(n % 10));
        assert(text@ =~= decimal(n as nat));
        text
    }
}

/// `i` in decimal, a negative number with a minus sign in front.
pub fn signed_decimal_text(i: i32) -> (text: String)
    ensures
        text@ == signed_decimal(i as int),
{
    if i < 0 {
        let magnitude: u32 = (-(i as i64)) as u32;
        let mut text = String::from_str("-");
        text.append(decimal_text(magnitude).as_str());
        text
    } else {
        decimal_text(i as u32)
    }
}

/// The strings one after the other, with `separator` between neighbours.
pub fn join_texts(parts: &Vec<String>, separator: &str) -> (text: String)
    ensures
        text@ == joined(texts(parts@), separator@),
{
    let mut text = String::new();
    let mut i: usize = 0;
    assert(texts(parts@).take(0) =~= Seq::<Seq<char>>::empty());
    while i < parts.len()
        invariant
            i <= parts@.len(),
            text@ == joined(texts(parts@).take(i as int), separator@),
        decreases parts@.len() - i,
    {
        let ghost done = texts(parts@).take(i as int);
        let ghost next = texts(parts@).take(i + 1);
        assert(next.drop_last() =~= done);
        assert(next.last() == parts@[i as int]@);
        if i > 0 {
            text.append(separator);
        }
        text.append(parts[i].as_str());
        assert(text@ =~= joined(next, separator@));
        i += 1;
    }
    assert(texts(parts@).take(parts@.len() as int) =~= texts(parts@));
    text
}

/// A copy of a list of strings.
pub(crate) fn copy_texts(list: &Vec<String>) -> (copy: Vec<String>)
    ensures
        texts(copy@) == texts(list@),
{
    let copy = list.clone();
    assert(copy@ =~= list@);
    copy
}

/// `part` stands in `text` from place `i` on.
pub open spec fn stands_at(text: Seq<char>, i: int, part: Seq<char>) -> bool {
    &&& 0 <= i
    &&& i + part.len() <= text.len()
    &&& text.subrange(i, i + part.len()) == part
}

/// How many characters stand before part `k` in a list that is joined with separators of
/// this length.
pub open spec fn start_of(parts: Seq<Seq<char>>, separator_len: nat, k: nat) -> int
    decreases k,
{
    if k == 0 {
        0
    } else {
        start_of(parts, separator_len, (k - 1) as nat) + parts[k - 1].len() + separator_len
    }
}

/// `copy` has the characters of each string of `list`, all of them and in their order.
pub open spec fn spells(copy: Seq<Seq<char>>, list: Seq<String>) -> bool {
    &&& copy.len() == list.len()
    &&& forall|i: int| 0 <= i < list.len() ==> #[trigger] copy[i] == list[i]@
}

/// The characters of a list of strings are those of each string, none left out.
pub proof fn law_texts_keep_every_string(list: Seq<String>)
    ensures
        spells(texts(list), list),
{
}

/// A negative number's text is a minus sign and then the digits of its magnitude; any
/// other number's text is digits alone.
pub proof fn law_signed_decimal_reads_back(i: int)
    ensures
        i >= 0 ==> signed_decimal(i) == decimal(i as nat) && decimal_value(signed_decimal(i)) == i,
        i < 0 ==> signed_decimal(i)[0] == '-' && signed_decimal(i).skip(1) == decimal((-i) as nat)
            && decimal_value(signed_decimal(i).skip(1)) == -i,
{
    reveal_strlit("-");
    if i < 0 {
        law_decimal_reads_back((-i) as nat);
        assert(signed_decimal(i).skip(1) =~= decimal((-i) as nat));
    } else {
        law_decimal_reads_back(i as nat);
    }
}

/// What stands in a part of a text stands in the text.
pub proof fn lemma_stands_within(
    text: Seq<char>,
    i: int,
    part: Seq<char>,
    j: int,
    inner: Seq<char>,
)
    requires
        stands_at(text, i, part),
        stands_at(part, j, inner),
    ensures
        stands_at(text, i + j, inner),
{
    assert(text.subrange(i + j, i + j + inner.len()) =~= part.subrange(j, j + inner.len()));
}

proof fn lemma_start_of_prefix(parts: Seq<Seq<char>>, separator_len: nat, k: nat)
    requires
        k < parts.len(),
    ensures
        start_of(parts.drop_last(), separator_len, k) == start_of(parts, separator_len, k),
    decreases k,
{
    if k > 0 {
        lemma_start_of_prefix(parts, separator_len, (k - 1) as nat);
    }
}

/// In a joined list part `k` stands behind all the parts and separators before it, a
/// separator follows unless it is the last part, and nothing else stands there.
pub proof fn law_joined_holds_each_part(parts: Seq<Seq<char>>, separator: Seq<char>, k: nat)
    requires
        k < parts.len(),
    ensures
        stands_at(
            joined(parts, separator),
            start_of(parts, separator.len(), k),
            parts[k as int],
        ),
        k + 1 < parts.len() ==> stands_at(
            joined(parts, separator),
            start_of(parts, separator.len(), k) + parts[k as int].len(),
            separator,
        ),
        joined(parts, separator).len() == start_of(parts, separator.len(), parts.len())
            - separator.len(),
    decreases parts.len(),
{
    let text = joined(parts, separator);
    let n = parts.len();
    let sep = separator.len();
    if n == 1 {
        assert(start_of(parts, sep, 0) == 0);
        assert(text.subrange(0, text.len() as int) =~= parts[0]);
    } else {
        let front = parts.drop_last();
        let before = joined(front, separator);
        law_joined_holds_each_part(front, separator, 0);
        lemma_start_of_prefix(parts, sep, (n - 1) as nat);
        assert(text.len() == before.len() + sep + parts.last().len());
        if k == n - 1 {
            assert(text.subrange((before.len() + sep) as int, text.len() as int) =~= parts.last());
        } else {
            law_joined_holds_each_part(front, separator, k);
            lemma_start_of_prefix(parts, sep, k);
            assert(text.subrange(0, before.len() as int) =~= before);
            lemma_stands_within(text, 0, before, start_of(parts, sep, k), parts[k as int]);
            if k == n - 2 {
                assert(text.subrange(before.len() as int, (before.len() + sep) as int) =~= separator);
            } else {
                lemma_stands_within(
                    text,
                    0,
                    before,
                    start_of(parts, sep, k) + parts[k as int].len(),
                    separator,
                );
            }
        }
    }
}

/// Nothing joined is nothing.
pub proof fn law_nothing_joined_is_empty(parts: Seq<Seq<char>>, separator: Seq<char>)
    ensures
        parts.len() == 0 ==> joined(parts, separator).len() == 0,
{
}

} // verus!
