//! What the text helpers find, fold and count, and what numbers read and write
//! as.

use vstd::prelude::*;

use crate::bigquery::scalar_json;
use crate::decimal::{
    all_digits, decimal, digits_value, law_decimal_reads_back, signed_decimal, signed_value,
    unsigned_value,
};
use crate::json::{JsonView, NumberView};
use crate::keyed::comes_before;
use crate::table::TableFieldType;
use crate::text::{
    ascii_lower, begins_with, is_blank, is_white_space, occurrences, occurs_at, occurs_in,
};

verus! {

/// A text is found in whatever it stands in.
pub proof fn law_text_is_found(before: Seq<char>, needle: Seq<char>, behind: Seq<char>)
    ensures
        occurs_in(before + needle + behind, needle),
        occurs_at(before + needle + behind, needle, before.len() as int),
{
    let hay = before + needle + behind;
    assert(hay.subrange(before.len() as int, (before.len() + needle.len()) as int) =~= needle);
    assert(occurs_at(hay, needle, before.len() as int));
}

/// What is found stands there, character by character.
pub proof fn law_found_text_is_there(hay: Seq<char>, needle: Seq<char>) -> (i: int)
    requires
        occurs_in(hay, needle),
    ensures
        0 <= i,
        i + needle.len() <= hay.len(),
        forall|k: int| 0 <= k < needle.len() ==> hay[i + k] == #[trigger] needle[k],
{
    let i = choose|i: int| occurs_at(hay, needle, i);
    let part = hay.subrange(i, i + needle.len());
    assert forall|k: int| 0 <= k < needle.len() implies hay[i + k] == #[trigger] needle[k] by {
        assert(part[k] == hay[i + k]);
    }
    i
}

/// A text begins with another exactly where it is that one with something
/// behind it.
pub proof fn law_beginnings(s: Seq<char>, prefix: Seq<char>)
    ensures
        forall|rest: Seq<char>| begins_with(#[trigger] (prefix + rest), prefix),
        begins_with(s, prefix) ==> prefix.len() <= s.len() && s == prefix + s.skip(
            prefix.len() as int,
        ),
{
    assert forall|rest: Seq<char>| begins_with(#[trigger] (prefix + rest), prefix) by {
        assert((prefix + rest).subrange(0, prefix.len() as int) =~= prefix);
    }
    if begins_with(s, prefix) {
        assert(s =~= s.subrange(0, prefix.len() as int) + s.skip(prefix.len() as int));
    }
}

/// Folding keeps every character in its place: a capital ASCII letter as the
/// small letter, every other character as it is. No capital ASCII letter is
/// left.
pub proof fn law_folding_by_character(s: Seq<char>)
    ensures
        ascii_lower(s).len() == s.len(),
        forall|i: int|
            0 <= i < s.len() && 'A' <= s[i] <= 'Z' ==> (#[trigger] ascii_lower(s)[i]) as int
                == s[i] as int + 32,
        forall|i: int|
            0 <= i < s.len() && !('A' <= s[i] <= 'Z') ==> #[trigger] ascii_lower(s)[i] == s[i],
        forall|i: int| 0 <= i < s.len() ==> !('A' <= #[trigger] ascii_lower(s)[i] <= 'Z'),
        ascii_lower(ascii_lower(s)) == ascii_lower(s),
{
    assert(ascii_lower(ascii_lower(s)) =~= ascii_lower(s));
}

/// Folding two texts one behind the other folds each of them.
pub proof fn law_folding_distributes(a: Seq<char>, b: Seq<char>)
    ensures
        ascii_lower(a + b) == ascii_lower(a) + ascii_lower(b),
{
    assert(ascii_lower(a + b) =~= ascii_lower(a) + ascii_lower(b));
}

/// The empty text is blank; two texts one behind the other are blank exactly
/// where both are.
pub proof fn law_blank_parts(a: Seq<char>, b: Seq<char>)
    ensures
        is_blank(Seq::<char>::empty()),
        is_blank(a + b) <==> is_blank(a) && is_blank(b),
{
    let t = a + b;
    if is_blank(t) {
        assert forall|i: int| 0 <= i < a.len() implies is_white_space(#[trigger] a[i]) by {
            assert(t[i] == a[i]);
        }
        assert forall|i: int| 0 <= i < b.len() implies is_white_space(#[trigger] b[i]) by {
            assert(t[i + a.len()] == b[i]);
        }
    }
}

/// Spaces, tabs and line ends are white space, as are the other characters that
/// Unicode lists as such. No visible ASCII character is, and no control
/// character but the five from tab to carriage return.
pub proof fn law_white_space(c: char)
    ensures
        c == ' ' || c == '\t' || c == '\n' || c == '\r' ==> is_white_space(c),
        0x21 <= c as int <= 0x84 ==> !is_white_space(c),
        c as int <= 0x20 ==> (is_white_space(c) <==> c as int == 0x20 || 0x9 <= c as int <= 0xd),
        c as int > 0x84 ==> (is_white_space(c) <==> {
            ||| c as int == 0x85
            ||| c as int == 0xa0
            ||| c as int == 0x1680
            ||| 0x2000 <= c as int <= 0x200a
            ||| c as int == 0x2028 || c as int == 0x2029
            ||| c as int == 0x202f || c as int == 0x205f || c as int == 0x3000
        }),
{
}

/// A text is not blank where it holds one visible ASCII character.
pub proof fn law_visible_text_is_not_blank(s: Seq<char>, i: int)
    requires
        0 <= i < s.len(),
        0x21 <= s[i] as int <= 0x7e,
    ensures
        !is_blank(s),
{
    assert(!is_white_space(s[i]));
}

/// How often a character stands in a text is counted one by one: none in the
/// empty text, and over two texts one behind the other the sum.
pub proof fn law_counts_add_up(a: Seq<char>, b: Seq<char>, c: char)
    ensures
        occurrences(Seq::<char>::empty(), c) == 0,
        occurrences(seq![c], c) == 1,
        occurrences(a + b, c) == occurrences(a, c) + occurrences(b, c),
    decreases b.len(),
{
    reveal_with_fuel(occurrences, 2);
    assert(seq![c].drop_last() =~= Seq::<char>::empty());
    if b.len() == 0 {
        assert(a + b =~= a);
    } else {
        law_counts_add_up(a, b.drop_last(), c);
        assert((a + b).drop_last() =~= a + b.drop_last());
        assert((a + b).last() == b.last());
    }
}

/// A character that is nowhere in a text is counted zero times.
pub proof fn law_absent_is_counted_zero(s: Seq<char>, c: char)
    ensures
        occurrences(s, c) == 0 <==> !s.contains(c),
        occurrences(s, c) <= s.len(),
    decreases s.len(),
{
    if s.len() > 0 {
        let rest = s.drop_last();
        law_absent_is_counted_zero(rest, c);
        if rest.contains(c) {
            let i = choose|i: int| 0 <= i < rest.len() && rest[i] == c;
            assert(s[i] == c);
        }
        if s.contains(c) && s.last() != c {
            let i = choose|i: int| 0 <= i < s.len() && s[i] == c;
            assert(rest[i] == c);
        }
        if s.last() == c {
            assert(s[s.len() - 1] == c);
        }
    }
}

/// A number below ten is written as its digit; any other as the digits of its
/// tens and behind them that of its ones. A negative number is written as its
/// magnitude behind a minus sign.
pub proof fn law_decimal_digits(n: nat)
    ensures
        n < 10 ==> decimal(n).len() == 1 && decimal(n)[0] as int == '0' as int + n,
        n >= 10 ==> decimal(n).len() == decimal(n / 10).len() + 1 && decimal(n).drop_last()
            == decimal(n / 10) && decimal(n).last() as int == '0' as int + n % 10,
        signed_decimal(n as int) == decimal(n),
        n > 0 ==> signed_decimal(-(n as int)) == seq!['-'] + decimal(n),
        signed_value(signed_decimal(n as int)) == Some(n as int),
        signed_value(signed_decimal(-(n as int))) == Some(-(n as int)),
        unsigned_value(decimal(n)) == Some(n),
{
    law_decimal_reads_back(n as int);
    law_decimal_reads_back(-(n as int));
    if n >= 10 {
        assert(decimal(n).drop_last() =~= decimal(n / 10));
    }
}

/// Digits are read in place value: no digits are zero, and one more digit makes
/// ten times as much and the digit.
pub proof fn law_digits_are_place_values(s: Seq<char>, c: char)
    requires
        '0' <= c <= '9',
    ensures
        digits_value(Seq::<char>::empty()) == 0,
        digits_value(s.push(c)) == digits_value(s) * 10 + (c as int - '0' as int),
{
    assert(s.push(c).drop_last() =~= s);
}

/// A text reads as a number that may be negative where it is digits behind at
/// most one sign, and as one that is not negative where that sign is no minus.
/// Nothing else reads as a number.
pub proof fn law_numbers_are_digits_behind_a_sign(s: Seq<char>)
    ensures
        all_digits(s) ==> signed_value(s) == Some(digits_value(s) as int) && unsigned_value(s)
            == Some(digits_value(s)),
        all_digits(s) ==> signed_value(seq!['+'] + s) == Some(digits_value(s) as int)
            && unsigned_value(seq!['+'] + s) == Some(digits_value(s)),
        all_digits(s) ==> signed_value(seq!['-'] + s) == Some(-(digits_value(s) as int))
            && unsigned_value(seq!['-'] + s) is None,
        s.len() == 0 ==> signed_value(s) is None && unsigned_value(s) is None,
        s.len() == 1 && !('0' <= s[0] <= '9') ==> signed_value(s) is None && unsigned_value(s)
            is None,
        s.len() > 0 && s[0] != '+' && s[0] != '-' && !('0' <= s[0] <= '9') ==> signed_value(s)
            is None && unsigned_value(s) is None,
        forall|i: int|
            0 < i < s.len() && !('0' <= #[trigger] s[i] <= '9') ==> signed_value(s) is None
                && unsigned_value(s) is None,
{
    assert((seq!['+'] + s).skip(1) =~= s);
    assert((seq!['-'] + s).skip(1) =~= s);
    if all_digits(s) {
        assert('0' <= s[0] <= '9');
        assert(!all_digits(seq!['-'] + s)) by {
            assert((seq!['-'] + s)[0] == '-');
        }
    }
    assert forall|i: int| 0 < i < s.len() && !('0' <= #[trigger] s[i] <= '9') implies signed_value(
        s,
    ) is None && unsigned_value(s) is None by {
        assert(s.skip(1)[i - 1] == s[i]);
    }
    if s.len() == 1 {
        assert(s.skip(1).len() == 0);
    }
}

/// A cell of a whole-number column is the number that its digits give, behind at
/// most one sign, where that fits an `i64`. A cell that holds anything but digits
/// behind a sign, and one whose number does not fit, keeps its text.
pub proof fn law_integer_cells(t: TableFieldType, s: Seq<char>)
    requires
        t == TableFieldType::Integer || t == TableFieldType::Int64,
    ensures
        all_digits(s) && digits_value(s) <= i64::MAX ==> scalar_json(t, s) == JsonView::Number(
            NumberView::PosInt(digits_value(s) as u64),
        ),
        all_digits(s) && digits_value(s) > i64::MAX ==> scalar_json(t, s) == JsonView::Str(s),
        all_digits(s) && 0 < digits_value(s) <= i64::MAX + 1 ==> scalar_json(t, seq!['-'] + s)
            == JsonView::Number(NumberView::NegInt((-digits_value(s)) as i64)),
        all_digits(s) && digits_value(s) == 0 ==> scalar_json(t, seq!['-'] + s) == JsonView::Number(
            NumberView::PosInt(0),
        ),
        all_digits(s) && digits_value(s) > i64::MAX + 1 ==> scalar_json(t, seq!['-'] + s)
            == JsonView::Str(seq!['-'] + s),
        all_digits(s) && digits_value(s) <= i64::MAX ==> scalar_json(t, seq!['+'] + s)
            == JsonView::Number(NumberView::PosInt(digits_value(s) as u64)),
        s.len() == 0 ==> scalar_json(t, s) == JsonView::Str(s),
        s.len() > 0 && s[0] != '+' && s[0] != '-' && !('0' <= s[0] <= '9') ==> scalar_json(t, s)
            == JsonView::Str(s),
        forall|i: int|
            0 < i < s.len() && !('0' <= #[trigger] s[i] <= '9') ==> scalar_json(t, s)
                == JsonView::Str(s),
{
    law_numbers_are_digits_behind_a_sign(s);
}

/// The first character in which two names differ orders them, and a proper
/// beginning of a name comes before it.
pub proof fn law_names_are_ordered_by_first_difference(
    front: Seq<char>,
    a: Seq<char>,
    b: Seq<char>,
)
    ensures
        a.len() > 0 && b.len() > 0 && a[0] < b[0] ==> comes_before(front + a, front + b)
            && !comes_before(front + b, front + a),
        b.len() > 0 ==> comes_before(front, front + b) && !comes_before(front + b, front),
    decreases front.len(),
{
    if front.len() == 0 {
        assert(front + a =~= a);
        assert(front + b =~= b);
    } else {
        let rest = front.drop_first();
        law_names_are_ordered_by_first_difference(rest, a, b);
        assert((front + a).drop_first() =~= rest + a);
        assert((front + b).drop_first() =~= rest + b);
        assert((front + a)[0] == front[0] && (front + b)[0] == front[0]);
    }
}

} // verus!
