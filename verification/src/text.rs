//! Optional texts, and numbers as text.

use vstd::prelude::*;
use vstd::string::StringExecFns;

verus! {

/// The characters of a text that may be missing.
pub open spec fn text_view(text: Option<String>) -> Option<Seq<char>> {
    match text {
        Some(s) => Some(s@),
        None => None,
    }
}

/// The characters of a borrowed text that may be missing.
pub open spec fn str_view(text: Option<&str>) -> Option<Seq<char>> {
    match text {
        Some(s) => Some(s@),
        None => None,
    }
}

/// A copy of a text that may be missing.
pub(crate) fn own(text: Option<&str>) -> (owned: Option<String>)
    ensures
        text_view(owned) == str_view(text),
{
    match text {
        Some(s) => Some(s.to_owned()),
        None => None,
    }
}

/// Borrows a text that may be missing.
pub(crate) fn borrow(text: &Option<String>) -> (borrowed: Option<&str>)
    ensures
        str_view(borrowed) == text_view(*text),
{
    match text {
        Some(s) => Some(s.as_str()),
        None => None,
    }
}

/// The character for a value below ten.
pub open spec fn digit_char(digit: nat) -> char {
    (48 + digit) as char
}

/// The decimal notation of `value`, without leading zeros.
pub open spec fn decimal(value: nat) -> Seq<char>
    decreases value,
{
    if value < 10 {
        seq![digit_char(value)]
    } else {
        decimal(value / 10).push(digit_char(value % 10))
    }
}

/// The text of a single digit.
fn digit_text(digit: u32) -> (text: &'static str)
    requires
        digit < 10,
    ensures
        text@ == seq![digit_char(digit as nat)],
{
    proof {
        reveal_strlit("0");
        reveal_strlit("1");
        reveal_strlit("2");
        reveal_strlit("3");
        reveal_strlit("4");
        reveal_strlit("5");
        reveal_strlit("6");
        reveal_strlit("7");
        reveal_strlit("8");
        reveal_strlit("9");
    }
    match digit {
        0 => "0",
        1 => "1",
        2 => "2",
        3 => "3",
        4 => "4",
        5 => "5",
        6 => "6",
        7 => "7",
        8 => "8",
        _ => "9",
    }
}

/// Writes a number in decimal.
pub fn decimal_text(value: u32) -> (text: String)
    ensures
        text@ == decimal(value as nat),
    decreases value,
{
    if value < 10 {
        digit_text(value).to_owned()
    } else {
        let mut text = decimal_text(value / 10);
        text.append(digit_text(value % 10));
        text
    }
}

/// The number that a text of decimal digits stands for.
pub open spec fn read_decimal(text: Seq<char>) -> int
    decreases text.len(),
{
    if text.len() == 0 {
        0
    } else {
        10 * read_decimal(text.drop_last()) + (text.last() as int - '0' as int)
    }
}

/// The decimal notation of a number reads as that number. It is made of digits
/// alone, at least one of them, and starts with a zero only where that is all.
pub proof fn law_decimal_reads_back(value: nat)
    ensures
        read_decimal(decimal(value)) == value,
        decimal(value).len() >= 1,
        forall|i: int| 0 <= i < decimal(value).len() ==> '0' <= #[trigger] decimal(value)[i] <= '9',
        decimal(value).len() > 1 ==> decimal(value)[0] != '0',
    decreases value,
{
    let text = decimal(value);
    if value < 10 {
        assert(text.drop_last() =~= seq![]);
        reveal_with_fuel(read_decimal, 2);
    } else {
        law_decimal_reads_back(value / 10);
        let before = decimal(value / 10);
        assert(text.drop_last() =~= before);
        if before.len() == 1 {
            reveal_with_fuel(read_decimal, 2);
            assert(before.drop_last() =~= seq![]);
        }
        assert(text[0] == before[0]);
    }
}

/// A text that may be missing is seen with all its characters, or as missing.
pub proof fn law_text_is_seen_whole(owned: String, borrowed: &str)
    ensures
        text_view(Some(owned)) == Some(owned@),
        text_view(None) is None,
        str_view(Some(borrowed)) == Some(borrowed@),
        str_view(None) is None,
{
}

} // verus!
