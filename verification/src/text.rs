//! Text rendering of numbers.

use vstd::prelude::*;
use vstd::string::*;

verus! {

/// The character of a digit below 16, in upper case.
pub open spec fn digit_char(digit: int) -> char {
    seq!['0', '1', '2', '3', '4', '5', '6', '7', '8', '9', 'A', 'B', 'C', 'D', 'E', 'F'][digit]
}

/// The decimal digits of `n`, without leading zeros.
pub open spec fn decimal(n: nat) -> Seq<char>
    decreases n,
{
    if n < 10 {
        seq![digit_char(n as int)]
    } else {
        decimal(n / 10).push(digit_char((n % 10) as int))
    }
}

/// The hexadecimal digits of `n`, filled up with leading zeros to at least
/// `width` digits and at least one.
pub open spec fn hex(n: nat, width: nat) -> Seq<char>
    decreases n, width,
{
    if n < 16 && width <= 1 {
        seq![digit_char(n as int)]
    } else {
        hex(
            n / 16,
            if width > 0 {
                (width - 1) as nat
            } else {
                0
            },
        ).push(digit_char((n % 16) as int))
    }
}

/// The numbers of `items` in decimal, separated by a comma and a blank.
pub open spec fn decimal_list(items: Seq<usize>) -> Seq<char>
    decreases items.len(),
{
    if items.len() == 0 {
        seq![]
    } else if items.len() == 1 {
        decimal(items[0] as nat)
    } else {
        decimal_list(items.drop_last()) + seq![',', ' '] + decimal(items.last() as nat)
    }
}

fn digit_text(digit: u64) -> (text: &'static str)
    requires
        digit < 16,
    ensures
        text@ == seq![digit_char(digit as int)],
{
    proof {
        reveal_strlit("0");
        reveal_strlit("1");
        reveal_strlit("2");
        reveal_strlit("3");
        reveal_strlit("4");
        reveal_strlit("5");
        reveal_strlit("6");
        reveal_strlit("7");
        reveal_strlit("8");
        reveal_strlit("9");
        reveal_strlit("A");
        reveal_strlit("B");
        reveal_strlit("C");
        reveal_strlit("D");
        reveal_strlit("E");
        reveal_strlit("F");
    }
    match digit {
        0 => "0",
        1 => "1",
        2 => "2",
        3 => "3",
        4 => "4",
        5 => "5",
        6 => "6",
        7 => "7",
        8 => "8",
        9 => "9",
        10 => "A",
        11 => "B",
        12 => "C",
        13 => "D",
        14 => "E",
        _ => "F",
    }
}

/// Appends the decimal digits of `n`.
pub fn append_decimal(text: &mut String, n: u64)
    ensures
        final(text)@ == old(text)@ + decimal(n as nat),
    decreases n,
{
    if n >= 10 {
        append_decimal(text, n / 10);
    }
    text.append(digit_text(n % 10));
}

/// Appends `n` in hexadecimal with at least `width` digits and at least one.
pub fn append_hex(text: &mut String, n: u64, width: u32)
    ensures
        final(text)@ == old(text)@ + hex(n as nat, width as nat),
    decreases n, width,
{
    if n >= 16 || width > 1 {
        append_hex(text, n / 16, if width > 0 { width - 1 } else { 0 });
    }
    text.append(digit_text(n % 16));
    assert(n < 16 ==> n % 16 == n);
}

/// Appends the numbers of `items` in brackets, separated by a comma and a
/// blank.
pub fn append_list(text: &mut String, items: &[usize])
    ensures
        final(text)@ == old(text)@ + seq!['['] + decimal_list(items@) + seq![']'],
{
    proof {
        reveal_strlit("[");
        reveal_strlit(", ");
        reveal_strlit("]");
    }
    text.append("[");
    let ghost start: Seq<char> = text@;
    let mut i: usize = 0;
    while i < items.len()
        invariant
            i <= items@.len(),
            text@ == start + decimal_list(items@.take(i as int)),
        decreases items@.len() - i,
    {
        proof {
            reveal_strlit(", ");
            assert(items@.take(i + 1).drop_last() == items@.take(i as int));
            assert(", "@ == seq![',', ' ']);
        }
        if i > 0 {
            text.append(", ");
        }
        append_decimal(text, items[i] as u64);
        i = i + 1;
    }
    assert(items@.take(items@.len() as int) == items@);
    text.append("]");
}

/// The value of a digit character.
pub open spec fn digit_value(c: char) -> int {
    if '0' <= c && c <= '9' {
        c as int - '0' as int
    } else {
        c as int - 'A' as int + 10
    }
}

/// The number that digits stand for, the most significant first.
pub open spec fn number_of(digits: Seq<char>, base: int) -> int
    decreases digits.len(),
{
    if digits.len() == 0 {
        0
    } else {
        number_of(digits.drop_last(), base) * base + digit_value(digits.last())
    }
}

/// Whether a text consists of digits to a base of at most 16, in upper case.
pub open spec fn all_digits(digits: Seq<char>, base: int) -> bool {
    forall|i: int|
        0 <= i < digits.len() ==> {
            &&& '0' <= #[trigger] digits[i] && digits[i] <= '9' || 'A' <= digits[i] && digits[i]
                <= 'F'
            &&& digit_value(digits[i]) < base
        }
}

/// The decimal text of a number reads back as the number, and has no leading
/// zero but for the number 0 itself.
pub proof fn decimal_reads_back(n: nat)
    ensures
        number_of(decimal(n), 10) == n,
        all_digits(decimal(n), 10),
        decimal(n).len() > 0,
        decimal(n)[0] == '0' ==> n == 0 && decimal(n).len() == 1,
    decreases n,
{
    let digits = decimal(n);
    if n < 10 {
        assert(digits.drop_last() =~= Seq::empty());
        assert(number_of(digits.drop_last(), 10) == 0);
    } else {
        decimal_reads_back(n / 10);
        assert(digits.drop_last() =~= decimal(n / 10));
        assert(digits[0] == decimal(n / 10)[0]);
        assert forall|i: int| 0 <= i < digits.len() implies {
            &&& '0' <= #[trigger] digits[i] && digits[i] <= '9' || 'A' <= digits[i] && digits[i]
                <= 'F'
            &&& digit_value(digits[i]) < 10
        } by {
            if i < digits.len() - 1 {
                assert(digits[i] == decimal(n / 10)[i]);
            }
        }
    }
}

/// The hexadecimal text of a number reads back as the number. It has at least
/// the digits that are asked for, and more only where the number needs them.
pub proof fn hex_reads_back(n: nat, width: nat)
    ensures
        number_of(hex(n, width), 16) == n,
        all_digits(hex(n, width), 16),
        hex(n, width).len() >= width,
        hex(n, width).len() > 0,
        hex(n, width).len() > width && hex(n, width).len() > 1 ==> hex(n, width)[0] != '0',
    decreases n, width,
{
    let digits = hex(n, width);
    if n < 16 && width <= 1 {
        assert(digits.drop_last() =~= Seq::empty());
        assert(number_of(digits.drop_last(), 16) == 0);
    } else {
        let rest: nat = if width > 0 {
            (width - 1) as nat
        } else {
            0
        };
        hex_reads_back(n / 16, rest);
        let front = hex(n / 16, rest);
        assert(digits.drop_last() =~= front);
        assert(digits[0] == front[0]);
        if front.len() == 1 && digits.len() > width {
            assert(front.drop_last() =~= Seq::empty());
            assert(number_of(front, 16) == digit_value(front[0])) by {
                assert(number_of(front.drop_last(), 16) == 0);
            }
        }
        assert forall|i: int| 0 <= i < digits.len() implies {
            &&& '0' <= #[trigger] digits[i] && digits[i] <= '9' || 'A' <= digits[i] && digits[i]
                <= 'F'
            &&& digit_value(digits[i]) < 16
        } by {
            if i < digits.len() - 1 {
                assert(digits[i] == front[i]);
            }
        }
    }
}

/// A list of numbers grows by a comma, a blank and the next number, and one
/// number alone has neither.
pub proof fn list_grows_by_one_number(items: Seq<usize>, next: usize)
    ensures
        decimal_list(seq![]) == Seq::<char>::empty(),
        decimal_list(seq![next]) == decimal(next as nat),
        items.len() > 0 ==> decimal_list(items.push(next)) == decimal_list(items).push(',').push(
            ' ',
        ) + decimal(next as nat),
{
    assert(items.push(next).drop_last() =~= items);
    if items.len() > 0 {
        assert(decimal_list(items.push(next)) =~= decimal_list(items).push(',').push(' ')
            + decimal(next as nat));
    }
}

/// Whether a line gives a number: its digits, at least `width` of them, stand
/// between two fixed texts.
pub open spec fn gives_number(
    line: Seq<char>,
    before: Seq<char>,
    number: int,
    base: int,
    width: int,
    behind: Seq<char>,
) -> bool {
    exists|digits: Seq<char>|
        #![trigger number_of(digits, base)]
        {
            &&& line == before + digits + behind
            &&& number_of(digits, base) == number
            &&& all_digits(digits, base)
            &&& digits.len() >= width && digits.len() >= 1
            &&& digits.len() > width && digits.len() > 1 ==> digits[0] != '0'
        }
}

/// Decimal and hexadecimal texts give their number.
pub proof fn number_texts_give_their_number(
    before: Seq<char>,
    number: nat,
    width: nat,
    behind: Seq<char>,
)
    ensures
        gives_number(before + decimal(number) + behind, before, number as int, 10, 1, behind),
        gives_number(
            before + hex(number, width) + behind,
            before,
            number as int,
            16,
            width as int,
            behind,
        ),
{
    decimal_reads_back(number);
    hex_reads_back(number, width);
    assert(number_of(decimal(number), 10) == number);
    assert(number_of(hex(number, width), 16) == number);
}

} // verus!
