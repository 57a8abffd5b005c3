use vstd::prelude::*;

verus! {

/// The character of a decimal digit.
pub open spec fn digit_char(d: nat) -> char {
    if d == 0 {
        '0'
    } else if d == 1 {
        '1'
    } else if d == 2 {
        '2'
    } else if d == 3 {
        '3'
    } else if d == 4 {
        '4'
    } else if d == 5 {
        '5'
    } else if d == 6 {
        '6'
    } else if d == 7 {
        '7'
    } else if d == 8 {
        '8'
    } else {
        '9'
    }
}

/// The decimal digits of a natural number, most significant first, without
/// leading zeros (zero itself is the single digit 0).
pub open spec fn digits(n: nat) -> Seq<char>
    decreases n,
{
    if n < 10 {
        seq![digit_char(n)]
    } else {
        digits(n / 10).push(digit_char(n % 10))
    }
}

/// The decimal text of an integer, with a minus sign before a negative one.
pub open spec fn decimal(n: int) -> Seq<char> {
    if n < 0 {
        seq!['-'] + digits((-n) as nat)
    } else {
        digits(n as nat)
    }
}

fn digit_text(d: u32) -> (text: &'static str)
    requires
        d < 10,
    ensures
        text@ == seq![digit_char(d as nat)],
{
    proof {
        reveal_strlit("0");
        reveal_strlit("1");
        reveal_strlit("2");
        reveal_strlit("3");
        reveal_strlit("4");
        reveal_strlit("5");
        reveal_strlit("6");
        reveal_strlit("7");
        reveal_strlit("8");
        reveal_strlit("9");
    }
    if d == 0 {
        "0"
    } else if d == 1 {
        "1"
    } else if d == 2 {
        "2"
    } else if d == 3 {
        "3"
    } else if d == 4 {
        "4"
    } else if d == 5 {
        "5"
    } else if d == 6 {
        "6"
    } else if d == 7 {
        "7"
    } else if d == 8 {
        "8"
    } else {
        "9"
    }
}

fn digits_text(n: u32) -> (text: String)
    ensures
        text@ == digits(n as nat),
{
    let mut rest: u32 = n;
    let mut tail: String = String::new();
    loop
        invariant_except_break
            digits(n as nat) == digits(rest as nat) + tail@,
        ensures
            digits(n as nat) == tail@,
        decreases rest,
    {
        let last = digit_text(rest % 10);
        let mut text: String = last.to_owned();
        text.append(tail.as_str());
        proof {
            if rest >= 10 {
                assert(digits(rest as nat) == digits((rest / 10) as nat).push(
                    digit_char((rest % 10) as nat),
                ));
                assert(digits((rest / 10) as nat) + text@ =~= digits(rest as nat) + tail@);
            } else {
                assert(digits(rest as nat) == seq![digit_char(rest as nat)]);
                assert(text@ =~= digits(rest as nat) + tail@);
            }
        }
        tail = text;
        if rest < 10 {
            break ;
        }
        rest = rest / 10;
    }
    tail
}

/// Writes an `i32` in decimal, as `Display` does: a minus sign before a
/// negative number, no leading zeros.
pub fn decimal_text(n: i32) -> (text: String)
    ensures
        text@ == decimal(n as int),
{
    if n < 0 {
        let wide: i64 = n as i64;
        let magnitude: u32 = (-wide) as u32;
        let body = digits_text(magnitude);
        let mut text: String = "-".to_owned();
        text.append(body.as_str());
        proof {
            reveal_strlit("-");
        }
        text
    } else {
        digits_text(n as u32)
    }
}

/// The number that a text of decimal digits stands for, read from left to
/// right.
pub open spec fn read_digits(text: Seq<char>) -> int
    decreases text.len(),
{
    if text.len() == 0 {
        0
    } else {
        read_digits(text.drop_last()) * 10 + ((text.last() as int) - ('0' as int))
    }
}

/// Whether a character is a decimal digit.
pub open spec fn is_digit(c: char) -> bool {
    '0' <= c && c <= '9'
}

/// Each digit value is written as the character that many places after '0'.
pub proof fn lemma_digit_char_code(d: nat)
    requires
        d < 10,
    ensures
        digit_char(d) as int == ('0' as int) + d,
{
}

/// The digits of a number are decimal digits, read back as that number, and
/// carry no leading zero.
pub proof fn lemma_digits_read_back(n: nat)
    ensures
        read_digits(digits(n)) == n,
        digits(n).len() >= 1,
        forall|i: int| 0 <= i < digits(n).len() ==> is_digit(#[trigger] digits(n)[i]),
        n >= 10 ==> digits(n)[0] != '0',
    decreases n,
{
    lemma_digit_char_code(n % 10);
    if n >= 10 {
        lemma_digits_read_back(n / 10);
        let head = digits(n / 10);
        assert(digits(n) == head.push(digit_char(n % 10)));
        assert(digits(n).drop_last() =~= head);
        assert(digits(n).last() == digit_char(n % 10));
        assert(read_digits(digits(n)) == read_digits(head) * 10 + (n % 10) as int);
        assert(n == (n / 10) * 10 + n % 10);
        assert forall|i: int| 0 <= i < digits(n).len() implies is_digit(#[trigger] digits(n)[i]) by {
            if i < head.len() {
                assert(digits(n)[i] == head[i]);
            }
        }
        if n / 10 >= 10 {
            assert(digits(n)[0] == head[0]);
        } else {
            lemma_digit_char_code(n / 10);
            assert(head == seq![digit_char(n / 10)]);
            assert(digits(n)[0] == head[0]);
        }
    } else {
        assert(digits(n).drop_last() =~= Seq::<char>::empty());
        assert(digits(n).last() == digit_char(n));
        assert(read_digits(Seq::<char>::empty()) == 0);
        assert(read_digits(digits(n)) == 0 * 10 + n);
    }
}

/// The decimal text of an integer, as `decimal_text` writes it: for a
/// number that is not negative, digits that read back as the number; for a
/// negative one, a minus sign followed by digits that read back as its
/// magnitude.
pub proof fn lemma_decimal_read_back(n: int)
    ensures
        n >= 0 ==> read_digits(decimal(n)) == n && decimal(n)[0] != '-',
        n < 0 ==> decimal(n)[0] == '-' && read_digits(decimal(n).drop_first()) == -n,
        n >= 0 ==> forall|i: int| 0 <= i < decimal(n).len() ==> is_digit(#[trigger] decimal(n)[i]),
{
    if n >= 0 {
        lemma_digits_read_back(n as nat);
        assert(is_digit(decimal(n)[0]));
    } else {
        lemma_digits_read_back((-n) as nat);
        assert(decimal(n).drop_first() =~= digits((-n) as nat));
    }
}

} // verus!
