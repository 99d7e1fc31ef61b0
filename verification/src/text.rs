//! Decimal rendering of numbers, and the pieces that messages are put together from.

use vstd::prelude::*;

verus! {

/// The character of one decimal digit.
pub open spec fn digit(d: nat) -> char {
    (48 + d) as char
}

/// A natural number in base ten, without leading zeros.
pub open spec fn decimal(n: nat) -> Seq<char>
    decreases n,
{
    if n < 10 {
        seq![digit(n)]
    } else {
        decimal(n / 10).push(digit(n % 10))
    }
}

/// An integer in base ten, with a minus sign in front of a negative one.
pub open spec fn signed_decimal(i: int) -> Seq<char> {
    if i < 0 {
        seq!['-'] + decimal((-i) as nat)
    } else {
        decimal(i as nat)
    }
}

/// The literal that shows one decimal digit.
fn digit_text(d: u64) -> (t: &'static str)
    requires
        d < 10,
    ensures
        t@ == seq![digit(d as nat)],
{
    proof {
        reveal_strlit("0");
        reveal_strlit("1");
        reveal_strlit("2");
        reveal_strlit("3");
        reveal_strlit("4");
        reveal_strlit("5");
        reveal_strlit("6");
        reveal_strlit("7");
        reveal_strlit("8");
        reveal_strlit("9");
    }
    if d == 0 {
        "0"
    } else if d == 1 {
        "1"
    } else if d == 2 {
        "2"
    } else if d == 3 {
        "3"
    } else if d == 4 {
        "4"
    } else if d == 5 {
        "5"
    } else if d == 6 {
        "6"
    } else if d == 7 {
        "7"
    } else if d == 8 {
        "8"
    } else {
        "9"
    }
}

/// Appends `n` in base ten.
pub fn push_decimal(s: &mut String, n: u64)
    ensures
        final(s)@ == old(s)@ + decimal(n as nat),
    decreases n,
{
    if n >= 10 {
        push_decimal(s, n / 10);
    }
    let last = digit_text(n % 10);
    s.append(last);
    proof {
        if n >= 10 {
            assert(old(s)@ + decimal((n / 10) as nat) + seq![digit((n % 10) as nat)] =~= old(s)@
                + decimal((n / 10) as nat).push(digit((n % 10) as nat)));
        }
    }
}

/// Appends `i` in base ten, with its sign where it is negative.
pub fn push_signed(s: &mut String, i: i32)
    ensures
        final(s)@ == old(s)@ + signed_decimal(i as int),
{
    if i < 0 {
        proof {
            reveal_strlit("-");
        }
        s.append("-");
        push_decimal(s, (-(i as i64)) as u64);
        assert(old(s)@ + seq!['-'] + decimal((-i) as nat) =~= old(s)@ + (seq!['-'] + decimal(
            (-i) as nat,
        )));
    } else {
        push_decimal(s, i as u64);
    }
}

/// A number below a thousand in base ten, filled up to three characters from the left.
pub open spec fn padded(n: nat, fill: char) -> Seq<char> {
    if n < 10 {
        seq![fill, fill] + decimal(n)
    } else if n < 100 {
        seq![fill] + decimal(n)
    } else {
        decimal(n)
    }
}

/// A line of the log: the seconds of the clock within a thousand, the milliseconds and the message.
pub open spec fn log_line_of(secs: u64, millis: u32, message: Seq<char>) -> Seq<char> {
    "["@ + padded((secs % 1000) as nat, ' ') + "."@ + padded(millis as nat, '0') + "] "@ + message
}

/// Puts a line of the log together.
pub fn log_line(secs: u64, millis: u32, message: &str) -> (r: String)
    requires
        millis < 1000,
    ensures
        r@ == log_line_of(secs, millis, message@),
{
    proof {
        reveal_strlit(" ");
        reveal_strlit("  ");
        reveal_strlit("0");
        reveal_strlit("00");
    }
    let whole: u64 = secs % 1000;
    let part: u64 = millis as u64;
    let mut line = String::from_str("[");
    if whole < 10 {
        line.append("  ");
    } else if whole < 100 {
        line.append(" ");
    }
    push_decimal(&mut line, whole);
    assert(line@ =~= "["@ + padded(whole as nat, ' '));
    line.append(".");
    let ghost front = line@;
    if part < 10 {
        line.append("00");
    } else if part < 100 {
        line.append("0");
    }
    push_decimal(&mut line, part);
    assert(line@ =~= front + padded(part as nat, '0'));
    line.append("] ");
    line.append(message);
    line
}

/// The number that a row of decimal digits stands for.
pub open spec fn worth(digits: Seq<char>) -> nat
    decreases digits.len(),
{
    if digits.len() == 0 {
        0
    } else {
        worth(digits.drop_last()) * 10 + (digits.last() as u32 - 48) as nat
    }
}

/// A number in base ten consists of the digits from 0 to 9, stands for that number, and begins with
/// a zero only if it is zero.
pub proof fn law_decimal_reads_back(n: nat)
    ensures
        worth(decimal(n)) == n,
        decimal(n).len() > 0,
        forall|i: int| 0 <= i < decimal(n).len() ==> '0' <= #[trigger] decimal(n)[i] <= '9',
        decimal(n)[0] == '0' <==> n == 0,
    decreases n,
{
    let last = digit(n % 10);
    assert(last as u32 == 48 + n % 10);
    if n < 10 {
        let empty = Seq::<char>::empty();
        assert(decimal(n) =~= empty.push(last));
        assert(decimal(n).drop_last() =~= empty);
        assert(worth(empty) == 0);
    } else {
        let front = decimal(n / 10);
        law_decimal_reads_back(n / 10);
        assert(decimal(n).drop_last() =~= front);
        assert(decimal(n).last() == last);
        assert forall|i: int| 0 <= i < decimal(n).len() implies '0' <= #[trigger] decimal(n)[i]
            <= '9' by {
            if i < front.len() {
                assert(decimal(n)[i] == front[i]);
            }
        }
        assert(decimal(n)[0] == front[0]);
    }
}

/// A number with a sign begins with a minus exactly if it is negative, and what follows stands for
/// its distance from zero.
pub proof fn law_sign_in_front(i: int)
    ensures
        signed_decimal(i).len() > 0,
        signed_decimal(i)[0] == '-' <==> i < 0,
        i < 0 ==> worth(signed_decimal(i).drop_first()) == -i,
        i >= 0 ==> worth(signed_decimal(i)) == i,
{
    if i < 0 {
        law_decimal_reads_back((-i) as nat);
        assert(signed_decimal(i).drop_first() =~= decimal((-i) as nat));
    } else {
        law_decimal_reads_back(i as nat);
        assert('0' <= decimal(i as nat)[0]);
    }
}

proof fn lemma_decimal_length(n: nat)
    requires
        n < 1000,
    ensures
        decimal(n).len() == (if n < 10 {
            1
        } else if n < 100 {
            2
        } else {
            3int
        }),
{
    reveal_with_fuel(decimal, 3);
}

/// A number below a thousand that is filled up takes three characters: the number at the end, and
/// in front of it nothing but the filling.
pub proof fn law_filled_to_three(n: nat, fill: char)
    requires
        n < 1000,
    ensures
        padded(n, fill).len() == 3,
        decimal(n).len() <= 3,
        padded(n, fill).skip(3 - decimal(n).len()) == decimal(n),
        forall|i: int| 0 <= i < 3 - decimal(n).len() ==> #[trigger] padded(n, fill)[i] == fill,
{
    lemma_decimal_length(n);
    assert(padded(n, fill).skip(3 - decimal(n).len()) =~= decimal(n));
}

/// A line of the log shows its parts in fixed places: the seconds within a thousand from the second
/// character on, the milliseconds from the sixth, and the message from the eleventh.
pub proof fn law_log_line_layout(secs: u64, millis: u32, message: Seq<char>)
    requires
        millis < 1000,
    ensures
        ({
            let line = log_line_of(secs, millis, message);
            &&& line.len() == 10 + message.len()
            &&& line[0] == '['
            &&& line.subrange(1, 4) == padded((secs % 1000) as nat, ' ')
            &&& line[4] == '.'
            &&& line.subrange(5, 8) == padded(millis as nat, '0')
            &&& line[8] == ']'
            &&& line[9] == ' '
            &&& line.skip(10) == message
        }),
{
    reveal_strlit("[");
    reveal_strlit(".");
    reveal_strlit("] ");
    let line = log_line_of(secs, millis, message);
    law_filled_to_three((secs % 1000) as nat, ' ');
    law_filled_to_three(millis as nat, '0');
    assert(line.subrange(1, 4) =~= padded((secs % 1000) as nat, ' '));
    assert(line.subrange(5, 8) =~= padded(millis as nat, '0'));
    assert(line.skip(10) =~= message);
}

} // verus!
