//! Texts: comparing, joining and writing numbers.

use vstd::prelude::*;

verus! {

/// The texts of a list of strings.
pub open spec fn text_seq(strings: Seq<String>) -> Seq<Seq<char>> {
    Seq::new(strings.len(), |i: int| strings[i]@)
}

/// The texts one after the other, with a line break between two of them.
pub open spec fn lines(parts: Seq<Seq<char>>) -> Seq<char>
    decreases parts.len(),
{
    if parts.len() == 0 {
        Seq::empty()
    } else if parts.len() == 1 {
        parts[0]
    } else {
        lines(parts.drop_last()) + seq!['\n'] + parts.last()
    }
}

/// Whether a text stays on one line: it holds no line break, nor any other character below
/// the space.
pub open spec fn is_line(text: Seq<char>) -> bool {
    forall|i: int| 0 <= i < text.len() ==> #[trigger] text[i] >= ' '
}

/// A decimal digit.
pub open spec fn digit(n: nat) -> char {
    if n == 0 {
        '0'
    } else if n == 1 {
        '1'
    } else if n == 2 {
        '2'
    } else if n == 3 {
        '3'
    } else if n == 4 {
        '4'
    } else if n == 5 {
        '5'
    } else if n == 6 {
        '6'
    } else if n == 7 {
        '7'
    } else if n == 8 {
        '8'
    } else {
        '9'
    }
}

/// A number in decimal notation.
pub open spec fn decimal(n: nat) -> Seq<char>
    decreases n,
{
    if n < 10 {
        seq![digit(n)]
    } else {
        decimal(n / 10).push(digit(n % 10))
    }
}

/// Whether two texts are the same.
pub fn same_text(a: &str, b: &str) -> (same: bool)
    ensures
        same == (a@ == b@),
{
    a.to_owned() == b.to_owned()
}

/// One text after the other.
pub fn joined(a: &str, b: &str) -> (text: String)
    ensures
        text@ == a@ + b@,
{
    a.to_owned().concat(b)
}

/// A text between two others.
pub fn enclosed(before: &str, middle: &str, after: &str) -> (text: String)
    ensures
        text@ == before@ + middle@ + after@,
{
    before.to_owned().concat(middle).concat(after)
}

fn digit_text(n: u32) -> (text: String)
    requires
        n < 10,
    ensures
        text@ == seq![digit(n as nat)],
{
    proof {
        reveal_strlit("0");
        reveal_strlit("1");
        reveal_strlit("2");
        reveal_strlit("3");
        reveal_strlit("4");
        reveal_strlit("5");
        reveal_strlit("6");
        reveal_strlit("7");
        reveal_strlit("8");
        reveal_strlit("9");
    }
    let text = if n == 0 {
        "0"
    } else if n == 1 {
        "1"
    } else if n == 2 {
        "2"
    } else if n == 3 {
        "3"
    } else if n == 4 {
        "4"
    } else if n == 5 {
        "5"
    } else if n == 6 {
        "6"
    } else if n == 7 {
        "7"
    } else if n == 8 {
        "8"
    } else {
        "9"
    };
    assert(text@ =~= seq![digit(n as nat)]);
    text.to_owned()
}

/// Writes a number in decimal notation.
pub fn decimal_text(n: u32) -> (text: String)
    ensures
        text@ == decimal(n as nat),
    decreases n,
{
    if n < 10 {
        digit_text(n)
    } else {
        let head = decimal_text(n / 10);
        let last = digit_text(n % 10);
        let text = head.concat(last.as_str());
        assert(text@ =~= decimal((n / 10) as nat).push(digit((n % 10) as nat)));
        text
    }
}

/// Joins texts with a line break between two of them.
pub fn join_lines(parts: &Vec<String>) -> (text: String)
    ensures
        text@ == lines(text_seq(parts@)),
{
    proof {
        reveal_strlit("\n");
        assert("\n"@ =~= seq!['\n']);
    }
    let mut text = String::new();
    let mut i: usize = 0;
    while i < parts.len()
        invariant
            i <= parts@.len(),
            text@ == lines(text_seq(parts@).take(i as int)),
            "\n"@ == seq!['\n'],
        decreases parts@.len() - i,
    {
        let ghost before = text_seq(parts@).take(i as int);
        let ghost after = text_seq(parts@).take(i + 1);
        if i > 0 {
            text.append("\n");
        }
        text.append(parts[i].as_str());
        proof {
            assert(after.drop_last() =~= before);
            if i == 0 {
                assert(after[0] == parts@[0]@);
                assert(text@ =~= after[0]);
            }
        }
        i += 1;
    }
    assert(text_seq(parts@).take(i as int) =~= text_seq(parts@));
    text
}

} // verus!
