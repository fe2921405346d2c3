//! The task record and the one-line text form in which a task is listed.
use vstd::prelude::*;
use vstd::string::*;

verus! {

/// One task: its id, assigned by the storage engine, its description and
/// whether it has been completed.
#[derive(Debug, Clone, PartialEq, Eq)]
pub struct Task {
    pub id: i64,
    pub description: String,
    pub completed: bool,
}

/// The character of a decimal digit.
pub open spec fn digit_char(d: nat) -> char {
    seq!['0', '1', '2', '3', '4', '5', '6', '7', '8', '9'][d as int]
}

/// The decimal digits of a natural number, most significant first, without
/// leading zeros.
pub open spec fn natural_digits(n: nat) -> Seq<char>
    decreases n,
{
    if n < 10 {
        seq![digit_char(n)]
    } else {
        natural_digits(n / 10).push(digit_char(n % 10))
    }
}

/// The decimal form of an integer, with a leading `-` when it is negative.
pub open spec fn decimal(n: int) -> Seq<char> {
    if n < 0 {
        seq!['-'] + natural_digits((-n) as nat)
    } else {
        natural_digits(n as nat)
    }
}

/// The mark that shows whether a task is done: `x` when it is, a space when not.
pub open spec fn completion_mark(completed: bool) -> char {
    if completed {
        'x'
    } else {
        ' '
    }
}

/// The line that lists a task: `<id>: <description> [<mark>]`.
pub open spec fn task_line(t: Task) -> Seq<char> {
    decimal(t.id as int) + seq![':', ' '] + t.description@ + seq![
        ' ',
        '[',
        completion_mark(t.completed),
        ']',
    ]
}

fn digit_str(d: u64) -> (r: &'static str)
    requires
        d < 10,
    ensures
        r@ == seq![digit_char(d as nat)],
{
    proof {
        reveal_strlit("0");
        reveal_strlit("1");
        reveal_strlit("2");
        reveal_strlit("3");
        reveal_strlit("4");
        reveal_strlit("5");
        reveal_strlit("6");
        reveal_strlit("7");
        reveal_strlit("8");
        reveal_strlit("9");
    }
    let r = match d {
        0 => "0",
        1 => "1",
        2 => "2",
        3 => "3",
        4 => "4",
        5 => "5",
        6 => "6",
        7 => "7",
        8 => "8",
        _ => "9",
    };
    assert(r@ =~= seq![digit_char(d as nat)]);
    r
}

fn append_natural(out: &mut String, n: u64)
    ensures
        final(out)@ == old(out)@ + natural_digits(n as nat),
    decreases n,
{
    if n >= 10 {
        append_natural(out, n / 10);
    }
    let ghost before = out@;
    out.append(digit_str(n % 10));
    assert(out@ =~= old(out)@ + natural_digits(n as nat)) by {
        if n >= 10 {
            assert(before =~= old(out)@ + natural_digits((n / 10) as nat));
        }
    }
}

/// Appends the decimal form of `n` to `out`.
pub fn append_decimal(out: &mut String, n: i64)
    ensures
        final(out)@ == old(out)@ + decimal(n as int),
{
    if n < 0 {
        out.append("-");
        proof {
            reveal_strlit("-");
        }
        let magnitude: u64 = (-(n as i128)) as u64;
        append_natural(out, magnitude);
        assert(out@ =~= old(out)@ + decimal(n as int));
    } else {
        append_natural(out, n as u64);
    }
}

/// The line under which a task is listed: its id, a colon, its description
/// and `[x]` when it is completed or `[ ]` when it is not.
pub fn format_task(t: &Task) -> (r: String)
    ensures
        r@ == task_line(*t),
{
    let mut s = String::new();
    append_decimal(&mut s, t.id);
    s.append(": ");
    s.append(t.description.as_str());
    if t.completed {
        s.append(" [x]");
    } else {
        s.append(" [ ]");
    }
    proof {
        reveal_strlit(": ");
        reveal_strlit(" [x]");
        reveal_strlit(" [ ]");
    }
    assert(s@ =~= task_line(*t));
    s
}

} // verus!
