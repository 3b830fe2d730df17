//! Text that the library reads and writes: names brought to a normal form
//! before they are looked up, and numbers written in decimal.

use vstd::prelude::*;
use vstd::string::StringExecFns;

verus! {

/// The characters of `s` that are not `c`, in their order.
pub open spec fn without(s: Seq<char>, c: char) -> Seq<char> {
    s.filter(|x: char| x != c)
}

/// The upper-case form of a text as `str::to_uppercase` gives it: each
/// character replaced by its Unicode upper-case mapping, which may be longer
/// than one character.
pub uninterp spec fn uppercase(s: Seq<char>) -> Seq<char>;

/// The form in which a name is looked up: without its spaces, in upper case.
pub open spec fn normalized(s: Seq<char>) -> Seq<char> {
    uppercase(without(s, ' '))
}

/// Calls `str::replace` with the pattern `c` and an empty replacement.
/// Trusted: every occurrence of `c` is a match and is replaced by nothing, so
/// the characters that are left are those that differ from `c`, in their order.
#[verifier::external_body]
fn remove_char(s: &str, c: char) -> (r: String)
    ensures
        r@ == without(s@, c),
{
    s.replace(c, "")
}

/// Calls `str::to_uppercase`. Trusted: the result depends on the characters of
/// `s` alone; `uppercase` is the name of that result.
#[verifier::external_body]
fn to_uppercase(s: &str) -> (r: String)
    ensures
        r@ == uppercase(s@),
{
    s.to_uppercase()
}

/// Brings a name to the form in which it is looked up.
pub fn normalize(s: &str) -> (r: String)
    ensures
        r@ == normalized(s@),
{
    let stripped = remove_char(s, ' ');
    to_uppercase(stripped.as_str())
}

/// Whether two texts have the same characters.
pub fn same_text(a: &str, b: &str) -> (r: bool)
    ensures
        r == (a@ == b@),
{
    String::from_str(a) == String::from_str(b)
}

/// The character of the decimal digit `d`.
pub open spec fn digit(d: nat) -> char {
    seq!['0', '1', '2', '3', '4', '5', '6', '7', '8', '9'][d as int]
}

/// The decimal form of `n`, without leading zeros.
pub open spec fn decimal(n: nat) -> Seq<char>
    decreases n,
{
    if n < 10 {
        seq![digit(n)]
    } else {
        decimal(n / 10).push(digit(n % 10))
    }
}

fn digit_str(d: u8) -> (s: &'static str)
    requires
        d < 10,
    ensures
        s@ == seq![digit(d as nat)],
{
    proof {
        reveal_strlit("0");
        reveal_strlit("1");
        reveal_strlit("2");
        reveal_strlit("3");
        reveal_strlit("4");
        reveal_strlit("5");
        reveal_strlit("6");
        reveal_strlit("7");
        reveal_strlit("8");
        reveal_strlit("9");
    }
    let s = match d {
        0 => "0",
        1 => "1",
        2 => "2",
        3 => "3",
        4 => "4",
        5 => "5",
        6 => "6",
        7 => "7",
        8 => "8",
        _ => "9",
    };
    assert(s@ =~= seq![digit(d as nat)]);
    s
}

/// Writes `n` in decimal.
pub fn decimal_string(n: u16) -> (s: String)
    ensures
        s@ == decimal(n as nat),
    decreases n,
{
    if n < 10 {
        String::from_str(digit_str(n as u8))
    } else {
        let head = decimal_string(n / 10);
        let last = digit_str((n % 10) as u8);
        assert(decimal((n / 10) as nat) + last@ =~= decimal((n / 10) as nat).push(
            digit((n % 10) as nat),
        ));
        head.concat(last)
    }
}

} // verus!
