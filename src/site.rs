//! Source positions of calls and their textual rendering `file:line:column`.
use vstd::prelude::*;

verus! {

/// The character of a single decimal digit.
pub open spec fn digit_char(d: nat) -> char {
    if d == 0 {
        '0'
    } else if d == 1 {
        '1'
    } else if d == 2 {
        '2'
    } else if d == 3 {
        '3'
    } else if d == 4 {
        '4'
    } else if d == 5 {
        '5'
    } else if d == 6 {
        '6'
    } else if d == 7 {
        '7'
    } else if d == 8 {
        '8'
    } else {
        '9'
    }
}

/// The decimal notation of `n`, most significant digit first, without leading zeros.
pub open spec fn decimal(n: nat) -> Seq<char>
    decreases n,
{
    if n < 10 {
        seq![digit_char(n)]
    } else {
        decimal(n / 10).push(digit_char(n % 10))
    }
}

/// The one-character string of a decimal digit.
fn digit_str(d: u32) -> (r: &'static str)
    requires
        d < 10,
    ensures
        r@ == seq![digit_char(d as nat)],
{
    proof {
        reveal_strlit("0");
        reveal_strlit("1");
        reveal_strlit("2");
        reveal_strlit("3");
        reveal_strlit("4");
        reveal_strlit("5");
        reveal_strlit("6");
        reveal_strlit("7");
        reveal_strlit("8");
        reveal_strlit("9");
    }
    if d == 0 {
        "0"
    } else if d == 1 {
        "1"
    } else if d == 2 {
        "2"
    } else if d == 3 {
        "3"
    } else if d == 4 {
        "4"
    } else if d == 5 {
        "5"
    } else if d == 6 {
        "6"
    } else if d == 7 {
        "7"
    } else if d == 8 {
        "8"
    } else {
        "9"
    }
}

/// Appends the decimal notation of `n` to `out`.
pub fn push_decimal(out: &mut String, n: u32)
    ensures
        final(out)@ == old(out)@ + decimal(n as nat),
    decreases n,
{
    if n >= 10 {
        push_decimal(out, n / 10);
    }
    out.append(digit_str(n % 10));
    assert(out@ =~= old(out)@ + decimal(n as nat));
}

/// The rendering of a source position: the file, the line and the column,
/// separated by colons.
pub open spec fn site_text(file: Seq<char>, line: nat, column: nat) -> Seq<char> {
    file + seq![':'] + decimal(line) + seq![':'] + decimal(column)
}

/// The source position of a call: the file, and the line and column within it.
pub struct CallSite<'a> {
    pub file: &'a str,
    pub line: u32,
    pub column: u32,
}

impl<'a> CallSite<'a> {
    /// How this position reads in a warning line.
    pub open spec fn text(&self) -> Seq<char> {
        site_text(self.file@, self.line as nat, self.column as nat)
    }

    /// Makes the position `file:line:column`.
    pub fn new(file: &'a str, line: u32, column: u32) -> (r: CallSite<'a>)
        ensures
            r.file@ == file@,
            r.line == line,
            r.column == column,
    {
        CallSite { file, line, column }
    }

    /// Renders this position as `file:line:column`.
    pub fn render(&self) -> (r: String)
        ensures
            r@ == self.text(),
    {
        let mut out = String::from_str(self.file);
        proof {
            reveal_strlit(":");
        }
        out.append(":");
        push_decimal(&mut out, self.line);
        out.append(":");
        push_decimal(&mut out, self.column);
        out
    }
}

} // verus!
