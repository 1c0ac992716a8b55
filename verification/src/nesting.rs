//! How deeply a TOML text can nest, found by one pass over its characters.
//!
//! The pass follows the text as a TOML tokenizer does, far enough to know
//! which brackets, braces and periods stand inside a string or a comment and
//! which open or close a level.

use vstd::prelude::*;

verus! {

/// Deepest nesting a text may reach and still be handed to the parser.
pub const MAX_NESTING: usize = 64;

/// Where in the text the pass stands.
///
/// `basic` tells a string in double quotes, which knows backslash escapes,
/// from a literal one in single quotes, which knows none.
#[derive(Clone, Copy, Debug)]
pub enum Lex {
    /// Outside strings and comments.
    Code,
    /// In a comment, up to the end of the line.
    Comment,
    /// Behind the quote that opens a string.
    Opened { basic: bool },
    /// Behind two quotes: an empty string, or the start of a multi-line one.
    OpenedTwice { basic: bool },
    /// In a string of one line; `escaped` behind a backslash.
    Line { basic: bool, escaped: bool },
    /// In a multi-line string, behind `quotes` quotes in a row.
    Block { basic: bool, escaped: bool, quotes: u8 },
    /// Behind the three quotes that close a multi-line string: up to two
    /// more belong to it, and `extra` of them have been read.
    Closing { basic: bool, extra: u8 },
}

/// The state of the pass: the place, the brackets and braces that are open,
/// the periods read on the line so far, and the largest sum of the two
/// numbers that was reached.
pub struct Scan {
    pub lex: Lex,
    pub depth: nat,
    pub dots: nat,
    pub peak: nat,
}

/// The quote that delimits a string of the kind.
pub open spec fn delimiter(basic: bool) -> char {
    if basic {
        '"'
    } else {
        '\''
    }
}

/// The place after a character read outside strings and comments.
pub open spec fn code_lex(c: char) -> Lex {
    if c == '#' {
        Lex::Comment
    } else if c == '"' {
        Lex::Opened { basic: true }
    } else if c == '\'' {
        Lex::Opened { basic: false }
    } else {
        Lex::Code
    }
}

/// The place after a character read inside a string of one line.
pub open spec fn line_lex(basic: bool, escaped: bool, c: char) -> Lex {
    if escaped {
        Lex::Line { basic, escaped: false }
    } else if c == delimiter(basic) || c == '\n' {
        Lex::Code
    } else {
        Lex::Line { basic, escaped: basic && c == '\\' }
    }
}

/// Whether the character is read outside strings and comments. The end of
/// the line that ends a comment is.
pub open spec fn reads_code(lex: Lex, c: char) -> bool {
    match lex {
        Lex::Code => true,
        Lex::Comment => c == '\n',
        Lex::OpenedTwice { basic } => c != delimiter(basic),
        Lex::Closing { basic, extra } => c != delimiter(basic),
        _ => false,
    }
}

/// The place after one more character.
pub open spec fn next_lex(lex: Lex, c: char) -> Lex {
    match lex {
        Lex::Code => code_lex(c),
        Lex::Comment => if c == '\n' {
            Lex::Code
        } else {
            Lex::Comment
        },
        Lex::Opened { basic } => if c == delimiter(basic) {
            Lex::OpenedTwice { basic }
        } else {
            line_lex(basic, false, c)
        },
        Lex::OpenedTwice { basic } => if c == delimiter(basic) {
            Lex::Block { basic, escaped: false, quotes: 0 }
        } else {
            code_lex(c)
        },
        Lex::Line { basic, escaped } => line_lex(basic, escaped, c),
        Lex::Block { basic, escaped, quotes } => if escaped {
            Lex::Block { basic, escaped: false, quotes: 0 }
        } else if c == delimiter(basic) {
            if quotes >= 2 {
                Lex::Closing { basic, extra: 0 }
            } else {
                Lex::Block { basic, escaped: false, quotes: (quotes + 1) as u8 }
            }
        } else {
            Lex::Block { basic, escaped: basic && c == '\\', quotes: 0 }
        },
        Lex::Closing { basic, extra } => if c == delimiter(basic) {
            if extra >= 1 {
                Lex::Code
            } else {
                Lex::Closing { basic, extra: 1 }
            }
        } else {
            code_lex(c)
        },
    }
}

/// The open brackets and braces after a character read outside strings.
pub open spec fn next_depth(depth: nat, c: char) -> nat {
    if c == '[' || c == '{' {
        depth + 1
    } else if (c == ']' || c == '}') && depth > 0 {
        (depth - 1) as nat
    } else {
        depth
    }
}

/// The periods of the line after a character read outside strings: a line
/// ends where no bracket or brace is open.
pub open spec fn next_dots(depth: nat, dots: nat, c: char) -> nat {
    if c == '.' {
        dots + 1
    } else if c == '\n' && depth == 0 {
        0
    } else {
        dots
    }
}

/// The state of the pass after one more character.
pub open spec fn step(scan: Scan, c: char) -> Scan {
    let lex = next_lex(scan.lex, c);
    if reads_code(scan.lex, c) {
        let depth = next_depth(scan.depth, c);
        let dots = next_dots(scan.depth, scan.dots, c);
        Scan { lex, depth, dots, peak: if depth + dots > scan.peak {
            depth + dots
        } else {
            scan.peak
        } }
    } else {
        Scan { lex, ..scan }
    }
}

/// The state of the pass at the end of a text.
pub open spec fn scan(text: Seq<char>) -> Scan
    decreases text.len(),
{
    if text.len() == 0 {
        Scan { lex: Lex::Code, depth: 0, dots: 0, peak: 0 }
    } else {
        step(scan(text.drop_last()), text.last())
    }
}

/// The deepest a text nests: the most brackets and braces open at once
/// outside strings and comments, counted together with the periods of the
/// line they stand on.
pub open spec fn peak_nesting(text: Seq<char>) -> nat {
    scan(text).peak
}

/// The peak of a text is no less than that of a part from its start, and the
/// counts of the pass never pass the peak.
pub proof fn lemma_peak_grows(text: Seq<char>, k: int)
    requires
        0 <= k <= text.len(),
    ensures
        peak_nesting(text.take(k)) <= peak_nesting(text),
        scan(text).depth + scan(text).dots <= peak_nesting(text),
    decreases text.len(),
{
    if text.len() == 0 {
        assert(text.take(k) =~= text);
    } else if k == text.len() {
        assert(text.take(k) =~= text);
        lemma_peak_grows(text.drop_last(), 0);
    } else {
        lemma_peak_grows(text.drop_last(), k);
        assert(text.drop_last().take(k) =~= text.take(k));
    }
}

/// The place after one more character.
fn advance(lex: Lex, c: char) -> (next: Lex)
    ensures
        next == next_lex(lex, c),
{
    match lex {
        Lex::Code => after_code(c),
        Lex::Comment => if c == '\n' {
            Lex::Code
        } else {
            Lex::Comment
        },
        Lex::Opened { basic } => if c == quote(basic) {
            Lex::OpenedTwice { basic }
        } else {
            after_line(basic, false, c)
        },
        Lex::OpenedTwice { basic } => if c == quote(basic) {
            Lex::Block { basic, escaped: false, quotes: 0 }
        } else {
            after_code(c)
        },
        Lex::Line { basic, escaped } => after_line(basic, escaped, c),
        Lex::Block { basic, escaped, quotes } => if escaped {
            Lex::Block { basic, escaped: false, quotes: 0 }
        } else if c == quote(basic) {
            if quotes >= 2 {
                Lex::Closing { basic, extra: 0 }
            } else {
                Lex::Block { basic, escaped: false, quotes: quotes + 1 }
            }
        } else {
            Lex::Block { basic, escaped: basic && c == '\\', quotes: 0 }
        },
        Lex::Closing { basic, extra } => if c == quote(basic) {
            if extra >= 1 {
                Lex::Code
            } else {
                Lex::Closing { basic, extra: 1 }
            }
        } else {
            after_code(c)
        },
    }
}

/// The quote that delimits a string of the kind.
fn quote(basic: bool) -> (c: char)
    ensures
        c == delimiter(basic),
{
    if basic {
        '"'
    } else {
        '\''
    }
}

/// The place after a character read outside strings and comments.
fn after_code(c: char) -> (next: Lex)
    ensures
        next == code_lex(c),
{
    if c == '#' {
        Lex::Comment
    } else if c == '"' {
        Lex::Opened { basic: true }
    } else if c == '\'' {
        Lex::Opened { basic: false }
    } else {
        Lex::Code
    }
}

/// The place after a character read inside a string of one line.
fn after_line(basic: bool, escaped: bool, c: char) -> (next: Lex)
    ensures
        next == line_lex(basic, escaped, c),
{
    if escaped {
        Lex::Line { basic, escaped: false }
    } else if c == quote(basic) || c == '\n' {
        Lex::Code
    } else {
        Lex::Line { basic, escaped: basic && c == '\\' }
    }
}

/// Whether the character is read outside strings and comments.
fn in_code(lex: Lex, c: char) -> (r: bool)
    ensures
        r == reads_code(lex, c),
{
    match lex {
        Lex::Code => true,
        Lex::Comment => c == '\n',
        Lex::OpenedTwice { basic } => c != quote(basic),
        Lex::Closing { basic, extra: _ } => c != quote(basic),
        _ => false,
    }
}

/// Tells whether a text nests no deeper than `limit`.
pub fn nests_within(text: &str, limit: usize) -> (r: bool)
    ensures
        r == (peak_nesting(text@) <= limit),
{
    broadcast use vstd::string::axiom_spec_iter;

    let mut lex = Lex::Code;
    let mut depth: usize = 0;
    let mut dots: usize = 0;
    for c in iter: text.chars()
        invariant
            iter.seq() == text@,
            lex == scan(text@.take(iter.index())).lex,
            depth == scan(text@.take(iter.index())).depth,
            dots == scan(text@.take(iter.index())).dots,
            peak_nesting(text@.take(iter.index())) <= limit,
    {
        proof {
            let read = iter.index();
            assert(text@.take(read + 1).drop_last() =~= text@.take(read));
            assert(text@.take(read + 1).last() == c);
            lemma_peak_grows(text@.take(read), read);
            lemma_peak_grows(text@, read + 1);
        }
        if in_code(lex, c) {
            if c == '.' || c == '[' || c == '{' {
                if depth + dots >= limit {
                    return false;
                }
                if c == '.' {
                    dots = dots + 1;
                } else {
                    depth = depth + 1;
                }
            } else if c == '\n' && depth == 0 {
                dots = 0;
            } else if (c == ']' || c == '}') && depth > 0 {
                depth = depth - 1;
            }
        }
        lex = advance(lex, c);
    }
    proof {
        assert(text@.take(text@.len() as int) =~= text@);
    }
    true
}

/// Tells whether a text nests no deeper than `MAX_NESTING`.
pub fn shallow(text: &str) -> (r: bool)
    ensures
        r == (peak_nesting(text@) <= MAX_NESTING),
{
    nests_within(text, MAX_NESTING)
}

} // verus!
