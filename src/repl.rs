//! Interpretation of one line typed at the interactive prompt.

use vstd::prelude::*;
use vstd::string::*;
use crate::diagnostic::prompt_text;
use crate::parse::{ConversionExpr, ExprModel, byte_offset, parse_expr, parse_spec, skip_ws};
use crate::text::{char_is_whitespace, chars_of, is_white};

verus! {

/// A line at the prompt: a command, a conversion, or a message to show.
#[derive(Debug)]
pub enum ReplCmd {
    Help,
    Exit,
    List(Option<String>),
    Expr(ConversionExpr),
    Invalid(String),
    Empty,
}

pub enum CmdModel {
    Help,
    Exit,
    List(Option<Seq<char>>),
    Expr(ExprModel),
    Invalid(Seq<char>),
    Empty,
}

impl View for ReplCmd {
    type V = CmdModel;

    open spec fn view(&self) -> CmdModel {
        match self {
            ReplCmd::Help => CmdModel::Help,
            ReplCmd::Exit => CmdModel::Exit,
            ReplCmd::List(None) => CmdModel::List(None),
            ReplCmd::List(Some(g)) => CmdModel::List(Some(g@)),
            ReplCmd::Expr(e) => CmdModel::Expr(e@),
            ReplCmd::Invalid(m) => CmdModel::Invalid(m@),
            ReplCmd::Empty => CmdModel::Empty,
        }
    }
}

/// The end of the run of non-whitespace from `i`.
pub open spec fn word_end(s: Seq<char>, i: int) -> int
    decreases s.len() - i,
{
    if 0 <= i < s.len() && !is_white(s[i]) {
        word_end(s, i + 1)
    } else {
        i
    }
}

/// The end of `s[..j]` without its trailing whitespace, not before `lo`.
pub open spec fn trim_end(s: Seq<char>, lo: int, j: int) -> int
    decreases j - lo,
{
    if j > lo && is_white(s[j - 1]) {
        trim_end(s, lo, j - 1)
    } else {
        j
    }
}

/// `s` without leading and trailing whitespace.
pub open spec fn trimmed(s: Seq<char>) -> Seq<char> {
    let a = skip_ws(s, 0);
    s.subrange(a, trim_end(s, a, s.len() as int))
}

/// What a line at the prompt means.
pub open spec fn repl_spec(s: Seq<char>) -> CmdModel {
    let t = trimmed(s);
    let a0 = skip_ws(t, 0);
    let b0 = word_end(t, a0);
    let a1 = skip_ws(t, b0);
    let b1 = word_end(t, a1);
    let a2 = skip_ws(t, b1);
    let head = t.subrange(a0, b0);
    if t.len() == 0 {
        CmdModel::Empty
    } else if head == "help"@ {
        CmdModel::Help
    } else if head == "list"@ {
        if a2 < t.len() {
            CmdModel::Invalid("usage: list [group]"@)
        } else if a1 < t.len() {
            CmdModel::List(Some(t.subrange(a1, b1)))
        } else {
            CmdModel::List(None)
        }
    } else if head == "exit"@ || head == "quit"@ {
        CmdModel::Exit
    } else {
        match parse_spec(t) {
            Ok(m) => CmdModel::Expr(m),
            Err(m) => CmdModel::Invalid(
                prompt_text(
                    match m.at {
                        Some(i) => Some(byte_offset(t, i) as usize),
                        None => None,
                    },
                    m.kind,
                ),
            ),
        }
    }
}

fn skip_white(c: &Vec<char>, i: usize) -> (r: usize)
    requires
        i <= c@.len(),
    ensures
        r == skip_ws(c@, i as int),
        i <= r <= c@.len(),
{
    let mut j = i;
    while j < c.len() && char_is_whitespace(c[j])
        invariant
            i <= j <= c@.len(),
            skip_ws(c@, i as int) == skip_ws(c@, j as int),
        decreases c@.len() - j,
    {
        j = j + 1;
    }
    j
}

fn scan_word(c: &Vec<char>, i: usize) -> (r: usize)
    requires
        i <= c@.len(),
    ensures
        r == word_end(c@, i as int),
        i <= r <= c@.len(),
{
    let mut j = i;
    while j < c.len() && !char_is_whitespace(c[j])
        invariant
            i <= j <= c@.len(),
            word_end(c@, i as int) == word_end(c@, j as int),
        decreases c@.len() - j,
    {
        j = j + 1;
    }
    j
}

/// Reads a line typed at the prompt: `help`, `list [group]`, `exit` or `quit`,
/// or else a conversion, parsed from the line without surrounding whitespace.
pub fn parse_repl(line: &str) -> (r: ReplCmd)
    ensures
        r@ == repl_spec(line@),
{
    let c = chars_of(line);
    let a = skip_white(&c, 0);
    let mut e = c.len();
    while e > a && char_is_whitespace(c[e - 1])
        invariant
            a <= e <= c@.len(),
            trim_end(c@, a as int, c@.len() as int) == trim_end(c@, a as int, e as int),
        decreases e - a,
    {
        e = e - 1;
    }
    let t = line.substring_char(a, e);
    let tc = chars_of(t);
    if tc.len() == 0 {
        return ReplCmd::Empty;
    }
    let a0 = skip_white(&tc, 0);
    let b0 = scan_word(&tc, a0);
    let a1 = skip_white(&tc, b0);
    let b1 = scan_word(&tc, a1);
    let a2 = skip_white(&tc, b1);
    if crate::catalog::spells(&tc, a0, b0, "help") {
        ReplCmd::Help
    } else if crate::catalog::spells(&tc, a0, b0, "list") {
        if a2 < tc.len() {
            ReplCmd::Invalid(String::from_str("usage: list [group]"))
        } else if a1 < tc.len() {
            ReplCmd::List(Some(String::from_str(t.substring_char(a1, b1))))
        } else {
            ReplCmd::List(None)
        }
    } else if crate::catalog::spells(&tc, a0, b0, "exit") || crate::catalog::spells(&tc, a0, b0, "quit") {
        ReplCmd::Exit
    } else {
        match parse_expr(t) {
            Ok(expr) => ReplCmd::Expr(expr),
            Err(err) => ReplCmd::Invalid(err.format_repl()),
        }
    }
}

} // verus!
