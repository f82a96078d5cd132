//! Messages for parse faults, and the caret diagnostics that show where they are.

use vstd::prelude::*;
use vstd::string::*;
use crate::dim::dim_text;
use crate::parse::{KindModel, ParseError, ParseErrorKind};
use crate::text::{push_char, push_spaces, spaces};

verus! {

/// The message of a fault.
pub open spec fn kind_message(k: KindModel) -> Seq<char> {
    match k {
        KindModel::Empty => "Line is empty"@,
        KindModel::InvalidNumber => "Invalid number"@,
        KindModel::InvalidExponent => "Invalid exponent"@,
        KindModel::MissingTo => "Missing 'to'"@,
        KindModel::BadSyntax(m) => "Bad syntax "@ + m,
        KindModel::UnknownUnit(u) => "Unknown unit: "@ + u,
        KindModel::IncompatibleDim(a, b) => "Incompatible dimension from:"@ + dim_text(a) + " to:"@
            + dim_text(b),
        KindModel::AuToAu => "Au to Au not supported"@,
        KindModel::AuMustSingle => "Au must be single"@,
        KindModel::UnexpectedNumber => "Unexpected Number"@,
        KindModel::UnexpectedChar(c) => "Unexpected Char "@.push(c),
    }
}

/// `s` without the line breaks (`\n`, `\r`) at its end.
pub open spec fn trim_breaks(s: Seq<char>) -> Seq<char>
    decreases s.len(),
{
    if s.len() > 0 && (s.last() == '\n' || s.last() == '\r') {
        trim_breaks(s.drop_last())
    } else {
        s
    }
}

/// The caret line: the message under the fault's offset, or the message alone.
pub open spec fn caret_line(pos: Option<usize>, k: KindModel) -> Seq<char> {
    match pos {
        Some(p) => spaces(p as nat) + "^---"@ + kind_message(k),
        None => kind_message(k),
    }
}

/// The diagnostic: for a fault with a position, the line and then the caret
/// line; for one without, the message alone. Each line ends with a line break.
pub open spec fn diagnostic_text(line: Seq<char>, pos: Option<usize>, k: KindModel) -> Seq<char> {
    match pos {
        Some(p) => trim_breaks(line) + seq!['\n'] + caret_line(pos, k) + seq!['\n'],
        None => kind_message(k) + seq!['\n'],
    }
}

/// The caret line under a prompt six columns wide.
pub open spec fn prompt_text(pos: Option<usize>, k: KindModel) -> Seq<char> {
    match pos {
        Some(p) => spaces(6) + caret_line(pos, k),
        None => kind_message(k),
    }
}

impl ParseErrorKind {
    pub fn message(&self) -> (r: String)
        ensures
            r@ == kind_message(self@),
    {
        match self {
            ParseErrorKind::Empty => String::from_str("Line is empty"),
            ParseErrorKind::InvalidNumber => String::from_str("Invalid number"),
            ParseErrorKind::InvalidExponent => String::from_str("Invalid exponent"),
            ParseErrorKind::MissingTo => String::from_str("Missing 'to'"),
            ParseErrorKind::BadSyntax(m) => {
                let mut r = String::from_str("Bad syntax ");
                r.append(m.as_str());
                r
            },
            ParseErrorKind::UnknownUnit(u) => {
                let mut r = String::from_str("Unknown unit: ");
                r.append(u.as_str());
                r
            },
            ParseErrorKind::IncompatibleDim(a, b) => {
                let mut r = String::from_str("Incompatible dimension from:");
                let ra = a.render();
                r.append(ra.as_str());
                r.append(" to:");
                let rb = b.render();
                r.append(rb.as_str());
                r
            },
            ParseErrorKind::AuToAu => String::from_str("Au to Au not supported"),
            ParseErrorKind::AuMustSingle => String::from_str("Au must be single"),
            ParseErrorKind::UnexpectedNumber => String::from_str("Unexpected Number"),
            ParseErrorKind::UnexpectedChar(c) => {
                let mut r = String::from_str("Unexpected Char ");
                push_char(&mut r, *c);
                r
            },
        }
    }
}

fn push_caret_line(out: &mut String, pos: Option<usize>, kind: &ParseErrorKind)
    ensures
        final(out)@ == old(out)@ + caret_line(pos, kind@),
{
    let m = kind.message();
    match pos {
        Some(p) => {
            let ghost before = out@;
            push_spaces(out, p);
            out.append("^---");
            out.append(m.as_str());
            assert(out@ =~= before + (spaces(p as nat) + "^---"@ + kind_message(kind@)));
        },
        None => {
            out.append(m.as_str());
        },
    }
}

impl ParseError {
    /// The caret line for an interactive prompt six columns wide.
    pub fn format_repl(&self) -> (r: String)
        ensures
            r@ == prompt_text(self.pos, self.kind@),
    {
        match self.pos {
            Some(p) => {
                let mut out = String::new();
                push_spaces(&mut out, 6);
                push_caret_line(&mut out, self.pos, &self.kind);
                assert(out@ =~= spaces(6) + caret_line(self.pos, self.kind@));
                out
            },
            None => self.kind.message(),
        }
    }

    /// The full diagnostic: for a fault with a position, the line without its
    /// trailing line breaks and then the caret line; for one without, the
    /// message alone. Each line ends with a line break.
    pub fn render(&self) -> (r: String)
        ensures
            r@ == diagnostic_text(self.line@, self.pos, self.kind@),
    {
        if self.pos.is_none() {
            let mut out = self.kind.message();
            push_char(&mut out, '\n');
            return out;
        }
        let chars = crate::text::chars_of(self.line.as_str());
        let mut end = chars.len();
        assert(chars@.subrange(0, end as int) =~= chars@);
        while end > 0 && (chars[end - 1] == '\n' || chars[end - 1] == '\r')
            invariant
                end <= chars@.len(),
                chars@ == self.line@,
                trim_breaks(self.line@) == trim_breaks(chars@.subrange(0, end as int)),
            decreases end,
        {
            assert(chars@.subrange(0, end as int).drop_last() =~= chars@.subrange(0, end - 1));
            end = end - 1;
        }
        let mut out = String::from_str(self.line.as_str().substring_char(0, end));
        assert(out@ == trim_breaks(self.line@));
        push_char(&mut out, '\n');
        push_caret_line(&mut out, self.pos, &self.kind);
        push_char(&mut out, '\n');
        assert(out@ =~= diagnostic_text(self.line@, self.pos, self.kind@));
        out
    }
}

} // verus!
