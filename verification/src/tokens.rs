//! The flat token sequence that the `android_bridge!` grammar is read from.
//!
//! A token tree is written out in order; a delimited group becomes an `Open`
//! token, the group's tokens, and a `Close` token.
use vstd::prelude::*;
use crate::text::{chars_of, eq_str, string_of};

verus! {

/// Delimiter of a token group.
#[derive(Debug, Clone, Copy, PartialEq, Eq, Structural)]
pub enum Delim {
    /// `( ... )`
    Paren,
    /// `{ ... }`
    Brace,
    /// `[ ... ]`
    Bracket,
    /// A group without visible delimiters.
    Invisible,
}

/// One token of the macro input.
#[derive(Debug)]
pub enum Tok {
    /// An identifier or keyword, as written (raw identifiers keep their `r#`).
    Ident { text: Vec<char> },
    /// A single punctuation character; `joint` when the next character belongs to the same operator.
    Punct { ch: char, joint: bool },
    /// A literal, as written.
    Lit { text: Vec<char> },
    /// Start of a delimited group.
    Open { delim: Delim },
    /// End of a delimited group.
    Close { delim: Delim },
}

/// Token `i` is the punctuation character `c`.
pub open spec fn is_punct(toks: Seq<Tok>, i: int, c: char) -> bool {
    0 <= i < toks.len() && (toks[i] matches Tok::Punct { ch, .. } && ch == c)
}

/// Token `i` is the punctuation character `c`, joined to the next one.
pub open spec fn is_joint_punct(toks: Seq<Tok>, i: int, c: char) -> bool {
    0 <= i < toks.len() && (toks[i] matches Tok::Punct { ch, joint } && ch == c && joint)
}

/// Token `i` is an identifier or keyword whose text is `s`.
pub open spec fn ident_is(toks: Seq<Tok>, i: int, s: Seq<char>) -> bool {
    0 <= i < toks.len() && (toks[i] matches Tok::Ident { text } && text@ == s)
}

/// Token `i` opens a group.
pub open spec fn is_open(toks: Seq<Tok>, i: int) -> bool {
    0 <= i < toks.len() && toks[i] is Open
}

/// Token `i` opens a group with delimiter `d`.
pub open spec fn is_open_with(toks: Seq<Tok>, i: int, d: Delim) -> bool {
    0 <= i < toks.len() && (toks[i] matches Tok::Open { delim } && delim == d)
}

/// Token `i` closes a group.
pub open spec fn is_close(toks: Seq<Tok>, i: int) -> bool {
    0 <= i < toks.len() && toks[i] is Close
}

/// The string that the literal written as `text` denotes, escapes resolved, as syn's
/// `LitStr::value` gives it; `None` when `text` is not one string literal.
pub uninterp spec fn str_lit_value(text: Seq<char>) -> Option<Seq<char>>;

/// Calls `syn::parse_str::<syn::LitStr>` on `text`, then `LitStr::value`; the result is named
/// by `str_lit_value`.
#[verifier::external_body]
fn lit_str_value(text: &str) -> (r: Option<String>)
    ensures
        r is None <==> str_lit_value(text@) is None,
        r matches Some(v) ==> str_lit_value(text@) == Some(v@),
{
    syn::parse_str::<syn::LitStr>(text).ok().map(|s| s.value())
}

/// The string denoted by token `i`, when it is a string literal.
pub open spec fn lit_str(toks: Seq<Tok>, i: int) -> Option<Seq<char>> {
    if 0 <= i < toks.len() {
        match toks[i] {
            Tok::Lit { text } => str_lit_value(text@),
            _ => None,
        }
    } else {
        None
    }
}

/// Token `i` is a string literal.
pub open spec fn is_str_lit(toks: Seq<Tok>, i: int) -> bool {
    lit_str(toks, i) is Some
}

/// The source text of one token (a group's delimiter for `Open` and `Close`).
pub open spec fn tok_text(t: Tok) -> Seq<char> {
    match t {
        Tok::Ident { text } => text@,
        Tok::Punct { ch, .. } => seq![ch],
        Tok::Lit { text, .. } => text@,
        Tok::Open { delim } => match delim {
            Delim::Paren => seq!['('],
            Delim::Brace => seq!['{'],
            Delim::Bracket => seq!['['],
            Delim::Invisible => Seq::empty(),
        },
        Tok::Close { delim } => match delim {
            Delim::Paren => seq![')'],
            Delim::Brace => seq!['}'],
            Delim::Bracket => seq![']'],
            Delim::Invisible => Seq::empty(),
        },
    }
}

/// The texts of tokens `start .. end`, written one after the other.
pub open spec fn span_text(toks: Seq<Tok>, start: int, end: int) -> Seq<char>
    decreases end - start,
{
    if start >= end || end > toks.len() || start < 0 {
        Seq::empty()
    } else {
        span_text(toks, start, end - 1) + tok_text(toks[end - 1])
    }
}

/// Whether token `i` is the punctuation character `c`.
pub fn tok_is_punct(toks: &Vec<Tok>, i: usize, c: char) -> (r: bool)
    ensures
        r ==> i < toks.len(),
        r == is_punct(toks@, i as int, c),
{
    if i < toks.len() {
        match &toks[i] {
            Tok::Punct { ch, .. } => *ch == c,
            _ => false,
        }
    } else {
        false
    }
}

/// Whether token `i` is the punctuation character `c`, joined to the next.
pub fn tok_is_joint_punct(toks: &Vec<Tok>, i: usize, c: char) -> (r: bool)
    ensures
        r ==> i < toks.len(),
        r == is_joint_punct(toks@, i as int, c),
{
    if i < toks.len() {
        match &toks[i] {
            Tok::Punct { ch, joint } => *ch == c && *joint,
            _ => false,
        }
    } else {
        false
    }
}

/// Whether token `i` is an identifier or keyword spelled `lit`.
pub fn tok_ident_is(toks: &Vec<Tok>, i: usize, lit: &str) -> (r: bool)
    ensures
        r ==> i < toks.len(),
        r == ident_is(toks@, i as int, lit@),
{
    if i < toks.len() {
        match &toks[i] {
            Tok::Ident { text } => eq_str(text, lit),
            _ => false,
        }
    } else {
        false
    }
}

/// Whether token `i` opens a group.
pub fn tok_is_open(toks: &Vec<Tok>, i: usize) -> (r: bool)
    ensures
        r ==> i < toks.len(),
        r == is_open(toks@, i as int),
{
    i < toks.len() && matches!(&toks[i], Tok::Open { .. })
}

/// Whether token `i` opens a group delimited by `d`.
pub fn tok_is_open_with(toks: &Vec<Tok>, i: usize, d: Delim) -> (r: bool)
    ensures
        r ==> i < toks.len(),
        r == is_open_with(toks@, i as int, d),
{
    if i < toks.len() {
        match &toks[i] {
            Tok::Open { delim } => *delim == d,
            _ => false,
        }
    } else {
        false
    }
}

/// Whether token `i` closes a group.
pub fn tok_is_close(toks: &Vec<Tok>, i: usize) -> (r: bool)
    ensures
        r ==> i < toks.len(),
        r == is_close(toks@, i as int),
{
    i < toks.len() && matches!(&toks[i], Tok::Close { .. })
}

/// Whether token `i` is a string literal.
pub fn tok_is_str_lit(toks: &Vec<Tok>, i: usize) -> (r: bool)
    ensures
        r ==> i < toks.len(),
        r == is_str_lit(toks@, i as int),
{
    lit_str_at(toks, i).is_some()
}

/// The string denoted by token `i`, when it is a string literal.
pub fn lit_str_at(toks: &Vec<Tok>, i: usize) -> (r: Option<Vec<char>>)
    ensures
        r is None <==> lit_str(toks@, i as int) is None,
        r matches Some(v) ==> lit_str(toks@, i as int) == Some(v@),
        r is Some ==> i < toks.len(),
{
    if i < toks.len() {
        match &toks[i] {
            Tok::Lit { text } => {
                let s = string_of(text);
                match lit_str_value(s.as_str()) {
                    Some(v) => Some(chars_of(v.as_str())),
                    None => None,
                }
            },
            _ => None,
        }
    } else {
        None
    }
}

/// Appends the source text of token `t` to `out`.
pub fn push_tok_text(out: &mut Vec<char>, t: &Tok)
    ensures
        final(out)@ == old(out)@ + tok_text(*t),
{
    match t {
        Tok::Ident { text } => crate::text::append_chars(out, text),
        Tok::Lit { text, .. } => crate::text::append_chars(out, text),
        Tok::Punct { ch, .. } => {
            out.push(*ch);
            assert(old(out)@.push(*ch) =~= old(out)@ + seq![*ch]);
        },
        Tok::Open { delim } => {
            match delim {
                Delim::Paren => out.push('('),
                Delim::Brace => out.push('{'),
                Delim::Bracket => out.push('['),
                Delim::Invisible => {},
            }
            assert(final(out)@ =~= old(out)@ + tok_text(*t));
        },
        Tok::Close { delim } => {
            match delim {
                Delim::Paren => out.push(')'),
                Delim::Brace => out.push('}'),
                Delim::Bracket => out.push(']'),
                Delim::Invisible => {},
            }
            assert(final(out)@ =~= old(out)@ + tok_text(*t));
        },
    }
}

/// The texts of tokens `start .. end`, written one after the other.
pub fn span_text_of(toks: &Vec<Tok>, start: usize, end: usize) -> (r: Vec<char>)
    requires
        start <= end <= toks.len(),
    ensures
        r@ == span_text(toks@, start as int, end as int),
{
    let mut out: Vec<char> = Vec::new();
    let mut i = start;
    assert(out@ =~= span_text(toks@, start as int, start as int));
    while i < end
        invariant
            start <= i <= end <= toks.len(),
            out@ == span_text(toks@, start as int, i as int),
        decreases end - i,
    {
        push_tok_text(&mut out, &toks[i]);
        i = i + 1;
    }
    out
}

} // verus!
