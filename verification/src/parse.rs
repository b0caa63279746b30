//! The `android_bridge!` grammar, read from a flat token sequence.
//!
//! ```text
//! block   := "dex" "=" expr "," { "," | class }
//! class   := "class" IDENT "{" "java_name" "=" STRING [","] { "," | method } "}"
//! method  := attr* ( "static" | "callback" ) "fn" IDENT "(" [param {"," param} [","]] ")" ["->" type] ";"
//! param   := IDENT ":" type
//! attr    := "#" "[" ["::"] path [ group | "=" expr ] "]"
//! ```
//! `#[no_activity]` drops the Activity argument of a static method, and
//! `#[java_name("...")]` or `#[java_name = "..."]` names the Java method it
//! calls. Identifiers that name things may not be Rust keywords. Positions are
//! token indices.
//!
//! An expression (the DEX expression, an attribute's value) is the run of
//! tokens up to the first `,` outside groups, outside the generic arguments of
//! a turbofish (`load::<A, B>()`) and outside the parameters of a closure that
//! starts the expression or follows `move` (`|a, b| a + b`), or to the end of
//! its group. Its shape is not checked here but by the compiler, where the
//! generated code uses it.
use vstd::prelude::*;
use crate::text::{append_str, eq_str, string_of};
use crate::tokens::{
    Delim, Tok, ident_is, push_tok_text, tok_text, is_close, is_joint_punct, is_open, is_open_with, is_punct, is_str_lit,
    tok_ident_is, tok_is_close, tok_is_joint_punct, tok_is_open, tok_is_open_with, tok_is_punct,
    tok_is_str_lit,
};

verus! {

/// What the parser expected where it stopped.
#[derive(Debug, Clone, Copy, PartialEq, Eq, Structural)]
pub enum ParseErrorKind {
    /// An identifier was expected.
    ExpectedIdent,
    /// A Rust keyword stands where a name is expected.
    KeywordAsIdent,
    /// The block does not start with `dex = <expr>`.
    ExpectedDex,
    /// The given punctuation was expected.
    ExpectedPunct(char),
    /// An expression was expected.
    ExpectedExpr,
    /// `class <Name> { ... }` was expected.
    ExpectedClass,
    /// A group with the given delimiter was expected.
    ExpectedGroup(Delim),
    /// `java_name = "..."` was expected.
    ExpectedJavaName,
    /// A string literal was expected.
    ExpectedStrLit,
    /// The keyword `fn` was expected.
    ExpectedFn,
    /// `static` or `callback` was expected.
    ExpectedStaticOrCallback,
    /// A type was expected.
    ExpectedType,
    /// A token stands where none may.
    UnexpectedToken,
    /// The input, or a group, ended too early.
    UnexpectedEnd,
    /// `#[java_name]` without arguments in parentheses.
    ExpectedAttrArgs,
}

/// A parse failure: the token index where it was found and what was expected there.
#[derive(Debug, Clone, Copy, PartialEq, Eq, Structural)]
pub struct ParseError {
    pub at: usize,
    pub kind: ParseErrorKind,
}

/// A parameter: the token of its name and the tokens of its type.
#[derive(Debug, Clone, Copy, PartialEq, Eq, Structural)]
pub struct MethodParam {
    pub name: usize,
    pub ty_start: usize,
    pub ty_end: usize,
}

/// The tokens `start .. end` of a type.
#[derive(Debug, Clone, Copy, PartialEq, Eq, Structural)]
pub struct TypeSpan {
    pub start: usize,
    pub end: usize,
}

/// `static fn`: a Java static method that Rust calls.
#[derive(Debug)]
pub struct StaticMethod {
    /// `#[no_activity]` was given.
    pub no_activity: bool,
    /// Token of the string literal given by `#[java_name("...")]` or `#[java_name = "..."]`.
    pub java_name_override: Option<usize>,
    /// Token of the method's name.
    pub rust_name: usize,
    pub params: Vec<MethodParam>,
    pub ret_ty: Option<TypeSpan>,
}

/// `callback fn`: a native method that Java calls back.
#[derive(Debug)]
pub struct CallbackMethod {
    /// Token of the method's name.
    pub rust_name: usize,
    pub params: Vec<MethodParam>,
    pub ret_ty: Option<TypeSpan>,
}

/// A method of a bridged class.
#[derive(Debug)]
pub enum BridgeMethod {
    Static(StaticMethod),
    Callback(CallbackMethod),
}

/// A bridged class.
#[derive(Debug)]
pub struct BridgeClass {
    /// Token of the Rust name.
    pub rust_name: usize,
    /// Token of the `java_name` string literal.
    pub java_name: usize,
    pub methods: Vec<BridgeMethod>,
}

/// The whole macro input.
#[derive(Debug)]
pub struct BridgeBlock {
    /// Tokens `dex_start .. dex_end` are the DEX expression.
    pub dex_start: usize,
    pub dex_end: usize,
    pub classes: Vec<BridgeClass>,
}

/// Model of a static method.
pub struct StaticMethodV {
    pub no_activity: bool,
    pub java_name_override: Option<usize>,
    pub rust_name: usize,
    pub params: Seq<MethodParam>,
    pub ret_ty: Option<TypeSpan>,
}

/// Model of a callback method.
pub struct CallbackMethodV {
    pub rust_name: usize,
    pub params: Seq<MethodParam>,
    pub ret_ty: Option<TypeSpan>,
}

/// Model of a method.
pub enum BridgeMethodV {
    Static(StaticMethodV),
    Callback(CallbackMethodV),
}

/// Model of a class.
pub struct BridgeClassV {
    pub rust_name: usize,
    pub java_name: usize,
    pub methods: Seq<BridgeMethodV>,
}

/// Model of the macro input.
pub struct BridgeBlockV {
    pub dex_start: usize,
    pub dex_end: usize,
    pub classes: Seq<BridgeClassV>,
}

impl View for StaticMethod {
    type V = StaticMethodV;

    open spec fn view(&self) -> StaticMethodV {
        StaticMethodV {
            no_activity: self.no_activity,
            java_name_override: self.java_name_override,
            rust_name: self.rust_name,
            params: self.params@,
            ret_ty: self.ret_ty,
        }
    }
}

impl View for CallbackMethod {
    type V = CallbackMethodV;

    open spec fn view(&self) -> CallbackMethodV {
        CallbackMethodV { rust_name: self.rust_name, params: self.params@, ret_ty: self.ret_ty }
    }
}

impl View for BridgeMethod {
    type V = BridgeMethodV;

    open spec fn view(&self) -> BridgeMethodV {
        match self {
            BridgeMethod::Static(s) => BridgeMethodV::Static(s@),
            BridgeMethod::Callback(c) => BridgeMethodV::Callback(c@),
        }
    }
}

/// The models of a sequence of methods.
pub open spec fn methods_view(ms: Seq<BridgeMethod>) -> Seq<BridgeMethodV> {
    ms.map_values(|m: BridgeMethod| m@)
}

impl View for BridgeClass {
    type V = BridgeClassV;

    open spec fn view(&self) -> BridgeClassV {
        BridgeClassV { rust_name: self.rust_name, java_name: self.java_name, methods: methods_view(self.methods@) }
    }
}

/// The models of a sequence of classes.
pub open spec fn classes_view(cs: Seq<BridgeClass>) -> Seq<BridgeClassV> {
    cs.map_values(|c: BridgeClass| c@)
}

impl View for BridgeBlock {
    type V = BridgeBlockV;

    open spec fn view(&self) -> BridgeBlockV {
        BridgeBlockV { dex_start: self.dex_start, dex_end: self.dex_end, classes: classes_view(self.classes@) }
    }
}

// ---- The grammar -------------------------------------------------------------

/// The error `kind` at token `i`.
pub open spec fn perr(i: usize, kind: ParseErrorKind) -> ParseError {
    ParseError { at: i, kind }
}

/// The source text of token `i` (empty past the end).
pub open spec fn at_text(toks: Seq<Tok>, i: usize) -> Seq<char> {
    if i < toks.len() {
        tok_text(toks[i as int])
    } else {
        Seq::empty()
    }
}

/// The message reported for a parse error.
pub open spec fn spec_parse_message(toks: Seq<Tok>, e: ParseError) -> Seq<char> {
    match e.kind {
        ParseErrorKind::ExpectedIdent => "expected identifier"@,
        ParseErrorKind::KeywordAsIdent => "expected identifier, found keyword `"@ + at_text(toks, e.at) + "`"@,
        ParseErrorKind::ExpectedDex => "expected `dex = <expr>`"@,
        ParseErrorKind::ExpectedPunct(c) => "expected `"@ + seq![c] + "`"@,
        ParseErrorKind::ExpectedExpr => "expected an expression"@,
        ParseErrorKind::ExpectedClass => "expected `class <Name> { ... }`"@,
        ParseErrorKind::ExpectedGroup(d) => match d {
            Delim::Brace => "expected curly braces"@,
            Delim::Paren => "expected parentheses"@,
            _ => "expected square brackets"@,
        },
        ParseErrorKind::ExpectedJavaName => "expected `java_name = \"...\"`"@,
        ParseErrorKind::ExpectedStrLit => "expected string literal"@,
        ParseErrorKind::ExpectedFn => "expected `fn`"@,
        ParseErrorKind::ExpectedStaticOrCallback => "expected `static` or `callback`, got `"@ + at_text(toks, e.at) + "`"@,
        ParseErrorKind::ExpectedType => "expected type"@,
        ParseErrorKind::UnexpectedToken => "unexpected token"@,
        ParseErrorKind::UnexpectedEnd => "unexpected end of input"@,
        ParseErrorKind::ExpectedAttrArgs => "expected attribute arguments in parentheses: #[java_name(...)]"@,
    }
}

fn push_at_text(out: &mut Vec<char>, toks: &Vec<Tok>, i: usize)
    ensures
        final(out)@ == old(out)@ + at_text(toks@, i),
{
    if i < toks.len() {
        push_tok_text(out, &toks[i]);
    } else {
        assert(old(out)@ + at_text(toks@, i) =~= old(out)@);
    }
}

impl ParseError {
    /// The message reported for this error; `toks` is the input it was found in.
    pub fn message(&self, toks: &Vec<Tok>) -> (r: String)
        ensures
            r@ == spec_parse_message(toks@, *self),
    {
        let mut out: Vec<char> = Vec::new();
        match self.kind {
            ParseErrorKind::ExpectedIdent => append_str(&mut out, "expected identifier"),
            ParseErrorKind::KeywordAsIdent => {
                append_str(&mut out, "expected identifier, found keyword `");
                push_at_text(&mut out, toks, self.at);
                append_str(&mut out, "`");
            },
            ParseErrorKind::ExpectedDex => append_str(&mut out, "expected `dex = <expr>`"),
            ParseErrorKind::ExpectedPunct(c) => {
                append_str(&mut out, "expected `");
                out.push(c);
                append_str(&mut out, "`");
            },
            ParseErrorKind::ExpectedExpr => append_str(&mut out, "expected an expression"),
            ParseErrorKind::ExpectedClass => append_str(&mut out, "expected `class <Name> { ... }`"),
            ParseErrorKind::ExpectedGroup(d) => match d {
                Delim::Brace => append_str(&mut out, "expected curly braces"),
                Delim::Paren => append_str(&mut out, "expected parentheses"),
                _ => append_str(&mut out, "expected square brackets"),
            },
            ParseErrorKind::ExpectedJavaName => append_str(&mut out, "expected `java_name = \"...\"`"),
            ParseErrorKind::ExpectedStrLit => append_str(&mut out, "expected string literal"),
            ParseErrorKind::ExpectedFn => append_str(&mut out, "expected `fn`"),
            ParseErrorKind::ExpectedStaticOrCallback => {
                append_str(&mut out, "expected `static` or `callback`, got `");
                push_at_text(&mut out, toks, self.at);
                append_str(&mut out, "`");
            },
            ParseErrorKind::ExpectedType => append_str(&mut out, "expected type"),
            ParseErrorKind::UnexpectedToken => append_str(&mut out, "unexpected token"),
            ParseErrorKind::UnexpectedEnd => append_str(&mut out, "unexpected end of input"),
            ParseErrorKind::ExpectedAttrArgs => append_str(
                &mut out,
                "expected attribute arguments in parentheses: #[java_name(...)]",
            ),
        }
        assert(out@ =~= spec_parse_message(toks@, *self));
        string_of(&out)
    }
}

/// The identifiers that are Rust keywords and cannot name anything.
pub open spec fn is_keyword(s: Seq<char>) -> bool {
    ||| s == "_"@ ||| s == "abstract"@ ||| s == "as"@ ||| s == "async"@ ||| s == "await"@
    ||| s == "become"@ ||| s == "box"@ ||| s == "break"@ ||| s == "const"@ ||| s == "continue"@
    ||| s == "crate"@ ||| s == "do"@ ||| s == "dyn"@ ||| s == "else"@ ||| s == "enum"@
    ||| s == "extern"@ ||| s == "false"@ ||| s == "final"@ ||| s == "fn"@ ||| s == "for"@
    ||| s == "if"@ ||| s == "impl"@ ||| s == "in"@ ||| s == "let"@ ||| s == "loop"@
    ||| s == "macro"@ ||| s == "match"@ ||| s == "mod"@ ||| s == "move"@ ||| s == "mut"@
    ||| s == "override"@ ||| s == "priv"@ ||| s == "pub"@ ||| s == "ref"@ ||| s == "return"@
    ||| s == "Self"@ ||| s == "self"@ ||| s == "static"@ ||| s == "struct"@ ||| s == "super"@
    ||| s == "trait"@ ||| s == "true"@ ||| s == "try"@ ||| s == "type"@ ||| s == "typeof"@
    ||| s == "unsafe"@ ||| s == "unsized"@ ||| s == "use"@ ||| s == "virtual"@ ||| s == "where"@
    ||| s == "while"@ ||| s == "yield"@
}

/// A name at token `i`: an identifier that is not a keyword. Gives the position after it.
pub open spec fn spec_ident(toks: Seq<Tok>, i: usize) -> Result<usize, ParseError> {
    if i < toks.len() {
        match toks[i as int] {
            Tok::Ident { text } => if is_keyword(text@) {
                Err(perr(i, ParseErrorKind::KeywordAsIdent))
            } else {
                Ok((i + 1) as usize)
            },
            _ => Err(perr(i, ParseErrorKind::ExpectedIdent)),
        }
    } else {
        Err(perr(i, ParseErrorKind::ExpectedIdent))
    }
}

/// The punctuation `c` at token `i`. Gives the position after it.
pub open spec fn spec_punct(toks: Seq<Tok>, i: usize, c: char) -> Result<usize, ParseError> {
    if is_punct(toks, i as int, c) {
        Ok((i + 1) as usize)
    } else {
        Err(perr(i, ParseErrorKind::ExpectedPunct(c)))
    }
}

/// Whether the `<` at `i` follows a path separator, as generic arguments do: `::<`.
pub open spec fn after_path_sep(toks: Seq<Tok>, i: usize) -> bool {
    i >= 2 && is_joint_punct(toks, i - 2, ':') && is_punct(toks, i - 1, ':')
}

/// Whether the `|` at `i` opens the parameters of a closure: it starts the expression (after
/// the `=` that precedes it) or follows `move`.
pub open spec fn opens_closure(toks: Seq<Tok>, i: usize) -> bool {
    i >= 1 && (is_punct(toks, i - 1, '=') || ident_is(toks, i - 1, "move"@))
}

/// Where an expression that starts at `i` ends: at the first `,` outside groups, outside
/// the generic arguments of a turbofish (`::<`...`>`, `angle` deep) and outside the
/// parameters of a closure (`|`...`|`, `params`), at the end of the enclosing group, or at
/// the end of the input. `None` when a group is left open.
pub open spec fn scan_expr(toks: Seq<Tok>, i: usize, depth: nat, angle: nat, params: bool) -> Option<usize>
    decreases toks.len() - i,
{
    if i >= toks.len() || toks.len() > usize::MAX {
        if depth == 0 { Some(i) } else { None }
    } else {
        match toks[i as int] {
            Tok::Open { .. } => scan_expr(toks, (i + 1) as usize, depth + 1, angle, params),
            Tok::Close { .. } => if depth == 0 {
                Some(i)
            } else {
                scan_expr(toks, (i + 1) as usize, (depth - 1) as nat, angle, params)
            },
            Tok::Punct { ch, .. } => if ch == ',' && depth == 0 && angle == 0 && !params {
                Some(i)
            } else if depth == 0 && ch == '|' && params {
                scan_expr(toks, (i + 1) as usize, depth, angle, false)
            } else if depth == 0 && ch == '|' && opens_closure(toks, i) {
                scan_expr(toks, (i + 1) as usize, depth, angle, true)
            } else if depth == 0 && ch == '<' && (angle > 0 || after_path_sep(toks, i)) {
                scan_expr(toks, (i + 1) as usize, depth, angle + 1, params)
            } else if depth == 0 && ch == '>' && angle > 0 {
                scan_expr(toks, (i + 1) as usize, depth, (angle - 1) as nat, params)
            } else {
                scan_expr(toks, (i + 1) as usize, depth, angle, params)
            },
            _ => scan_expr(toks, (i + 1) as usize, depth, angle, params),
        }
    }
}

/// Where a type that starts at `i` ends: at the first `,` or `;` outside groups and outside
/// `<`...`>`, at the end of the enclosing group, or at the end of the input.
/// `None` when a group is left open.
pub open spec fn scan_type(toks: Seq<Tok>, i: usize, depth: nat, angle: nat) -> Option<usize>
    decreases toks.len() - i,
{
    if i >= toks.len() || toks.len() > usize::MAX {
        if depth == 0 { Some(i) } else { None }
    } else {
        match toks[i as int] {
            Tok::Open { .. } => scan_type(toks, (i + 1) as usize, depth + 1, angle),
            Tok::Close { .. } => if depth == 0 { Some(i) } else { scan_type(toks, (i + 1) as usize, (depth - 1) as nat, angle) },
            Tok::Punct { ch, .. } => if depth == 0 && angle == 0 && (ch == ',' || ch == ';') {
                Some(i)
            } else if depth == 0 && ch == '<' {
                scan_type(toks, (i + 1) as usize, depth, angle + 1)
            } else if depth == 0 && ch == '>' && angle > 0 {
                scan_type(toks, (i + 1) as usize, depth, (angle - 1) as nat)
            } else {
                scan_type(toks, (i + 1) as usize, depth, angle)
            },
            _ => scan_type(toks, (i + 1) as usize, depth, angle),
        }
    }
}

/// The position just after the group that opens at `i` (inside it at `depth`).
pub open spec fn skip_group(toks: Seq<Tok>, i: usize, depth: nat) -> Option<usize>
    decreases toks.len() - i,
{
    if i >= toks.len() || toks.len() > usize::MAX {
        None
    } else {
        match toks[i as int] {
            Tok::Open { .. } => skip_group(toks, (i + 1) as usize, depth + 1),
            Tok::Close { .. } => if depth <= 1 {
                if depth == 1 { Some((i + 1) as usize) } else { None }
            } else {
                skip_group(toks, (i + 1) as usize, (depth - 1) as nat)
            },
            _ => skip_group(toks, (i + 1) as usize, depth),
        }
    }
}

/// The rest of an attribute path after its first segment: `{ "::" IDENT }`.
/// Gives the position after the path and whether it had more than one segment.
pub open spec fn spec_path_rest(toks: Seq<Tok>, i: usize, long: bool) -> Result<(usize, bool), ParseError>
    decreases toks.len() - i,
{
    if toks.len() > usize::MAX {
        Err(perr(i, ParseErrorKind::UnexpectedEnd))
    } else if i + 1 < toks.len() && is_joint_punct(toks, i as int, ':') && is_punct(toks, i + 1, ':') {
        if i + 2 < toks.len() && toks[i + 2] is Ident {
            spec_path_rest(toks, (i + 3) as usize, true)
        } else {
            Err(perr((i + 2) as usize, ParseErrorKind::ExpectedIdent))
        }
    } else {
        Ok((i, long))
    }
}

/// What one attribute contributes to the method it stands on.
#[derive(Debug, Clone, Copy, PartialEq, Eq, Structural)]
pub enum AttrEffect {
    /// `#[no_activity]`
    NoActivity,
    /// `#[java_name("...")]` or `#[java_name = "..."]`, with the token of the string.
    JavaName(usize),
    /// `#[java_name]` without one string, in parentheses or after `=`.
    BadJavaName(ParseError),
    /// Any other attribute.
    Ignored,
}

/// One attribute starting at the `#` at `i`: its effect and the position after it.
pub open spec fn spec_attr(toks: Seq<Tok>, i: usize) -> Result<(AttrEffect, usize), ParseError> {
    let b = (i + 1) as usize;
    // A path may start with `::`; such a path is never a single identifier.
    let lead = is_joint_punct(toks, i + 2, ':') && is_punct(toks, i + 3, ':');
    let p = if lead { (i + 4) as usize } else { (i + 2) as usize };
    if !is_open_with(toks, b as int, Delim::Bracket) {
        Err(perr(b, ParseErrorKind::ExpectedGroup(Delim::Bracket)))
    } else if !(p < toks.len() && toks[p as int] is Ident) {
        Err(perr(p, ParseErrorKind::ExpectedIdent))
    } else {
        match spec_path_rest(toks, (p + 1) as usize, lead) {
            Err(e) => Err(e),
            Ok((q, long)) => {
                let single_is = |s: Seq<char>| !long && ident_is(toks, p as int, s);
                if is_close(toks, q as int) {
                    // `#[path]`
                    let eff = if single_is("no_activity"@) {
                        AttrEffect::NoActivity
                    } else if single_is("java_name"@) {
                        AttrEffect::BadJavaName(perr(p, ParseErrorKind::ExpectedAttrArgs))
                    } else {
                        AttrEffect::Ignored
                    };
                    Ok((eff, (q + 1) as usize))
                } else if is_open(toks, q as int) {
                    // `#[path(...)]`
                    match skip_group(toks, q, 0) {
                        None => Err(perr(toks.len() as usize, ParseErrorKind::UnexpectedEnd)),
                        Some(g) => if !is_close(toks, g as int) {
                            Err(perr(g, ParseErrorKind::UnexpectedToken))
                        } else {
                            let eff = if single_is("no_activity"@) {
                                AttrEffect::NoActivity
                            } else if single_is("java_name"@) {
                                if is_str_lit(toks, q + 1) {
                                    if is_close(toks, q + 2) {
                                        AttrEffect::JavaName((q + 1) as usize)
                                    } else {
                                        AttrEffect::BadJavaName(perr((q + 2) as usize, ParseErrorKind::UnexpectedToken))
                                    }
                                } else {
                                    AttrEffect::BadJavaName(perr((q + 1) as usize, ParseErrorKind::ExpectedStrLit))
                                }
                            } else {
                                AttrEffect::Ignored
                            };
                            Ok((eff, (g + 1) as usize))
                        },
                    }
                } else if is_punct(toks, q as int, '=') {
                    // `#[path = value]`
                    match scan_expr(toks, (q + 1) as usize, 0, 0, false) {
                        None => Err(perr(toks.len() as usize, ParseErrorKind::UnexpectedEnd)),
                        Some(e) => if e == q + 1 {
                            Err(perr(e, ParseErrorKind::ExpectedExpr))
                        } else if !is_close(toks, e as int) {
                            Err(perr(e, ParseErrorKind::UnexpectedToken))
                        } else {
                            let eff = if single_is("no_activity"@) {
                                AttrEffect::NoActivity
                            } else if single_is("java_name"@) {
                                if is_str_lit(toks, q + 1) {
                                    if e == q + 2 {
                                        AttrEffect::JavaName((q + 1) as usize)
                                    } else {
                                        AttrEffect::BadJavaName(perr((q + 2) as usize, ParseErrorKind::UnexpectedToken))
                                    }
                                } else {
                                    AttrEffect::BadJavaName(perr((q + 1) as usize, ParseErrorKind::ExpectedStrLit))
                                }
                            } else {
                                AttrEffect::Ignored
                            };
                            Ok((eff, (e + 1) as usize))
                        },
                    }
                } else {
                    Err(perr(q, ParseErrorKind::UnexpectedToken))
                }
            },
        }
    }
}

/// The attributes gathered so far on a method.
#[derive(Debug, Clone, Copy, PartialEq, Eq, Structural)]
pub struct Attrs {
    pub no_activity: bool,
    pub java_name: Option<usize>,
    /// The first `#[java_name]` whose arguments are wrong.
    pub bad_java_name: Option<ParseError>,
}

/// Adds one attribute's effect.
pub open spec fn add_effect(a: Attrs, eff: AttrEffect) -> Attrs {
    match eff {
        AttrEffect::NoActivity => Attrs { no_activity: true, ..a },
        AttrEffect::JavaName(t) => if a.bad_java_name is Some { a } else { Attrs { java_name: Some(t), ..a } },
        AttrEffect::BadJavaName(e) => if a.bad_java_name is Some { a } else { Attrs { bad_java_name: Some(e), ..a } },
        AttrEffect::Ignored => a,
    }
}

/// The outer attributes from `i` on. Gives what they set and the position after them.
pub open spec fn spec_attrs(toks: Seq<Tok>, i: usize, a: Attrs) -> Result<(Attrs, usize), ParseError>
    decreases toks.len() - i,
{
    if !is_punct(toks, i as int, '#') {
        Ok((a, i))
    } else {
        match spec_attr(toks, i) {
            Err(e) => Err(e),
            Ok((eff, j)) => if i < j <= toks.len() {
                spec_attrs(toks, j, add_effect(a, eff))
            } else {
                Err(perr(i, ParseErrorKind::UnexpectedToken))
            },
        }
    }
}

/// The parameter list inside the parentheses, from `i` on, added to `acc`.
/// Gives the parameters and the position after the closing parenthesis.
pub open spec fn spec_param_list(toks: Seq<Tok>, i: usize, acc: Seq<MethodParam>) -> Result<(Seq<MethodParam>, usize), ParseError>
    decreases toks.len() - i,
{
    if i >= toks.len() || toks.len() > usize::MAX {
        Err(perr(i, ParseErrorKind::UnexpectedEnd))
    } else if is_close(toks, i as int) {
        Ok((acc, (i + 1) as usize))
    } else {
        match spec_ident(toks, i) {
            Err(e) => Err(e),
            Ok(_) => match spec_punct(toks, (i + 1) as usize, ':') {
                Err(e) => Err(e),
                Ok(s) => match scan_type(toks, s, 0, 0) {
                    None => Err(perr(toks.len() as usize, ParseErrorKind::UnexpectedEnd)),
                    Some(e) => if e == s {
                        Err(perr(s, ParseErrorKind::ExpectedType))
                    } else {
                        let p = MethodParam { name: i, ty_start: s, ty_end: e };
                        if is_close(toks, e as int) {
                            Ok((acc.push(p), (e + 1) as usize))
                        } else if is_punct(toks, e as int, ',') && i < e {
                            spec_param_list(toks, (e + 1) as usize, acc.push(p))
                        } else {
                            Err(perr(e, ParseErrorKind::ExpectedPunct(',')))
                        }
                    },
                },
            },
        }
    }
}

/// `( params )` at `i`.
pub open spec fn spec_params(toks: Seq<Tok>, i: usize) -> Result<(Seq<MethodParam>, usize), ParseError> {
    if !is_open_with(toks, i as int, Delim::Paren) {
        Err(perr(i, ParseErrorKind::ExpectedGroup(Delim::Paren)))
    } else {
        spec_param_list(toks, (i + 1) as usize, Seq::empty())
    }
}

/// An optional `-> type` at `i`.
pub open spec fn spec_ret(toks: Seq<Tok>, i: usize) -> Result<(Option<TypeSpan>, usize), ParseError> {
    if is_joint_punct(toks, i as int, '-') && is_punct(toks, i + 1, '>') {
        let s = (i + 2) as usize;
        match scan_type(toks, s, 0, 0) {
            None => Err(perr(toks.len() as usize, ParseErrorKind::UnexpectedEnd)),
            Some(e) => if e == s {
                Err(perr(s, ParseErrorKind::ExpectedType))
            } else {
                Ok((Some(TypeSpan { start: s, end: e }), e))
            },
        }
    } else {
        Ok((None, i))
    }
}

/// What follows `static` or `callback`: `fn NAME ( params ) [-> type] ;`, with `fn` at `i`.
/// Gives the name's token, the parameters, the result type and the position after `;`.
pub open spec fn spec_signature(toks: Seq<Tok>, i: usize) -> Result<(usize, Seq<MethodParam>, Option<TypeSpan>, usize), ParseError> {
    if !ident_is(toks, i as int, "fn"@) {
        Err(perr(i, ParseErrorKind::ExpectedFn))
    } else {
        let n = (i + 1) as usize;
        match spec_ident(toks, n) {
            Err(e) => Err(e),
            Ok(k) => match spec_params(toks, k) {
                Err(e) => Err(e),
                Ok((params, l)) => match spec_ret(toks, l) {
                    Err(e) => Err(e),
                    Ok((ret, m)) => match spec_punct(toks, m, ';') {
                        Err(e) => Err(e),
                        Ok(end) => Ok((n, params, ret, end)),
                    },
                },
            },
        }
    }
}

/// The attributes that a method starts with, before any is checked.
pub open spec fn no_attrs() -> Attrs {
    Attrs { no_activity: false, java_name: None, bad_java_name: None }
}

/// One method at `i`, and the position after it.
pub open spec fn spec_method(toks: Seq<Tok>, i: usize) -> Result<(BridgeMethodV, usize), ParseError> {
    match spec_attrs(toks, i, no_attrs()) {
        Err(e) => Err(e),
        Ok((a, j)) => match a.bad_java_name {
            Some(e) => Err(e),
            None => if ident_is(toks, j as int, "static"@) {
                match spec_signature(toks, (j + 1) as usize) {
                    Err(e) => Err(e),
                    Ok((n, params, ret, end)) => Ok((BridgeMethodV::Static(StaticMethodV {
                        no_activity: a.no_activity,
                        java_name_override: a.java_name,
                        rust_name: n,
                        params,
                        ret_ty: ret,
                    }), end)),
                }
            } else {
                match spec_ident(toks, j) {
                    Err(e) => Err(e),
                    Ok(_) => if ident_is(toks, j as int, "callback"@) {
                        match spec_signature(toks, (j + 1) as usize) {
                            Err(e) => Err(e),
                            Ok((n, params, ret, end)) => Ok((BridgeMethodV::Callback(CallbackMethodV {
                                rust_name: n,
                                params,
                                ret_ty: ret,
                            }), end)),
                        }
                    } else {
                        Err(perr(j, ParseErrorKind::ExpectedStaticOrCallback))
                    },
                }
            },
        },
    }
}

/// The methods of a class from `i` on, added to `acc`, and the position after the `}`.
pub open spec fn spec_methods(toks: Seq<Tok>, i: usize, acc: Seq<BridgeMethodV>) -> Result<(Seq<BridgeMethodV>, usize), ParseError>
    decreases toks.len() - i,
{
    if i >= toks.len() || toks.len() > usize::MAX {
        Err(perr(i, ParseErrorKind::UnexpectedEnd))
    } else if is_close(toks, i as int) {
        Ok((acc, (i + 1) as usize))
    } else if is_punct(toks, i as int, ',') {
        spec_methods(toks, (i + 1) as usize, acc)
    } else {
        match spec_method(toks, i) {
            Err(e) => Err(e),
            Ok((m, j)) => if i < j <= toks.len() {
                spec_methods(toks, j, acc.push(m))
            } else {
                Err(perr(i, ParseErrorKind::UnexpectedToken))
            },
        }
    }
}

/// One class at `i`, and the position after it.
pub open spec fn spec_class(toks: Seq<Tok>, i: usize) -> Result<(BridgeClassV, usize), ParseError> {
    match spec_ident(toks, i) {
        Err(e) => Err(e),
        Ok(_) => if !ident_is(toks, i as int, "class"@) {
            Err(perr(i, ParseErrorKind::ExpectedClass))
        } else {
            let n = (i + 1) as usize;
            match spec_ident(toks, n) {
                Err(e) => Err(e),
                Ok(b) => if !is_open_with(toks, b as int, Delim::Brace) {
                    Err(perr(b, ParseErrorKind::ExpectedGroup(Delim::Brace)))
                } else {
                    let c = (b + 1) as usize;
                    match spec_ident(toks, c) {
                        Err(e) => Err(e),
                        Ok(_) => if !ident_is(toks, c as int, "java_name"@) {
                            Err(perr(c, ParseErrorKind::ExpectedJavaName))
                        } else {
                            match spec_punct(toks, (c + 1) as usize, '=') {
                                Err(e) => Err(e),
                                Ok(l) => if !is_str_lit(toks, l as int) {
                                    Err(perr(l, ParseErrorKind::ExpectedStrLit))
                                } else {
                                    let k = if is_punct(toks, l + 1, ',') { (l + 2) as usize } else { (l + 1) as usize };
                                    match spec_methods(toks, k, Seq::empty()) {
                                        Err(e) => Err(e),
                                        Ok((methods, end)) => Ok((BridgeClassV { rust_name: n, java_name: l, methods }, end)),
                                    }
                                },
                            }
                        },
                    }
                },
            }
        },
    }
}

/// The classes from `i` to the end of the input, added to `acc`.
pub open spec fn spec_classes(toks: Seq<Tok>, i: usize, acc: Seq<BridgeClassV>) -> Result<Seq<BridgeClassV>, ParseError>
    decreases toks.len() - i,
{
    if i >= toks.len() || toks.len() > usize::MAX {
        Ok(acc)
    } else if is_punct(toks, i as int, ',') {
        spec_classes(toks, (i + 1) as usize, acc)
    } else {
        match spec_class(toks, i) {
            Err(e) => Err(e),
            Ok((c, j)) => if i < j <= toks.len() {
                spec_classes(toks, j, acc.push(c))
            } else {
                Err(perr(i, ParseErrorKind::UnexpectedToken))
            },
        }
    }
}

/// The whole macro input.
pub open spec fn spec_block(toks: Seq<Tok>) -> Result<BridgeBlockV, ParseError> {
    match spec_ident(toks, 0) {
        Err(e) => Err(e),
        Ok(_) => if !ident_is(toks, 0, "dex"@) {
            Err(perr(0, ParseErrorKind::ExpectedDex))
        } else {
            match spec_punct(toks, 1, '=') {
                Err(e) => Err(e),
                Ok(_) => match scan_expr(toks, 2, 0, 0, false) {
                    None => Err(perr(toks.len() as usize, ParseErrorKind::UnexpectedEnd)),
                    Some(e) => if e == 2 {
                        Err(perr(2, ParseErrorKind::ExpectedExpr))
                    } else {
                        match spec_punct(toks, e, ',') {
                            Err(x) => Err(x),
                            Ok(k) => match spec_classes(toks, k, Seq::empty()) {
                                Err(x) => Err(x),
                                Ok(classes) => Ok(BridgeBlockV { dex_start: 2, dex_end: e, classes }),
                            },
                        }
                    },
                },
            }
        },
    }
}

// ---- The parser ---------------------------------------------------------------

/// Whether `t` is a Rust keyword that cannot name anything.
pub fn is_keyword_text(t: &Vec<char>) -> (r: bool)
    ensures
        r == is_keyword(t@),
{
    eq_str(t, "_") || eq_str(t, "abstract") || eq_str(t, "as") || eq_str(t, "async") || eq_str(t, "await") || eq_str(t, "become") || eq_str(t, "box") || eq_str(t, "break") || eq_str(t, "const") || eq_str(t, "continue") || eq_str(t, "crate") || eq_str(t, "do") || eq_str(t, "dyn") || eq_str(t, "else") || eq_str(t, "enum") || eq_str(t, "extern") || eq_str(t, "false") || eq_str(t, "final") || eq_str(t, "fn") || eq_str(t, "for") || eq_str(t, "if") || eq_str(t, "impl") || eq_str(t, "in") || eq_str(t, "let") || eq_str(t, "loop") || eq_str(t, "macro") || eq_str(t, "match") || eq_str(t, "mod") || eq_str(t, "move") || eq_str(t, "mut") || eq_str(t, "override") || eq_str(t, "priv") || eq_str(t, "pub") || eq_str(t, "ref") || eq_str(t, "return") || eq_str(t, "Self") || eq_str(t, "self") || eq_str(t, "static") || eq_str(t, "struct") || eq_str(t, "super") || eq_str(t, "trait") || eq_str(t, "true") || eq_str(t, "try") || eq_str(t, "type") || eq_str(t, "typeof") || eq_str(t, "unsafe") || eq_str(t, "unsized") || eq_str(t, "use") || eq_str(t, "virtual") || eq_str(t, "where") || eq_str(t, "while") || eq_str(t, "yield")
}

/// A name at token `i`.
fn parse_ident(toks: &Vec<Tok>, i: usize) -> (r: Result<usize, ParseError>)
    ensures
        r == spec_ident(toks@, i),
        r matches Ok(j) ==> j == i + 1 && j <= toks.len(),
{
    if i < toks.len() {
        match &toks[i] {
            Tok::Ident { text } => if is_keyword_text(text) {
                Err(ParseError { at: i, kind: ParseErrorKind::KeywordAsIdent })
            } else {
                Ok(i + 1)
            },
            _ => Err(ParseError { at: i, kind: ParseErrorKind::ExpectedIdent }),
        }
    } else {
        Err(ParseError { at: i, kind: ParseErrorKind::ExpectedIdent })
    }
}

/// The punctuation `c` at token `i`.
fn parse_punct(toks: &Vec<Tok>, i: usize, c: char) -> (r: Result<usize, ParseError>)
    ensures
        r == spec_punct(toks@, i, c),
        r matches Ok(j) ==> j == i + 1 && j <= toks.len(),
{
    if tok_is_punct(toks, i, c) {
        Ok(i + 1)
    } else {
        Err(ParseError { at: i, kind: ParseErrorKind::ExpectedPunct(c) })
    }
}

/// Where an expression that starts at `start` ends (see `scan_expr`).
pub fn scan_expr_end(toks: &Vec<Tok>, start: usize) -> (r: Option<usize>)
    requires
        start <= toks.len(),
    ensures
        r == scan_expr(toks@, start, 0, 0, false),
        r matches Some(e) ==> start <= e <= toks.len(),
{
    proof {
        assert(toks@.len() == toks.len());
    }
    let mut i = start;
    let mut depth: usize = 0;
    let mut angle: usize = 0;
    let mut params = false;
    while i < toks.len()
        invariant
            start <= i <= toks.len(),
            toks@.len() == toks.len(),
            depth <= i - start,
            angle <= i - start,
            scan_expr(toks@, start, 0, 0, false) == scan_expr(toks@, i, depth as nat, angle as nat, params),
        decreases toks.len() - i,
    {
        match &toks[i] {
            Tok::Open { .. } => {
                depth = depth + 1;
            },
            Tok::Close { .. } => {
                if depth == 0 {
                    return Some(i);
                }
                depth = depth - 1;
            },
            Tok::Punct { ch, .. } => {
                if *ch == ',' && depth == 0 && angle == 0 && !params {
                    return Some(i);
                }
                if depth == 0 && *ch == '|' && params {
                    params = false;
                } else if depth == 0 && *ch == '|'
                    && i >= 1 && (tok_is_punct(toks, i - 1, '=') || tok_ident_is(toks, i - 1, "move")) {
                    params = true;
                } else if depth == 0 && *ch == '<' {
                    let opens = angle > 0 || (i >= 2 && tok_is_joint_punct(toks, i - 2, ':') && tok_is_punct(toks, i - 1, ':'));
                    if opens {
                        angle = angle + 1;
                    }
                } else if depth == 0 && *ch == '>' && angle > 0 {
                    angle = angle - 1;
                }
            },
            _ => {},
        }
        i = i + 1;
    }
    if depth == 0 {
        Some(i)
    } else {
        None
    }
}

/// Where a type that starts at `start` ends (see `scan_type`).
pub fn scan_type_end(toks: &Vec<Tok>, start: usize) -> (r: Option<usize>)
    requires
        start <= toks.len(),
    ensures
        r == scan_type(toks@, start, 0, 0),
        r matches Some(e) ==> start <= e <= toks.len(),
{
    let mut i = start;
    let mut depth: usize = 0;
    let mut angle: usize = 0;
    let mut params = false;
    while i < toks.len()
        invariant
            start <= i <= toks.len(),
            depth <= i - start,
            angle <= i - start,
            scan_type(toks@, start, 0, 0) == scan_type(toks@, i, depth as nat, angle as nat),
        decreases toks.len() - i,
    {
        match &toks[i] {
            Tok::Open { .. } => {
                depth = depth + 1;
            },
            Tok::Close { .. } => {
                if depth == 0 {
                    return Some(i);
                }
                depth = depth - 1;
            },
            Tok::Punct { ch, .. } => {
                if depth == 0 && angle == 0 && (*ch == ',' || *ch == ';') {
                    return Some(i);
                } else if depth == 0 && *ch == '<' {
                    angle = angle + 1;
                } else if depth == 0 && *ch == '>' && angle > 0 {
                    angle = angle - 1;
                }
            },
            _ => {},
        }
        i = i + 1;
    }
    if depth == 0 {
        Some(i)
    } else {
        None
    }
}

/// The position just after the group that opens at `start` (see `skip_group`).
pub fn skip_group_end(toks: &Vec<Tok>, start: usize) -> (r: Option<usize>)
    ensures
        r == skip_group(toks@, start, 0),
        r matches Some(e) ==> start < e <= toks.len(),
{
    let mut i = start;
    let mut depth: usize = 0;
    while i < toks.len()
        invariant
            start <= i,
            i <= toks.len() || i == start,
            depth <= i - start,
            skip_group(toks@, start, 0) == skip_group(toks@, i, depth as nat),
        decreases toks.len() - i,
    {
        match &toks[i] {
            Tok::Open { .. } => {
                depth = depth + 1;
            },
            Tok::Close { .. } => {
                if depth <= 1 {
                    if depth == 1 {
                        return Some(i + 1);
                    } else {
                        return None;
                    }
                }
                depth = depth - 1;
            },
            _ => {},
        }
        i = i + 1;
    }
    None
}

/// The rest of an attribute path from `start` (see `spec_path_rest`).
fn parse_path_rest(toks: &Vec<Tok>, start: usize, lead: bool) -> (r: Result<(usize, bool), ParseError>)
    requires
        start <= toks.len(),
    ensures
        r == spec_path_rest(toks@, start, lead),
        r matches Ok((q, _)) ==> start <= q <= toks.len(),
{
    let mut i = start;
    let mut long = lead;
    while i < toks.len() && i + 1 < toks.len() && tok_is_joint_punct(toks, i, ':') && tok_is_punct(toks, i + 1, ':')
        invariant
            start <= i <= toks.len(),
            spec_path_rest(toks@, start, lead) == spec_path_rest(toks@, i, long),
        decreases toks.len() - i,
    {
        if i + 2 < toks.len() && matches!(&toks[i + 2], Tok::Ident { .. }) {
            i = i + 3;
            long = true;
        } else {
            return Err(ParseError { at: i + 2, kind: ParseErrorKind::ExpectedIdent });
        }
    }
    Ok((i, long))
}

/// Whether the attribute path is the single identifier `lit`.
fn single_ident_is(toks: &Vec<Tok>, p: usize, long: bool, lit: &str) -> (r: bool)
    ensures
        r == (!long && ident_is(toks@, p as int, lit@)),
{
    !long && tok_ident_is(toks, p, lit)
}

/// One attribute at the `#` at `i` (see `spec_attr`).
fn parse_attr(toks: &Vec<Tok>, i: usize) -> (r: Result<(AttrEffect, usize), ParseError>)
    requires
        is_punct(toks@, i as int, '#'),
    ensures
        r == spec_attr(toks@, i),
        r matches Ok((_, j)) ==> i < j <= toks.len(),
{
    let b = i + 1;
    if !tok_is_open_with(toks, b, Delim::Bracket) {
        return Err(ParseError { at: b, kind: ParseErrorKind::ExpectedGroup(Delim::Bracket) });
    }
    let lead = tok_is_joint_punct(toks, i + 2, ':') && tok_is_punct(toks, i + 3, ':');
    let p = if lead { i + 4 } else { i + 2 };
    if !(p < toks.len() && matches!(&toks[p], Tok::Ident { .. })) {
        return Err(ParseError { at: p, kind: ParseErrorKind::ExpectedIdent });
    }
    let (q, long) = match parse_path_rest(toks, p + 1, lead) {
        Err(e) => return Err(e),
        Ok(v) => v,
    };
    if tok_is_close(toks, q) {
        let eff = if single_ident_is(toks, p, long, "no_activity") {
            AttrEffect::NoActivity
        } else if single_ident_is(toks, p, long, "java_name") {
            AttrEffect::BadJavaName(ParseError { at: p, kind: ParseErrorKind::ExpectedAttrArgs })
        } else {
            AttrEffect::Ignored
        };
        Ok((eff, q + 1))
    } else if tok_is_open(toks, q) {
        match skip_group_end(toks, q) {
            None => Err(ParseError { at: toks.len(), kind: ParseErrorKind::UnexpectedEnd }),
            Some(g) => if !tok_is_close(toks, g) {
                Err(ParseError { at: g, kind: ParseErrorKind::UnexpectedToken })
            } else {
                let eff = if single_ident_is(toks, p, long, "no_activity") {
                    AttrEffect::NoActivity
                } else if single_ident_is(toks, p, long, "java_name") {
                    if tok_is_str_lit(toks, q + 1) {
                        if tok_is_close(toks, q + 2) {
                            AttrEffect::JavaName(q + 1)
                        } else {
                            AttrEffect::BadJavaName(ParseError { at: q + 2, kind: ParseErrorKind::UnexpectedToken })
                        }
                    } else {
                        AttrEffect::BadJavaName(ParseError { at: q + 1, kind: ParseErrorKind::ExpectedStrLit })
                    }
                } else {
                    AttrEffect::Ignored
                };
                Ok((eff, g + 1))
            },
        }
    } else if tok_is_punct(toks, q, '=') {
        match scan_expr_end(toks, q + 1) {
            None => Err(ParseError { at: toks.len(), kind: ParseErrorKind::UnexpectedEnd }),
            Some(e) => if e == q + 1 {
                Err(ParseError { at: e, kind: ParseErrorKind::ExpectedExpr })
            } else if !tok_is_close(toks, e) {
                Err(ParseError { at: e, kind: ParseErrorKind::UnexpectedToken })
            } else {
                let eff = if single_ident_is(toks, p, long, "no_activity") {
                    AttrEffect::NoActivity
                } else if single_ident_is(toks, p, long, "java_name") {
                    if tok_is_str_lit(toks, q + 1) {
                        if e == q + 2 {
                            AttrEffect::JavaName(q + 1)
                        } else {
                            AttrEffect::BadJavaName(ParseError { at: q + 2, kind: ParseErrorKind::UnexpectedToken })
                        }
                    } else {
                        AttrEffect::BadJavaName(ParseError { at: q + 1, kind: ParseErrorKind::ExpectedStrLit })
                    }
                } else {
                    AttrEffect::Ignored
                };
                Ok((eff, e + 1))
            },
        }
    } else {
        Err(ParseError { at: q, kind: ParseErrorKind::UnexpectedToken })
    }
}

/// Adds one attribute's effect (see `add_effect`).
fn apply_effect(a: Attrs, eff: AttrEffect) -> (r: Attrs)
    ensures
        r == add_effect(a, eff),
{
    match eff {
        AttrEffect::NoActivity => Attrs { no_activity: true, ..a },
        AttrEffect::JavaName(t) => if a.bad_java_name.is_some() { a } else { Attrs { java_name: Some(t), ..a } },
        AttrEffect::BadJavaName(e) => if a.bad_java_name.is_some() { a } else { Attrs { bad_java_name: Some(e), ..a } },
        AttrEffect::Ignored => a,
    }
}

/// The outer attributes from `start` on (see `spec_attrs`).
fn parse_attrs(toks: &Vec<Tok>, start: usize) -> (r: Result<(Attrs, usize), ParseError>)
    requires
        start <= toks.len(),
    ensures
        r == spec_attrs(toks@, start, no_attrs()),
        r matches Ok((_, j)) ==> start <= j <= toks.len(),
{
    let mut i = start;
    let mut a = Attrs { no_activity: false, java_name: None, bad_java_name: None };
    while tok_is_punct(toks, i, '#')
        invariant
            start <= i <= toks.len(),
            spec_attrs(toks@, start, no_attrs()) == spec_attrs(toks@, i, a),
        decreases toks.len() - i,
    {
        match parse_attr(toks, i) {
            Err(e) => return Err(e),
            Ok((eff, j)) => {
                a = apply_effect(a, eff);
                i = j;
            },
        }
    }
    Ok((a, i))
}

/// The parameter list after the `(` at `start - 1` (see `spec_param_list`).
fn parse_param_list(toks: &Vec<Tok>, start: usize) -> (r: Result<(Vec<MethodParam>, usize), ParseError>)
    requires
        start <= toks.len(),
    ensures
        r matches Ok((ps, j)) ==> spec_param_list(toks@, start, Seq::empty()) == Ok::<_, ParseError>((ps@, j))
            && start < j <= toks.len(),
        r matches Err(e) ==> spec_param_list(toks@, start, Seq::empty()) == Err::<(Seq<MethodParam>, usize), _>(e),
{
    let mut i = start;
    let mut params: Vec<MethodParam> = Vec::new();
    loop
        invariant
            start <= i <= toks.len(),
            spec_param_list(toks@, start, Seq::empty()) == spec_param_list(toks@, i, params@),
        decreases toks.len() - i,
    {
        if i >= toks.len() {
            return Err(ParseError { at: i, kind: ParseErrorKind::UnexpectedEnd });
        }
        if tok_is_close(toks, i) {
            return Ok((params, i + 1));
        }
        if let Err(e) = parse_ident(toks, i) {
            return Err(e);
        }
        let s = match parse_punct(toks, i + 1, ':') {
            Err(e) => return Err(e),
            Ok(s) => s,
        };
        let e = match scan_type_end(toks, s) {
            None => return Err(ParseError { at: toks.len(), kind: ParseErrorKind::UnexpectedEnd }),
            Some(e) => e,
        };
        if e == s {
            return Err(ParseError { at: s, kind: ParseErrorKind::ExpectedType });
        }
        let p = MethodParam { name: i, ty_start: s, ty_end: e };
        if tok_is_close(toks, e) {
            params.push(p);
            return Ok((params, e + 1));
        } else if tok_is_punct(toks, e, ',') {
            params.push(p);
            i = e + 1;
        } else {
            return Err(ParseError { at: e, kind: ParseErrorKind::ExpectedPunct(',') });
        }
    }
}

/// `( params )` at `i` (see `spec_params`).
fn parse_params(toks: &Vec<Tok>, i: usize) -> (r: Result<(Vec<MethodParam>, usize), ParseError>)
    ensures
        r matches Ok((ps, j)) ==> spec_params(toks@, i) == Ok::<_, ParseError>((ps@, j)) && i < j <= toks.len(),
        r matches Err(e) ==> spec_params(toks@, i) == Err::<(Seq<MethodParam>, usize), _>(e),
{
    if !tok_is_open_with(toks, i, Delim::Paren) {
        return Err(ParseError { at: i, kind: ParseErrorKind::ExpectedGroup(Delim::Paren) });
    }
    parse_param_list(toks, i + 1)
}

/// An optional `-> type` at `i` (see `spec_ret`).
fn parse_ret(toks: &Vec<Tok>, i: usize) -> (r: Result<(Option<TypeSpan>, usize), ParseError>)
    requires
        i <= toks.len(),
    ensures
        r == spec_ret(toks@, i),
        r matches Ok((_, j)) ==> i <= j <= toks.len(),
{
    if tok_is_joint_punct(toks, i, '-') && tok_is_punct(toks, i + 1, '>') {
        let s = i + 2;
        match scan_type_end(toks, s) {
            None => Err(ParseError { at: toks.len(), kind: ParseErrorKind::UnexpectedEnd }),
            Some(e) => if e == s {
                Err(ParseError { at: s, kind: ParseErrorKind::ExpectedType })
            } else {
                Ok((Some(TypeSpan { start: s, end: e }), e))
            },
        }
    } else {
        Ok((None, i))
    }
}

/// `fn NAME ( params ) [-> type] ;` with `fn` at `i` (see `spec_signature`).
fn parse_signature(toks: &Vec<Tok>, i: usize) -> (r: Result<(usize, Vec<MethodParam>, Option<TypeSpan>, usize), ParseError>)
    ensures
        r matches Ok((n, ps, ret, end)) ==> spec_signature(toks@, i) == Ok::<_, ParseError>((n, ps@, ret, end))
            && i < end <= toks.len(),
        r matches Err(e) ==> spec_signature(toks@, i) == Err::<(usize, Seq<MethodParam>, Option<TypeSpan>, usize), _>(e),
{
    if !tok_ident_is(toks, i, "fn") {
        return Err(ParseError { at: i, kind: ParseErrorKind::ExpectedFn });
    }
    let n = i + 1;
    let k = match parse_ident(toks, n) {
        Err(e) => return Err(e),
        Ok(k) => k,
    };
    let (params, l) = match parse_params(toks, k) {
        Err(e) => return Err(e),
        Ok(v) => v,
    };
    let (ret, m) = match parse_ret(toks, l) {
        Err(e) => return Err(e),
        Ok(v) => v,
    };
    match parse_punct(toks, m, ';') {
        Err(e) => Err(e),
        Ok(end) => Ok((n, params, ret, end)),
    }
}

/// One method at `i` (see `spec_method`).
fn parse_method(toks: &Vec<Tok>, i: usize) -> (r: Result<(BridgeMethod, usize), ParseError>)
    requires
        i <= toks.len(),
    ensures
        r matches Ok((m, j)) ==> spec_method(toks@, i) == Ok::<_, ParseError>((m@, j)) && i < j <= toks.len(),
        r matches Err(e) ==> spec_method(toks@, i) == Err::<(BridgeMethodV, usize), _>(e),
{
    let (a, j) = match parse_attrs(toks, i) {
        Err(e) => return Err(e),
        Ok(v) => v,
    };
    if let Some(e) = a.bad_java_name {
        return Err(e);
    }
    if tok_ident_is(toks, j, "static") {
        match parse_signature(toks, j + 1) {
            Err(e) => Err(e),
            Ok((n, params, ret, end)) => Ok((BridgeMethod::Static(StaticMethod {
                no_activity: a.no_activity,
                java_name_override: a.java_name,
                rust_name: n,
                params,
                ret_ty: ret,
            }), end)),
        }
    } else {
        if let Err(e) = parse_ident(toks, j) {
            return Err(e);
        }
        if tok_ident_is(toks, j, "callback") {
            match parse_signature(toks, j + 1) {
                Err(e) => Err(e),
                Ok((n, params, ret, end)) => Ok((BridgeMethod::Callback(CallbackMethod {
                    rust_name: n,
                    params,
                    ret_ty: ret,
                }), end)),
            }
        } else {
            Err(ParseError { at: j, kind: ParseErrorKind::ExpectedStaticOrCallback })
        }
    }
}

/// The methods of a class from `start` on, through its `}` (see `spec_methods`).
fn parse_methods(toks: &Vec<Tok>, start: usize) -> (r: Result<(Vec<BridgeMethod>, usize), ParseError>)
    requires
        start <= toks.len(),
    ensures
        r matches Ok((ms, j)) ==> spec_methods(toks@, start, Seq::empty()) == Ok::<_, ParseError>((methods_view(ms@), j))
            && start < j <= toks.len(),
        r matches Err(e) ==> spec_methods(toks@, start, Seq::empty()) == Err::<(Seq<BridgeMethodV>, usize), _>(e),
{
    let mut i = start;
    let mut methods: Vec<BridgeMethod> = Vec::new();
    assert(methods_view(methods@) =~= Seq::empty());
    loop
        invariant
            start <= i <= toks.len(),
            spec_methods(toks@, start, Seq::empty()) == spec_methods(toks@, i, methods_view(methods@)),
        decreases toks.len() - i,
    {
        if i >= toks.len() {
            return Err(ParseError { at: i, kind: ParseErrorKind::UnexpectedEnd });
        }
        if tok_is_close(toks, i) {
            return Ok((methods, i + 1));
        }
        if tok_is_punct(toks, i, ',') {
            i = i + 1;
        } else {
            match parse_method(toks, i) {
                Err(e) => return Err(e),
                Ok((m, j)) => {
                    let ghost before = methods@;
                    methods.push(m);
                    assert(methods_view(methods@) =~= methods_view(before).push(m@));
                    i = j;
                },
            }
        }
    }
}

/// One class at `i` (see `spec_class`).
fn parse_class(toks: &Vec<Tok>, i: usize) -> (r: Result<(BridgeClass, usize), ParseError>)
    requires
        i <= toks.len(),
    ensures
        r matches Ok((c, j)) ==> spec_class(toks@, i) == Ok::<_, ParseError>((c@, j)) && i < j <= toks.len(),
        r matches Err(e) ==> spec_class(toks@, i) == Err::<(BridgeClassV, usize), _>(e),
{
    if let Err(e) = parse_ident(toks, i) {
        return Err(e);
    }
    if !tok_ident_is(toks, i, "class") {
        return Err(ParseError { at: i, kind: ParseErrorKind::ExpectedClass });
    }
    let n = i + 1;
    let b = match parse_ident(toks, n) {
        Err(e) => return Err(e),
        Ok(b) => b,
    };
    if !tok_is_open_with(toks, b, Delim::Brace) {
        return Err(ParseError { at: b, kind: ParseErrorKind::ExpectedGroup(Delim::Brace) });
    }
    let c = b + 1;
    if let Err(e) = parse_ident(toks, c) {
        return Err(e);
    }
    if !tok_ident_is(toks, c, "java_name") {
        return Err(ParseError { at: c, kind: ParseErrorKind::ExpectedJavaName });
    }
    let l = match parse_punct(toks, c + 1, '=') {
        Err(e) => return Err(e),
        Ok(l) => l,
    };
    if !tok_is_str_lit(toks, l) {
        return Err(ParseError { at: l, kind: ParseErrorKind::ExpectedStrLit });
    }
    let k = if tok_is_punct(toks, l + 1, ',') { l + 2 } else { l + 1 };
    match parse_methods(toks, k) {
        Err(e) => Err(e),
        Ok((methods, end)) => Ok((BridgeClass { rust_name: n, java_name: l, methods }, end)),
    }
}

/// The classes from `k` to the end of the input (see `spec_classes`).
fn parse_classes(toks: &Vec<Tok>, k: usize) -> (r: Result<Vec<BridgeClass>, ParseError>)
    requires
        k <= toks.len(),
    ensures
        r matches Ok(cs) ==> spec_classes(toks@, k, Seq::empty()) == Ok::<_, ParseError>(classes_view(cs@)),
        r matches Err(e) ==> spec_classes(toks@, k, Seq::empty()) == Err::<Seq<BridgeClassV>, _>(e),
{
    proof {
        assert(toks@.len() == toks.len());
    }
    let mut i = k;
    let mut classes: Vec<BridgeClass> = Vec::new();
    assert(classes_view(classes@) =~= Seq::empty());
    while i < toks.len()
        invariant
            k <= i <= toks.len(),
            toks@.len() == toks.len(),
            spec_classes(toks@, k, Seq::empty()) == spec_classes(toks@, i, classes_view(classes@)),
        decreases toks.len() - i,
    {
        if tok_is_punct(toks, i, ',') {
            i = i + 1;
        } else {
            match parse_class(toks, i) {
                Err(x) => return Err(x),
                Ok((c, j)) => {
                    let ghost before = classes@;
                    classes.push(c);
                    assert(classes_view(classes@) =~= classes_view(before).push(c@));
                    i = j;
                },
            }
        }
    }
    Ok(classes)
}

/// Reads the whole `android_bridge!` input (see `spec_block`).
pub fn parse_block(toks: &Vec<Tok>) -> (r: Result<BridgeBlock, ParseError>)
    ensures
        r matches Ok(b) ==> spec_block(toks@) == Ok::<_, ParseError>(b@),
        r matches Err(e) ==> spec_block(toks@) == Err::<BridgeBlockV, _>(e),
{
    proof {
        assert(toks@.len() == toks.len());
    }
    if let Err(e) = parse_ident(toks, 0) {
        return Err(e);
    }
    if !tok_ident_is(toks, 0, "dex") {
        return Err(ParseError { at: 0, kind: ParseErrorKind::ExpectedDex });
    }
    if let Err(e) = parse_punct(toks, 1, '=') {
        return Err(e);
    }
    let e = match scan_expr_end(toks, 2) {
        None => return Err(ParseError { at: toks.len(), kind: ParseErrorKind::UnexpectedEnd }),
        Some(e) => e,
    };
    if e == 2 {
        return Err(ParseError { at: 2, kind: ParseErrorKind::ExpectedExpr });
    }
    let k = match parse_punct(toks, e, ',') {
        Err(x) => return Err(x),
        Ok(k) => k,
    };
    match parse_classes(toks, k) {
        Err(x) => Err(x),
        Ok(classes) => Ok(BridgeBlock { dex_start: 2, dex_end: e, classes }),
    }
}

// ---- What a successful parse guarantees ---------------------------------------------

/// Token `i` is a name: an identifier that is not a keyword.
pub open spec fn is_name(toks: Seq<Tok>, i: usize) -> bool {
    spec_ident(toks, i) is Ok
}

/// A parameter's name is a name and its type is a nonempty span of the input.
pub open spec fn param_ok(toks: Seq<Tok>, p: MethodParam) -> bool {
    is_name(toks, p.name) && p.ty_start < p.ty_end <= toks.len()
}

/// Every parameter is well formed.
pub open spec fn params_ok(toks: Seq<Tok>, ps: Seq<MethodParam>) -> bool {
    forall|j: int| 0 <= j < ps.len() ==> param_ok(toks, #[trigger] ps[j])
}

/// A result type, if any, is a nonempty span of the input.
pub open spec fn ret_ok(toks: Seq<Tok>, r: Option<TypeSpan>) -> bool {
    r matches Some(sp) ==> sp.start < sp.end <= toks.len()
}

/// A method's name is a name, its `#[java_name]` is a string literal, and its parameters
/// and result type are well formed.
pub open spec fn method_ok(toks: Seq<Tok>, m: BridgeMethodV) -> bool {
    match m {
        BridgeMethodV::Static(s) => is_name(toks, s.rust_name)
            && (s.java_name_override matches Some(t) ==> is_str_lit(toks, t as int))
            && params_ok(toks, s.params) && ret_ok(toks, s.ret_ty),
        BridgeMethodV::Callback(c) => is_name(toks, c.rust_name) && params_ok(toks, c.params) && ret_ok(toks, c.ret_ty),
    }
}

/// Every method is well formed.
pub open spec fn methods_ok(toks: Seq<Tok>, ms: Seq<BridgeMethodV>) -> bool {
    forall|j: int| 0 <= j < ms.len() ==> method_ok(toks, #[trigger] ms[j])
}

/// A class's name is a name, its `java_name` is a string literal, and its methods are well formed.
pub open spec fn class_ok(toks: Seq<Tok>, c: BridgeClassV) -> bool {
    is_name(toks, c.rust_name) && is_str_lit(toks, c.java_name as int) && methods_ok(toks, c.methods)
}

/// Every class is well formed.
pub open spec fn classes_ok(toks: Seq<Tok>, cs: Seq<BridgeClassV>) -> bool {
    forall|j: int| 0 <= j < cs.len() ==> class_ok(toks, #[trigger] cs[j])
}

/// The DEX expression is the nonempty run of tokens after `dex =` up to a comma, and every
/// class is well formed.
pub open spec fn block_ok(toks: Seq<Tok>, b: BridgeBlockV) -> bool {
    &&& b.dex_start == 2
    &&& b.dex_start < b.dex_end
    &&& is_punct(toks, b.dex_end as int, ',')
    &&& classes_ok(toks, b.classes)
}

proof fn lemma_scan_type_bounds(toks: Seq<Tok>, i: usize, depth: nat, angle: nat)
    requires
        i <= toks.len(),
    ensures
        scan_type(toks, i, depth, angle) matches Some(e) ==> i <= e <= toks.len(),
    decreases toks.len() - i,
{
    if i < toks.len() && toks.len() <= usize::MAX {
        match toks[i as int] {
            Tok::Open { .. } => lemma_scan_type_bounds(toks, (i + 1) as usize, depth + 1, angle),
            Tok::Close { .. } => if depth > 0 {
                lemma_scan_type_bounds(toks, (i + 1) as usize, (depth - 1) as nat, angle)
            },
            Tok::Punct { ch, .. } => {
                if depth == 0 && angle == 0 && (ch == ',' || ch == ';') {
                } else if depth == 0 && ch == '<' {
                    lemma_scan_type_bounds(toks, (i + 1) as usize, depth, angle + 1)
                } else if depth == 0 && ch == '>' && angle > 0 {
                    lemma_scan_type_bounds(toks, (i + 1) as usize, depth, (angle - 1) as nat)
                } else {
                    lemma_scan_type_bounds(toks, (i + 1) as usize, depth, angle)
                }
            },
            _ => lemma_scan_type_bounds(toks, (i + 1) as usize, depth, angle),
        }
    }
}

proof fn lemma_scan_expr_bounds(toks: Seq<Tok>, i: usize, depth: nat, angle: nat, params: bool)
    requires
        i <= toks.len(),
    ensures
        scan_expr(toks, i, depth, angle, params) matches Some(e) ==> i <= e <= toks.len(),
    decreases toks.len() - i,
{
    if i < toks.len() && toks.len() <= usize::MAX {
        let n = (i + 1) as usize;
        match toks[i as int] {
            Tok::Open { .. } => lemma_scan_expr_bounds(toks, n, depth + 1, angle, params),
            Tok::Close { .. } => if depth > 0 {
                lemma_scan_expr_bounds(toks, n, (depth - 1) as nat, angle, params)
            },
            Tok::Punct { ch, .. } => {
                lemma_scan_expr_bounds(toks, n, depth, angle + 1, params);
                lemma_scan_expr_bounds(toks, n, depth, angle, params);
                lemma_scan_expr_bounds(toks, n, depth, angle, true);
                lemma_scan_expr_bounds(toks, n, depth, angle, false);
                if angle > 0 {
                    lemma_scan_expr_bounds(toks, n, depth, (angle - 1) as nat, params);
                }
            },
            _ => lemma_scan_expr_bounds(toks, n, depth, angle, params),
        }
    }
}

proof fn lemma_param_list_ok(toks: Seq<Tok>, i: usize, acc: Seq<MethodParam>)
    requires
        params_ok(toks, acc),
    ensures
        spec_param_list(toks, i, acc) matches Ok((ps, _)) ==> params_ok(toks, ps),
    decreases toks.len() - i,
{
    if i < toks.len() && toks.len() <= usize::MAX && !is_close(toks, i as int) {
        if spec_ident(toks, i) is Ok {
            if let Ok(s) = spec_punct(toks, (i + 1) as usize, ':') {
                lemma_scan_type_bounds(toks, s, 0, 0);
                if let Some(e) = scan_type(toks, s, 0, 0) {
                    if e != s {
                        let p = MethodParam { name: i, ty_start: s, ty_end: e };
                        assert(param_ok(toks, p));
                        assert(params_ok(toks, acc.push(p))) by {
                            assert forall|j: int| 0 <= j < acc.push(p).len() implies param_ok(toks, #[trigger] acc.push(p)[j]) by {
                                if j < acc.len() {
                                    assert(acc.push(p)[j] == acc[j]);
                                }
                            }
                        }
                        if !is_close(toks, e as int) && is_punct(toks, e as int, ',') && i < e {
                            lemma_param_list_ok(toks, (e + 1) as usize, acc.push(p));
                        }
                    }
                }
            }
        }
    }
}

proof fn lemma_attrs_ok(toks: Seq<Tok>, i: usize, a: Attrs)
    requires
        a.java_name matches Some(t) ==> is_str_lit(toks, t as int),
    ensures
        spec_attrs(toks, i, a) matches Ok((a2, _)) ==> (a2.java_name matches Some(t) ==> is_str_lit(toks, t as int)),
    decreases toks.len() - i,
{
    if is_punct(toks, i as int, '#') {
        if let Ok((eff, j)) = spec_attr(toks, i) {
            if i < j <= toks.len() {
                lemma_attrs_ok(toks, j, add_effect(a, eff));
            }
        }
    }
}

proof fn lemma_signature_ok(toks: Seq<Tok>, i: usize)
    ensures
        spec_signature(toks, i) matches Ok((n, ps, ret, _)) ==> is_name(toks, n) && params_ok(toks, ps) && ret_ok(toks, ret),
{
    if ident_is(toks, i as int, "fn"@) {
        let n = (i + 1) as usize;
        if let Ok(k) = spec_ident(toks, n) {
            if is_open_with(toks, k as int, Delim::Paren) {
                lemma_param_list_ok(toks, (k + 1) as usize, Seq::empty());
            }
            if let Ok((_, l)) = spec_params(toks, k) {
                if is_joint_punct(toks, l as int, '-') && is_punct(toks, l + 1, '>') {
                    lemma_scan_type_bounds(toks, (l + 2) as usize, 0, 0);
                }
            }
        }
    }
}

proof fn lemma_method_ok(toks: Seq<Tok>, i: usize)
    ensures
        spec_method(toks, i) matches Ok((m, _)) ==> method_ok(toks, m),
{
    lemma_attrs_ok(toks, i, no_attrs());
    if let Ok((a, j)) = spec_attrs(toks, i, no_attrs()) {
        lemma_signature_ok(toks, (j + 1) as usize);
    }
}

proof fn lemma_methods_ok(toks: Seq<Tok>, i: usize, acc: Seq<BridgeMethodV>)
    requires
        methods_ok(toks, acc),
    ensures
        spec_methods(toks, i, acc) matches Ok((ms, _)) ==> methods_ok(toks, ms),
    decreases toks.len() - i,
{
    if i < toks.len() && toks.len() <= usize::MAX && !is_close(toks, i as int) {
        if is_punct(toks, i as int, ',') {
            lemma_methods_ok(toks, (i + 1) as usize, acc);
        } else {
            lemma_method_ok(toks, i);
            if let Ok((m, j)) = spec_method(toks, i) {
                if i < j <= toks.len() {
                    assert(methods_ok(toks, acc.push(m))) by {
                        assert forall|k: int| 0 <= k < acc.push(m).len() implies method_ok(toks, #[trigger] acc.push(m)[k]) by {
                            if k < acc.len() {
                                assert(acc.push(m)[k] == acc[k]);
                            }
                        }
                    }
                    lemma_methods_ok(toks, j, acc.push(m));
                }
            }
        }
    }
}

proof fn lemma_class_ok(toks: Seq<Tok>, i: usize)
    ensures
        spec_class(toks, i) matches Ok((c, _)) ==> class_ok(toks, c),
{
    if spec_ident(toks, i) is Ok && ident_is(toks, i as int, "class"@) {
        if let Ok(b) = spec_ident(toks, (i + 1) as usize) {
            let c = (b + 1) as usize;
            if let Ok(l) = spec_punct(toks, (c + 1) as usize, '=') {
                let k = if is_punct(toks, l + 1, ',') { (l + 2) as usize } else { (l + 1) as usize };
                lemma_methods_ok(toks, k, Seq::empty());
            }
        }
    }
}

proof fn lemma_classes_ok(toks: Seq<Tok>, i: usize, acc: Seq<BridgeClassV>)
    requires
        classes_ok(toks, acc),
    ensures
        spec_classes(toks, i, acc) matches Ok(cs) ==> classes_ok(toks, cs),
    decreases toks.len() - i,
{
    if i < toks.len() && toks.len() <= usize::MAX {
        if is_punct(toks, i as int, ',') {
            lemma_classes_ok(toks, (i + 1) as usize, acc);
        } else {
            lemma_class_ok(toks, i);
            if let Ok((c, j)) = spec_class(toks, i) {
                if i < j <= toks.len() {
                    assert(classes_ok(toks, acc.push(c))) by {
                        assert forall|k: int| 0 <= k < acc.push(c).len() implies class_ok(toks, #[trigger] acc.push(c)[k]) by {
                            if k < acc.len() {
                                assert(acc.push(c)[k] == acc[k]);
                            }
                        }
                    }
                    lemma_classes_ok(toks, j, acc.push(c));
                }
            }
        }
    }
}

/// A block that parses hands out only names that are identifiers and not keywords,
/// `java_name` values that are string literals, type spans that are nonempty runs of the
/// input, and a DEX expression that is the nonempty run of tokens up to its comma.
pub proof fn lemma_parsed_block_ok(toks: Seq<Tok>)
    ensures
        spec_block(toks) matches Ok(b) ==> block_ok(toks, b),
{
    if spec_ident(toks, 0) is Ok && ident_is(toks, 0, "dex"@) && spec_punct(toks, 1, '=') is Ok {
        lemma_scan_expr_bounds(toks, 2, 0, 0, false);
        if let Some(e) = scan_expr(toks, 2, 0, 0, false) {
            if let Ok(k) = spec_punct(toks, e, ',') {
                lemma_classes_ok(toks, k, Seq::empty());
            }
        }
    }
}

} // verus!
