//! The argument grammar of the transform, and its parser.
//!
//! An invocation carries a comma-separated list of `key = value` pairs, where
//! the key is one of the two reserved keywords: `context`, whose value is an
//! arbitrary expression taken verbatim, and `fmt`, whose value is a string
//! literal treated as a format template. Exactly one of the two must be
//! supplied; a duplicate, an unknown keyword, a malformed value, or supplying
//! both or neither is a parse error.
//!
//! The scanners below recognise the argument list's own surface: whitespace,
//! keywords, and string literals, plain or raw with `#` guard marks. The
//! extent of a `context` expression is found by trying each comma-delimited
//! candidate in turn and taking the first whose text is a well-formed
//! expression, so a comma standing inside the expression — in a closure's
//! parameters, a generic argument list, a call, a literal — never cuts it
//! short. Whether a text is a well-formed expression or string literal of the
//! host language is not this grammar's business: that check is delegated.

use vstd::prelude::*;
use vstd::string::StrSliceExecFns;
use vstd::string::StringExecFns;

verus! {

/// A whitespace character of the argument list.
pub open spec fn is_ws_char(c: char) -> bool {
    c == ' ' || c == '\t' || c == '\n' || c == '\r'
}

/// A character that may start a keyword.
pub open spec fn is_ident_start(c: char) -> bool {
    c == '_' || ('a' <= c && c <= 'z') || ('A' <= c && c <= 'Z')
}

/// A character that may continue a keyword.
pub open spec fn is_ident_char(c: char) -> bool {
    is_ident_start(c) || ('0' <= c && c <= '9')
}

/// The first position at or after `i` holding no whitespace.
pub open spec fn skip_ws(s: Seq<char>, i: int) -> int
    decreases s.len() - i,
{
    if 0 <= i && i < s.len() && is_ws_char(s[i]) {
        skip_ws(s, i + 1)
    } else {
        i
    }
}

/// The end of the identifier run starting at `i`.
pub open spec fn scan_ident(s: Seq<char>, i: int) -> int
    decreases s.len() - i,
{
    if 0 <= i && i < s.len() && is_ident_char(s[i]) {
        scan_ident(s, i + 1)
    } else {
        i
    }
}

/// Scans the inside of a string literal from `i` (just after the opening
/// quote) to the closing quote, skipping backslash escapes. `None` when the
/// literal is unterminated.
pub open spec fn scan_str(s: Seq<char>, i: int) -> Option<int>
    decreases s.len() - i,
{
    if i < 0 || i >= s.len() {
        Option::None
    } else if s[i] == '\\' {
        if i + 1 < s.len() {
            scan_str(s, i + 2)
        } else {
            Option::None
        }
    } else if s[i] == '"' {
        Option::Some(i)
    } else {
        scan_str(s, i + 1)
    }
}

/// The first position at or after `i` holding a comma, or the end.
pub open spec fn scan_to_comma(s: Seq<char>, i: int) -> int
    decreases s.len() - i,
{
    if 0 <= i && i < s.len() && s[i] != ',' {
        scan_to_comma(s, i + 1)
    } else {
        i
    }
}

/// The end of the run of `#` guard marks starting at `i`.
pub open spec fn scan_hashes(s: Seq<char>, i: int) -> int
    decreases s.len() - i,
{
    if 0 <= i && i < s.len() && s[i] == '#' {
        scan_hashes(s, i + 1)
    } else {
        i
    }
}

/// Whether `h` `#` guard marks stand at `j`.
pub open spec fn hashes_at(s: Seq<char>, j: int, h: int) -> bool
    decreases h,
{
    if h <= 0 {
        true
    } else {
        0 <= j && j < s.len() && s[j] == '#' && hashes_at(s, j + 1, h - 1)
    }
}

/// Scans the body of a raw string literal with `h` guard marks from `i`
/// (just after the opening quote): it ends at a quote followed by `h` guard
/// marks, and the position after the last of them is returned. `None` when
/// the literal is unterminated.
pub open spec fn scan_raw_str(s: Seq<char>, i: int, h: int) -> Option<int>
    decreases s.len() - i,
{
    if i < 0 || i >= s.len() {
        Option::None
    } else if s[i] == '"' && hashes_at(s, i + 1, h) {
        Option::Some(i + 1 + h)
    } else {
        scan_raw_str(s, i + 1, h)
    }
}

/// The end of `s[v..e]` with trailing whitespace dropped.
pub open spec fn trim_back(s: Seq<char>, v: int, e: int) -> int
    decreases e - v,
{
    if e > v && is_ws_char(s[e - 1]) {
        trim_back(s, v, e - 1)
    } else {
        e
    }
}

pub proof fn lemma_skip_ws_bounds(s: Seq<char>, i: int)
    requires
        0 <= i <= s.len(),
    ensures
        i <= skip_ws(s, i) <= s.len(),
    decreases s.len() - i,
{
    if i < s.len() && is_ws_char(s[i]) {
        lemma_skip_ws_bounds(s, i + 1);
    }
}

pub proof fn lemma_scan_ident_bounds(s: Seq<char>, i: int)
    requires
        0 <= i <= s.len(),
    ensures
        i <= scan_ident(s, i) <= s.len(),
    decreases s.len() - i,
{
    if i < s.len() && is_ident_char(s[i]) {
        lemma_scan_ident_bounds(s, i + 1);
    }
}

pub proof fn lemma_scan_str_bounds(s: Seq<char>, i: int)
    ensures
        scan_str(s, i) matches Option::Some(q) ==> i <= q < s.len(),
    decreases s.len() - i,
{
    if 0 <= i && i < s.len() {
        if s[i] == '\\' && i + 1 < s.len() {
            lemma_scan_str_bounds(s, i + 2);
        } else {
            lemma_scan_str_bounds(s, i + 1);
        }
    } else if i < 0 {
        lemma_scan_str_bounds(s, i + 1);
    }
}

pub proof fn lemma_scan_to_comma_bounds(s: Seq<char>, i: int)
    requires
        0 <= i <= s.len(),
    ensures
        i <= scan_to_comma(s, i) <= s.len(),
    decreases s.len() - i,
{
    if i < s.len() && s[i] != ',' {
        lemma_scan_to_comma_bounds(s, i + 1);
    }
}

pub proof fn lemma_scan_hashes_bounds(s: Seq<char>, i: int)
    requires
        0 <= i <= s.len(),
    ensures
        i <= scan_hashes(s, i) <= s.len(),
    decreases s.len() - i,
{
    if i < s.len() && s[i] == '#' {
        lemma_scan_hashes_bounds(s, i + 1);
    }
}

pub proof fn lemma_hashes_at_bounds(s: Seq<char>, j: int, h: int)
    requires
        1 <= h,
    ensures
        hashes_at(s, j, h) ==> 0 <= j && j + h <= s.len(),
    decreases h,
{
    if h > 1 && hashes_at(s, j, h) {
        lemma_hashes_at_bounds(s, j + 1, h - 1);
    }
}

pub proof fn lemma_scan_raw_str_bounds(s: Seq<char>, i: int, h: int)
    requires
        0 <= h,
    ensures
        scan_raw_str(s, i, h) matches Option::Some(p) ==> i < p <= s.len(),
    decreases s.len() - i,
{
    if 0 <= i && i < s.len() {
        if s[i] == '"' && hashes_at(s, i + 1, h) {
            if h >= 1 {
                lemma_hashes_at_bounds(s, i + 1, h);
            }
        } else {
            lemma_scan_raw_str_bounds(s, i + 1, h);
        }
    } else if i < 0 {
        lemma_scan_raw_str_bounds(s, i + 1, h);
    }
}

/// Whether a text is a well-formed expression of the host language.
pub uninterp spec fn expr_wf(s: Seq<char>) -> bool;

/// Whether a text is a single well-formed string literal of the host language.
pub uninterp spec fn lit_wf(s: Seq<char>) -> bool;

/// Relies on syn::parse_str::<syn::Expr>: whether the text parses as one
/// expression; the result depends on the text alone. syn lexes through
/// proc-macro2, whose standalone lexer is assumed to agree with the
/// compiler's.
#[verifier::external_body]
fn is_expr(s: &str) -> (r: bool)
    ensures
        r == expr_wf(s@),
{
    syn::parse_str::<syn::Expr>(s).is_ok()
}

/// Relies on syn::parse_str::<syn::LitStr>: whether the text parses as one
/// string literal, plain or raw; the result depends on the text alone. syn
/// lexes through proc-macro2, whose standalone lexer is assumed to agree with
/// the compiler's.
#[verifier::external_body]
fn is_str_lit(s: &str) -> (r: bool)
    ensures
        r == lit_wf(s@),
{
    syn::parse_str::<syn::LitStr>(s).is_ok()
}

/// The extent of a `context` value that starts at `v`: candidate extents end
/// at each comma at or after `from` and at the end of the input, tried left
/// to right; the first whose text, trailing whitespace dropped, is a
/// well-formed expression is taken, so a comma standing inside the expression
/// never cuts it short, while a comma that ends it is never swallowed — a
/// strict prefix of a well-formed expression is itself never well-formed.
/// `None` when no candidate is well-formed.
pub open spec fn scan_context_value(s: Seq<char>, v: int, from: int) -> Option<int>
    decreases s.len() - from,
    via scan_context_value_dec
{
    if from < 0 || from > s.len() {
        Option::None
    } else {
        let c = scan_to_comma(s, from);
        if expr_wf(s.subrange(v, trim_back(s, v, c))) {
            Option::Some(c)
        } else if c >= s.len() {
            Option::None
        } else {
            scan_context_value(s, v, c + 1)
        }
    }
}

#[via_fn]
proof fn scan_context_value_dec(s: Seq<char>, v: int, from: int) {
    if 0 <= from && from <= s.len() {
        lemma_scan_to_comma_bounds(s, from);
    }
}

pub proof fn lemma_scan_context_value_bounds(s: Seq<char>, v: int, from: int)
    requires
        0 <= from <= s.len(),
    ensures
        scan_context_value(s, v, from) matches Option::Some(e) ==> from <= e <= s.len(),
    decreases s.len() - from,
{
    lemma_scan_to_comma_bounds(s, from);
    let c = scan_to_comma(s, from);
    if !expr_wf(s.subrange(v, trim_back(s, v, c))) && c < s.len() {
        lemma_scan_context_value_bounds(s, v, c + 1);
    }
}

/// A parse error of the argument list.
#[derive(Clone, Copy, Debug, PartialEq, Eq, Structural)]
pub enum ArgError {
    /// `context` was supplied twice.
    DuplicateContext,
    /// `fmt` was supplied twice.
    DuplicateFmt,
    /// Both `context` and `fmt` were supplied.
    BothContextAndFmt,
    /// Neither `context` nor `fmt` was supplied.
    MissingArgument,
    /// An unknown keyword, or the list's own syntax is broken.
    UnexpectedArguments,
    /// The value of `context` is missing or is not a well-formed expression.
    MalformedContext,
    /// The value of `fmt` is not a well-formed string literal.
    MalformedFmt,
}

/// The description of each parse error.
pub open spec fn spec_message(e: ArgError) -> Seq<char> {
    match e {
        ArgError::DuplicateContext => "expected only a single `context` argument"@,
        ArgError::DuplicateFmt => "expected only a single `fmt` argument"@,
        ArgError::BothContextAndFmt => "expected only one of `context` or `fmt` arguments"@,
        ArgError::MissingArgument => "expected `context` or `fmt` arguments"@,
        ArgError::UnexpectedArguments => "unexpected arguments"@,
        ArgError::MalformedContext => "expected an expression as the `context` argument"@,
        ArgError::MalformedFmt => "expected a string literal as the `fmt` argument"@,
    }
}

impl ArgError {
    /// A human-readable description of the error.
    pub fn message(&self) -> (r: String)
        ensures
            r@ == spec_message(*self),
    {
        match self {
            ArgError::DuplicateContext => String::from_str("expected only a single `context` argument"),
            ArgError::DuplicateFmt => String::from_str("expected only a single `fmt` argument"),
            ArgError::BothContextAndFmt => String::from_str(
                "expected only one of `context` or `fmt` arguments",
            ),
            ArgError::MissingArgument => String::from_str("expected `context` or `fmt` arguments"),
            ArgError::UnexpectedArguments => String::from_str("unexpected arguments"),
            ArgError::MalformedContext => String::from_str(
                "expected an expression as the `context` argument",
            ),
            ArgError::MalformedFmt => String::from_str(
                "expected a string literal as the `fmt` argument",
            ),
        }
    }
}

/// The parsed argument, at the specification level: either the expression
/// text of `context`, or the template literal of `fmt`, verbatim.
pub enum ArgShape {
    Literal(Seq<char>),
    Template(Seq<char>),
}

/// The views of a pair of optional texts.
pub open spec fn opt_view(o: Option<String>) -> Option<Seq<char>> {
    match o {
        Option::Some(t) => Option::Some(t@),
        Option::None => Option::None,
    }
}

/// What parsing yields once the input is exhausted, given which keywords
/// were seen: exactly one of the two must have been supplied.
pub open spec fn finish_args(ctx: Option<Seq<char>>, fmt: Option<Seq<char>>) -> Result<
    ArgShape,
    ArgError,
> {
    match (ctx, fmt) {
        (Option::Some(c), Option::None) => Result::Ok(ArgShape::Literal(c)),
        (Option::None, Option::Some(f)) => Result::Ok(ArgShape::Template(f)),
        (Option::Some(_), Option::Some(_)) => Result::Err(ArgError::BothContextAndFmt),
        (Option::None, Option::None) => Result::Err(ArgError::MissingArgument),
    }
}

/// What follows a parsed value at `p`: either the input ends, or a comma
/// stands next and another pair must follow it — pairs are strictly
/// separated by commas, so a trailing comma is an error.
pub open spec fn parse_after_value(
    s: Seq<char>,
    p: int,
    ctx: Option<Seq<char>>,
    fmt: Option<Seq<char>>,
) -> Result<ArgShape, ArgError>
    decreases s.len() - p, 0int,
    via parse_after_value_dec
{
    if p < 0 {
        Result::Err(ArgError::UnexpectedArguments)
    } else {
        let w = skip_ws(s, p);
        if w >= s.len() {
            finish_args(ctx, fmt)
        } else if s[w] == ',' {
            let i2 = skip_ws(s, w + 1);
            if i2 >= s.len() {
                Result::Err(ArgError::UnexpectedArguments)
            } else {
                parse_args(s, i2, ctx, fmt)
            }
        } else {
            Result::Err(ArgError::UnexpectedArguments)
        }
    }
}

#[via_fn]
proof fn parse_after_value_dec(s: Seq<char>, p: int, ctx: Option<Seq<char>>, fmt: Option<Seq<char>>) {
    if 0 <= p && p <= s.len() {
        lemma_skip_ws_bounds(s, p);
        let w = skip_ws(s, p);
        if w < s.len() {
            lemma_skip_ws_bounds(s, w + 1);
        }
    } else if p > s.len() {
        assert(skip_ws(s, p) == p);
    }
}

/// The argument grammar, from position `i` (on a keyword or at the end),
/// with the values already seen. This is the meaning of the argument list:
/// `key = value` pairs separated by commas, each keyword at most once;
/// `context` takes the first comma-delimited extent that is a well-formed
/// expression, and `fmt` takes one string literal, plain or raw.
pub open spec fn parse_args(
    s: Seq<char>,
    i: int,
    ctx: Option<Seq<char>>,
    fmt: Option<Seq<char>>,
) -> Result<ArgShape, ArgError>
    decreases s.len() - i, 1int,
    via parse_args_dec
{
    if i < 0 {
        Result::Err(ArgError::UnexpectedArguments)
    } else if i >= s.len() {
        finish_args(ctx, fmt)
    } else if !is_ident_start(s[i]) {
        Result::Err(ArgError::UnexpectedArguments)
    } else {
        let j = scan_ident(s, i);
        let kw = s.subrange(i, j);
        let k = skip_ws(s, j);
        if !(k < s.len() && s[k] == '=') {
            Result::Err(ArgError::UnexpectedArguments)
        } else {
            let v = skip_ws(s, k + 1);
            if kw == "context"@ {
                if ctx is Some {
                    Result::Err(ArgError::DuplicateContext)
                } else {
                    match scan_context_value(s, v, v) {
                        Option::None => Result::Err(ArgError::MalformedContext),
                        Option::Some(e) => {
                            let txt = s.subrange(v, trim_back(s, v, e));
                            parse_after_value(s, e, Option::Some(txt), fmt)
                        },
                    }
                }
            } else if kw == "fmt"@ {
                if fmt is Some {
                    Result::Err(ArgError::DuplicateFmt)
                } else if !(v < s.len()) {
                    Result::Err(ArgError::MalformedFmt)
                } else if s[v] == '"' {
                    match scan_str(s, v + 1) {
                        Option::None => Result::Err(ArgError::MalformedFmt),
                        Option::Some(q) => {
                            let lit = s.subrange(v, q + 1);
                            if !lit_wf(lit) {
                                Result::Err(ArgError::MalformedFmt)
                            } else {
                                parse_after_value(s, q + 1, ctx, Option::Some(lit))
                            }
                        },
                    }
                } else if s[v] == 'r' {
                    let g = scan_hashes(s, v + 1);
                    if !(g < s.len() && s[g] == '"') {
                        Result::Err(ArgError::MalformedFmt)
                    } else {
                        match scan_raw_str(s, g + 1, g - v - 1) {
                            Option::None => Result::Err(ArgError::MalformedFmt),
                            Option::Some(p) => {
                                let lit = s.subrange(v, p);
                                if !lit_wf(lit) {
                                    Result::Err(ArgError::MalformedFmt)
                                } else {
                                    parse_after_value(s, p, ctx, Option::Some(lit))
                                }
                            },
                        }
                    }
                } else {
                    Result::Err(ArgError::MalformedFmt)
                }
            } else {
                Result::Err(ArgError::UnexpectedArguments)
            }
        }
    }
}

#[via_fn]
proof fn parse_args_dec(s: Seq<char>, i: int, ctx: Option<Seq<char>>, fmt: Option<Seq<char>>) {
    if 0 <= i && i < s.len() && is_ident_start(s[i]) {
        lemma_scan_ident_bounds(s, i);
        let j = scan_ident(s, i);
        lemma_skip_ws_bounds(s, j);
        let k = skip_ws(s, j);
        if k < s.len() && s[k] == '=' {
            lemma_skip_ws_bounds(s, k + 1);
            let v = skip_ws(s, k + 1);
            lemma_scan_context_value_bounds(s, v, v);
            if v < s.len() {
                lemma_scan_str_bounds(s, v + 1);
                lemma_scan_hashes_bounds(s, v + 1);
                let g = scan_hashes(s, v + 1);
                if g < s.len() && s[g] == '"' {
                    lemma_scan_raw_str_bounds(s, g + 1, g - v - 1);
                }
            }
        }
    }
}

/// The meaning of a whole argument list.
pub open spec fn spec_parse(s: Seq<char>) -> Result<ArgShape, ArgError> {
    parse_args(s, skip_ws(s, 0), Option::None, Option::None)
}

/// The parsed arguments of one invocation: the expression text of `context`,
/// or the template literal of `fmt`, never both.
#[derive(Debug)]
pub struct ContextArgs {
    /// The expression text of a `context` argument.
    pub context: Option<String>,
    /// The template literal of a `fmt` argument, verbatim: quotes, and guard
    /// marks of a raw literal, included.
    pub fmt: Option<String>,
}

impl ContextArgs {
    /// Exactly one of the two arguments is present.
    pub open spec fn wf(self) -> bool {
        (self.context is Some) != (self.fmt is Some)
    }

    /// The specification-level shape of the parsed argument.
    pub open spec fn shape(self) -> ArgShape {
        match (self.context, self.fmt) {
            (Option::Some(c), _) => ArgShape::Literal(c@),
            (Option::None, Option::Some(f)) => ArgShape::Template(f@),
            (Option::None, Option::None) => ArgShape::Template(Seq::empty()),
        }
    }

    /// Parses an argument list. Returns the parsed argument exactly when the
    /// grammar accepts the input, and the grammar's error otherwise.
    pub fn parse(s: &str) -> (r: Result<ContextArgs, ArgError>)
        ensures
            ({
                let sp = spec_parse(s@);
                match r {
                    Result::Ok(a) => sp matches Result::Ok(sh) && a.wf() && a.shape() == sh,
                    Result::Err(e) => sp matches Result::Err(e2) && e == e2,
                }
            }),
    {
        let n: usize = s.unicode_len();
        let i0 = skip_ws_x(s, n, 0);
        parse_from(s, n, i0, Option::None, Option::None)
    }

    /// The code fragment that produces the context value: the `context`
    /// expression verbatim, or the formatting of the `fmt` template.
    pub fn get_context(self) -> (r: String)
        requires
            self.wf(),
        ensures
            r@ == spec_fragment(self.shape()),
    {
        match (self.context, self.fmt) {
            (Option::Some(c), _) => c,
            (Option::None, Option::Some(f)) => {
                let mut r = String::from_str("format!(");
                r.append(f.as_str());
                r.append(")");
                r
            },
            (Option::None, Option::None) => unreached(),
        }
    }
}

/// The code fragment a parsed argument resolves to.
pub open spec fn spec_fragment(sh: ArgShape) -> Seq<char> {
    match sh {
        ArgShape::Literal(e) => e,
        ArgShape::Template(t) => "format!("@ + t + ")"@,
    }
}

fn is_ws_x(c: char) -> (b: bool)
    ensures
        b == is_ws_char(c),
{
    c == ' ' || c == '\t' || c == '\n' || c == '\r'
}

fn ident_start_x(c: char) -> (b: bool)
    ensures
        b == is_ident_start(c),
{
    c == '_' || ('a' <= c && c <= 'z') || ('A' <= c && c <= 'Z')
}

fn ident_char_x(c: char) -> (b: bool)
    ensures
        b == is_ident_char(c),
{
    ident_start_x(c) || ('0' <= c && c <= '9')
}

fn skip_ws_x(s: &str, n: usize, i: usize) -> (r: usize)
    requires
        n == s@.len(),
        i <= n,
    ensures
        r as int == skip_ws(s@, i as int),
        i <= r <= n,
    decreases n - i,
{
    if i < n {
        let c = s.get_char(i);
        if is_ws_x(c) {
            skip_ws_x(s, n, i + 1)
        } else {
            i
        }
    } else {
        i
    }
}

fn scan_ident_x(s: &str, n: usize, i: usize) -> (r: usize)
    requires
        n == s@.len(),
        i <= n,
    ensures
        r as int == scan_ident(s@, i as int),
        i <= r <= n,
    decreases n - i,
{
    if i < n {
        let c = s.get_char(i);
        if ident_char_x(c) {
            scan_ident_x(s, n, i + 1)
        } else {
            i
        }
    } else {
        i
    }
}

fn scan_str_x(s: &str, n: usize, i: usize) -> (r: Option<usize>)
    requires
        n == s@.len(),
        i <= n,
    ensures
        match r {
            Option::Some(q) => scan_str(s@, i as int) == Option::Some(q as int) && i <= q < n,
            Option::None => scan_str(s@, i as int) is None,
        },
    decreases n - i,
{
    if i >= n {
        Option::None
    } else {
        let c = s.get_char(i);
        if c == '\\' {
            if i + 1 < n {
                scan_str_x(s, n, i + 2)
            } else {
                Option::None
            }
        } else if c == '"' {
            Option::Some(i)
        } else {
            scan_str_x(s, n, i + 1)
        }
    }
}

fn scan_to_comma_x(s: &str, n: usize, i: usize) -> (r: usize)
    requires
        n == s@.len(),
        i <= n,
    ensures
        r as int == scan_to_comma(s@, i as int),
        i <= r <= n,
    decreases n - i,
{
    if i < n {
        let c = s.get_char(i);
        if c != ',' {
            scan_to_comma_x(s, n, i + 1)
        } else {
            i
        }
    } else {
        i
    }
}

fn scan_hashes_x(s: &str, n: usize, i: usize) -> (r: usize)
    requires
        n == s@.len(),
        i <= n,
    ensures
        r as int == scan_hashes(s@, i as int),
        i <= r <= n,
    decreases n - i,
{
    if i < n {
        let c = s.get_char(i);
        if c == '#' {
            scan_hashes_x(s, n, i + 1)
        } else {
            i
        }
    } else {
        i
    }
}

fn hashes_at_x(s: &str, n: usize, j: usize, h: usize) -> (b: bool)
    requires
        n == s@.len(),
        j <= n,
    ensures
        b == hashes_at(s@, j as int, h as int),
    decreases h,
{
    if h == 0 {
        true
    } else if j < n {
        let c = s.get_char(j);
        if c == '#' {
            hashes_at_x(s, n, j + 1, h - 1)
        } else {
            false
        }
    } else {
        false
    }
}

fn scan_raw_str_x(s: &str, n: usize, i: usize, h: usize) -> (r: Option<usize>)
    requires
        n == s@.len(),
        i <= n,
    ensures
        match r {
            Option::Some(p) => scan_raw_str(s@, i as int, h as int) == Option::Some(p as int) && i
                < p <= n,
            Option::None => scan_raw_str(s@, i as int, h as int) is None,
        },
    decreases n - i,
{
    if i >= n {
        Option::None
    } else {
        let c = s.get_char(i);
        if c == '"' {
            if hashes_at_x(s, n, i + 1, h) {
                proof {
                    if h >= 1 {
                        lemma_hashes_at_bounds(s@, i as int + 1, h as int);
                    }
                }
                Option::Some(i + 1 + h)
            } else {
                scan_raw_str_x(s, n, i + 1, h)
            }
        } else {
            scan_raw_str_x(s, n, i + 1, h)
        }
    }
}

fn scan_context_value_x(s: &str, n: usize, v: usize, from: usize) -> (r: Option<usize>)
    requires
        n == s@.len(),
        v <= from,
        from <= n,
    ensures
        match r {
            Option::Some(e) => scan_context_value(s@, v as int, from as int) == Option::Some(
                e as int,
            ) && from <= e <= n,
            Option::None => scan_context_value(s@, v as int, from as int) is None,
        },
    decreases n - from,
{
    let c = scan_to_comma_x(s, n, from);
    let t = trim_back_x(s, n, v, c);
    let sub = s.substring_char(v, t);
    if is_expr(sub) {
        Option::Some(c)
    } else if c >= n {
        Option::None
    } else {
        scan_context_value_x(s, n, v, c + 1)
    }
}

fn trim_back_x(s: &str, n: usize, v: usize, e: usize) -> (r: usize)
    requires
        n == s@.len(),
        v <= e <= n,
    ensures
        r as int == trim_back(s@, v as int, e as int),
        v <= r <= e,
    decreases e - v,
{
    if e > v {
        let c = s.get_char(e - 1);
        if is_ws_x(c) {
            trim_back_x(s, n, v, e - 1)
        } else {
            e
        }
    } else {
        e
    }
}

fn finish_x(ctx: Option<String>, fmt: Option<String>) -> (r: Result<ContextArgs, ArgError>)
    ensures
        ({
            let sp = finish_args(opt_view(ctx), opt_view(fmt));
            match r {
                Result::Ok(a) => sp matches Result::Ok(sh) && a.wf() && a.shape() == sh,
                Result::Err(e) => sp matches Result::Err(e2) && e == e2,
            }
        }),
{
    match (ctx, fmt) {
        (Option::Some(c), Option::None) => Result::Ok(
            ContextArgs { context: Option::Some(c), fmt: Option::None },
        ),
        (Option::None, Option::Some(f)) => Result::Ok(
            ContextArgs { context: Option::None, fmt: Option::Some(f) },
        ),
        (Option::Some(_), Option::Some(_)) => Result::Err(ArgError::BothContextAndFmt),
        (Option::None, Option::None) => Result::Err(ArgError::MissingArgument),
    }
}

fn parse_from(
    s: &str,
    n: usize,
    i: usize,
    ctx: Option<String>,
    fmt: Option<String>,
) -> (r: Result<ContextArgs, ArgError>)
    requires
        n == s@.len(),
        i <= n,
    ensures
        ({
            let sp = parse_args(s@, i as int, opt_view(ctx), opt_view(fmt));
            match r {
                Result::Ok(a) => sp matches Result::Ok(sh) && a.wf() && a.shape() == sh,
                Result::Err(e) => sp matches Result::Err(e2) && e == e2,
            }
        }),
    decreases n - i, 2int,
{
    if i >= n {
        finish_x(ctx, fmt)
    } else {
        let c0 = s.get_char(i);
        if !ident_start_x(c0) {
            Result::Err(ArgError::UnexpectedArguments)
        } else {
            let j = scan_ident_x(s, n, i);
            let kw = s.substring_char(i, j);
            let k = skip_ws_x(s, n, j);
            if !(k < n) {
                Result::Err(ArgError::UnexpectedArguments)
            } else {
                let ce = s.get_char(k);
                if ce != '=' {
                    Result::Err(ArgError::UnexpectedArguments)
                } else {
                    let v = skip_ws_x(s, n, k + 1);
                    let kws = kw.to_owned();
                    if kws == String::from_str("context") {
                        parse_context_value(s, n, i, v, ctx, fmt)
                    } else if kws == String::from_str("fmt") {
                        parse_fmt_value(s, n, i, v, ctx, fmt)
                    } else {
                        Result::Err(ArgError::UnexpectedArguments)
                    }
                }
            }
        }
    }
}

fn parse_context_value(
    s: &str,
    n: usize,
    i: usize,
    v: usize,
    ctx: Option<String>,
    fmt: Option<String>,
) -> (r: Result<ContextArgs, ArgError>)
    requires
        n == s@.len(),
        i < n,
        v <= n,
        i < v,
        is_ident_start(s@[i as int]),
        s@.subrange(i as int, scan_ident(s@, i as int)) == "context"@,
        skip_ws(s@, scan_ident(s@, i as int)) < n,
        s@[skip_ws(s@, scan_ident(s@, i as int))] == '=',
        v as int == skip_ws(s@, skip_ws(s@, scan_ident(s@, i as int)) + 1),
    ensures
        ({
            let sp = parse_args(s@, i as int, opt_view(ctx), opt_view(fmt));
            match r {
                Result::Ok(a) => sp matches Result::Ok(sh) && a.wf() && a.shape() == sh,
                Result::Err(e) => sp matches Result::Err(e2) && e == e2,
            }
        }),
    decreases n - i, 1int,
{
    if ctx.is_some() {
        Result::Err(ArgError::DuplicateContext)
    } else {
        match scan_context_value_x(s, n, v, v) {
            Option::None => Result::Err(ArgError::MalformedContext),
            Option::Some(e) => {
                let t = trim_back_x(s, n, v, e);
                let txt = s.substring_char(v, t).to_owned();
                parse_after(s, n, e, Option::Some(txt), fmt)
            },
        }
    }
}

fn parse_fmt_value(
    s: &str,
    n: usize,
    i: usize,
    v: usize,
    ctx: Option<String>,
    fmt: Option<String>,
) -> (r: Result<ContextArgs, ArgError>)
    requires
        n == s@.len(),
        i < n,
        v <= n,
        i < v,
        is_ident_start(s@[i as int]),
        s@.subrange(i as int, scan_ident(s@, i as int)) == "fmt"@,
        !(s@.subrange(i as int, scan_ident(s@, i as int)) == "context"@),
        skip_ws(s@, scan_ident(s@, i as int)) < n,
        s@[skip_ws(s@, scan_ident(s@, i as int))] == '=',
        v as int == skip_ws(s@, skip_ws(s@, scan_ident(s@, i as int)) + 1),
    ensures
        ({
            let sp = parse_args(s@, i as int, opt_view(ctx), opt_view(fmt));
            match r {
                Result::Ok(a) => sp matches Result::Ok(sh) && a.wf() && a.shape() == sh,
                Result::Err(e) => sp matches Result::Err(e2) && e == e2,
            }
        }),
    decreases n - i, 1int,
{
    if fmt.is_some() {
        Result::Err(ArgError::DuplicateFmt)
    } else if !(v < n) {
        Result::Err(ArgError::MalformedFmt)
    } else {
        let cq = s.get_char(v);
        if cq == '"' {
            match scan_str_x(s, n, v + 1) {
                Option::None => Result::Err(ArgError::MalformedFmt),
                Option::Some(q) => {
                    let lit = s.substring_char(v, q + 1);
                    if !is_str_lit(lit) {
                        Result::Err(ArgError::MalformedFmt)
                    } else {
                        let litv = lit.to_owned();
                        parse_after(s, n, q + 1, ctx, Option::Some(litv))
                    }
                },
            }
        } else if cq == 'r' {
            let g = scan_hashes_x(s, n, v + 1);
            if !(g < n) {
                Result::Err(ArgError::MalformedFmt)
            } else {
                let cg = s.get_char(g);
                if cg != '"' {
                    Result::Err(ArgError::MalformedFmt)
                } else {
                    match scan_raw_str_x(s, n, g + 1, g - v - 1) {
                        Option::None => Result::Err(ArgError::MalformedFmt),
                        Option::Some(p) => {
                            let lit = s.substring_char(v, p);
                            if !is_str_lit(lit) {
                                Result::Err(ArgError::MalformedFmt)
                            } else {
                                let litv = lit.to_owned();
                                parse_after(s, n, p, ctx, Option::Some(litv))
                            }
                        },
                    }
                }
            }
        } else {
            Result::Err(ArgError::MalformedFmt)
        }
    }
}

fn parse_after(
    s: &str,
    n: usize,
    p: usize,
    ctx: Option<String>,
    fmt: Option<String>,
) -> (r: Result<ContextArgs, ArgError>)
    requires
        n == s@.len(),
        p <= n,
    ensures
        ({
            let sp = parse_after_value(s@, p as int, opt_view(ctx), opt_view(fmt));
            match r {
                Result::Ok(a) => sp matches Result::Ok(sh) && a.wf() && a.shape() == sh,
                Result::Err(e) => sp matches Result::Err(e2) && e == e2,
            }
        }),
    decreases n - p, 0int,
{
    let w = skip_ws_x(s, n, p);
    if w >= n {
        finish_x(ctx, fmt)
    } else {
        let cc = s.get_char(w);
        if cc == ',' {
            let i2 = skip_ws_x(s, n, w + 1);
            if i2 >= n {
                Result::Err(ArgError::UnexpectedArguments)
            } else {
                parse_from(s, n, i2, ctx, fmt)
            }
        } else {
            Result::Err(ArgError::UnexpectedArguments)
        }
    }
}

} // verus!
