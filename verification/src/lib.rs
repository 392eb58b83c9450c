//! A source-to-source transform that wraps a fallible function with a
//! contextual error annotation.
//!
//! Given a parsed function declaration and a small argument list — either
//! `context = <expression>` or `fmt = "<template>"` — the transform emits a
//! rewritten declaration: the original body is nested as an inner function of
//! the same name, the inner function is called with all typed parameters
//! forwarded (awaited when the original is asynchronous), and the call's
//! failure, if any, gains one layer of context, computed by the expression or
//! by formatting the template against the parameters in scope.
//!
//! The rewritten declaration keeps the original's attributes, visibility,
//! qualifiers, generics, parameter list, return type and where-clause
//! byte for byte; only the body changes.

use vstd::prelude::*;

pub mod args;
pub mod decl;

use crate::args::ContextArgs;
use crate::args::ArgError;
use crate::args::spec_fragment;
use crate::args::spec_parse;
use crate::decl::FnDecl;
use crate::decl::render_attrs;
use crate::decl::render_fwd_args;
use crate::decl::render_signature;
use crate::decl::seg_async;
use crate::decl::spec_attrs;
use crate::decl::spec_fwd_args;
use crate::decl::spec_signature;
use vstd::string::StrSliceExecFns;
use vstd::string::StringExecFns;

verus! {

/// The call of the inner function: its name applied to the typed parameters'
/// patterns, in declaration order.
pub open spec fn spec_plain_call(d: FnDecl) -> Seq<char> {
    d.name@ + "("@ + spec_fwd_args(d.params@) + ")"@
}

/// The suspension mark appended to the inner call: present exactly when the
/// declaration is asynchronous.
pub open spec fn seg_await(d: FnDecl) -> Seq<char> {
    if d.is_async {
        ".await"@
    } else {
        Seq::empty()
    }
}

/// The full inner call, awaited exactly when the declaration is asynchronous.
pub open spec fn spec_call(d: FnDecl) -> Seq<char> {
    spec_plain_call(d) + seg_await(d)
}

/// The forwarding statement of the wrapper: the inner call's failure, if
/// any, wrapped with one layer of context produced by the fragment.
pub open spec fn spec_forward(frag: Seq<char>, d: FnDecl) -> Seq<char> {
    "Ok("@ + spec_call(d) + ".with_context(|| "@ + frag + ")?)"@
}

/// The rewritten declaration: the original attributes and signature, whose
/// body nests the original function (same signature, original body) and
/// forwards to it with context attached on failure.
pub open spec fn spec_output(frag: Seq<char>, d: FnDecl) -> Seq<char> {
    spec_attrs(d.attrs@) + spec_signature(d) + " {\n"@ + spec_signature(d) + " {\n"@ + d.body@
        + "\n}\n"@ + "use anyhow::Context;\n"@ + spec_forward(frag, d) + "\n}"@
}

/// The original declaration as this model renders it: attributes, signature
/// and the body in braces.
pub open spec fn spec_original(d: FnDecl) -> Seq<char> {
    spec_attrs(d.attrs@) + spec_signature(d) + " {\n"@ + d.body@ + "\n}"@
}

fn render_call(d: &FnDecl) -> (r: String)
    ensures
        r@ == spec_call(*d),
{
    let mut r = String::from_str(d.name.as_str());
    r.append("(");
    let fwd = render_fwd_args(&d.params);
    r.append(fwd.as_str());
    r.append(")");
    if d.is_async {
        r.append(".await");
    }
    proof {
        if !d.is_async {
            assert(spec_plain_call(*d) + Seq::<char>::empty() =~= spec_plain_call(*d));
        }
    }
    r
}

fn render_forward(frag: &str, d: &FnDecl) -> (r: String)
    ensures
        r@ == spec_forward(frag@, *d),
{
    let mut r = String::from_str("Ok(");
    let call = render_call(d);
    r.append(call.as_str());
    r.append(".with_context(|| ");
    r.append(frag);
    r.append(")?)");
    r
}

/// Rewrites a declaration, given parsed arguments: emits the wrapper whose
/// signature and attributes are the original's, whose body nests the original
/// declaration, calls it with every typed parameter forwarded in order —
/// awaited exactly when the original is asynchronous — and attaches the
/// context produced by the arguments' fragment to a failure.
pub fn add_context(args: ContextArgs, d: &FnDecl) -> (r: String)
    requires
        args.wf(),
    ensures
        r@ == spec_output(spec_fragment(args.shape()), *d),
{
    let frag = args.get_context();
    let at = render_attrs(&d.attrs);
    let sig = render_signature(d);
    let fw = render_forward(frag.as_str(), d);
    let mut r = at;
    r.append(sig.as_str());
    r.append(" {\n");
    r.append(sig.as_str());
    r.append(" {\n");
    r.append(d.body.as_str());
    r.append("\n}\n");
    r.append("use anyhow::Context;\n");
    r.append(fw.as_str());
    r.append("\n}");
    r
}

/// The whole transform: parses the invocation's argument list and rewrites
/// the declaration. Returns the rewritten source exactly when the argument
/// list is accepted, and the argument grammar's error otherwise; no output is
/// ever produced for a rejected argument list.
pub fn with_context(attr: &str, item: &FnDecl) -> (r: Result<String, ArgError>)
    ensures
        ({
            let sp = spec_parse(attr@);
            match r {
                Result::Ok(out) => sp matches Result::Ok(sh) && out@ == spec_output(
                    spec_fragment(sh),
                    *item,
                ),
                Result::Err(e) => sp matches Result::Err(e2) && e == e2,
            }
        }),
{
    match ContextArgs::parse(attr) {
        Result::Err(e) => Result::Err(e),
        Result::Ok(a) => Result::Ok(add_context(a, item)),
    }
}

/// Signature preservation: the rewritten declaration and the original agree
/// byte for byte on everything up to and including the signature — the
/// attributes, visibility, qualifiers, name, generics, parameter list,
/// return type and where-clause; only what follows (the body) differs.
pub proof fn lemma_signature_preserved(frag: Seq<char>, d: FnDecl)
    ensures
        ({
            let head = spec_attrs(d.attrs@) + spec_signature(d);
            &&& spec_output(frag, d).len() >= head.len()
            &&& spec_original(d).len() >= head.len()
            &&& spec_output(frag, d).take(head.len() as int) == head
            &&& spec_original(d).take(head.len() as int) == head
        }),
{
    let head = spec_attrs(d.attrs@) + spec_signature(d);
    assert(spec_output(frag, d).take(head.len() as int) =~= head);
    assert(spec_original(d).take(head.len() as int) =~= head);
}

/// Asynchronous preservation: the wrapper's signature carries the `async`
/// qualifier exactly when the original's does, and the forwarding statement
/// awaits the inner call exactly then — the call is otherwise unchanged, so
/// a synchronous wrapper gains no suspension point.
pub proof fn lemma_async_preservation(d: FnDecl)
    ensures
        d.is_async ==> spec_call(d) == spec_plain_call(d) + ".await"@,
        !d.is_async ==> spec_call(d) == spec_plain_call(d),
        spec_plain_call(d).len() > 0 && spec_plain_call(d).last() == ')',
        d.is_async ==> seg_async(d) == "async "@,
        !d.is_async ==> seg_async(d) == Seq::<char>::empty(),
{
    reveal_strlit(")");
    if !d.is_async {
        assert(spec_plain_call(d) + Seq::<char>::empty() =~= spec_plain_call(d));
    }
    assert(spec_plain_call(d).last() == ')');
}

/// Exclusivity: once both a `context` and a `fmt` value stand in the parse
/// state, the argument grammar can no longer accept — whatever the rest of
/// the input, the parse ends in an error, so no invocation supplying both
/// keywords ever produces a rewritten declaration.
pub proof fn lemma_both_arguments_rejected(
    s: Seq<char>,
    i: int,
    ctx: Option<Seq<char>>,
    fmt: Option<Seq<char>>,
)
    requires
        ctx is Some,
        fmt is Some,
    ensures
        !(crate::args::parse_args(s, i, ctx, fmt) matches Result::Ok(_)),
{
}

/// Duplicate rejection: whenever the parse position stands on a second
/// `context = ...` pair — a `context` value was already taken — the parse
/// ends in the duplicate-context error, whatever the pair's value and
/// whatever follows it; no parsed argument, and so no rewritten declaration,
/// is ever produced.
pub proof fn lemma_duplicate_context_rejected(
    s: Seq<char>,
    i: int,
    ctx: Option<Seq<char>>,
    fmt: Option<Seq<char>>,
)
    requires
        ctx is Some,
        0 <= i < s.len(),
        crate::args::is_ident_start(s[i]),
        s.subrange(i, crate::args::scan_ident(s, i)) == "context"@,
        crate::args::skip_ws(s, crate::args::scan_ident(s, i)) < s.len(),
        s[crate::args::skip_ws(s, crate::args::scan_ident(s, i))] == '=',
    ensures
        crate::args::parse_args(s, i, ctx, fmt) matches Result::Err(e) && e
            == ArgError::DuplicateContext,
{
}

/// Duplicate rejection, for `fmt`: whenever the parse position stands on a
/// second `fmt = ...` pair — a `fmt` value was already taken — the parse ends
/// in the duplicate-fmt error, whatever follows.
pub proof fn lemma_duplicate_fmt_rejected(
    s: Seq<char>,
    i: int,
    ctx: Option<Seq<char>>,
    fmt: Option<Seq<char>>,
)
    requires
        fmt is Some,
        0 <= i < s.len(),
        crate::args::is_ident_start(s[i]),
        s.subrange(i, crate::args::scan_ident(s, i)) == "fmt"@,
        crate::args::skip_ws(s, crate::args::scan_ident(s, i)) < s.len(),
        s[crate::args::skip_ws(s, crate::args::scan_ident(s, i))] == '=',
    ensures
        crate::args::parse_args(s, i, ctx, fmt) matches Result::Err(e) && e
            == ArgError::DuplicateFmt,
{
    reveal_strlit("context");
    reveal_strlit("fmt");
    assert("fmt"@.len() == 3);
    assert("context"@.len() == 7);
}

} // verus!
