//! Model of a parsed function declaration, and the rendering of its pieces
//! back to source text.
//!
//! A declaration is held as plain text fragments: the transform never looks
//! inside a type, a bound or the body; it only copies them into the rewritten
//! declaration. The one semantic field is `is_async`, which decides whether
//! the generated forwarding call suspends.

use vstd::prelude::*;
use vstd::string::StrSliceExecFns;
use vstd::string::StringExecFns;

verus! {

/// One parameter of the declaration, in order.
pub enum FnParam {
    /// A receiver parameter, verbatim (for instance `&self`). It is kept in
    /// the signature but never forwarded.
    Receiver(String),
    /// A typed parameter: its pattern and its type. The pattern is what the
    /// forwarding call passes.
    Typed(String, String),
}

/// A parsed function declaration, as plain text fragments.
pub struct FnDecl {
    /// Outer attributes, one per entry, verbatim.
    pub attrs: Vec<String>,
    /// Visibility text, or empty.
    pub vis: String,
    /// Constness qualifier text, or empty.
    pub constness: String,
    /// Whether the function is asynchronous.
    pub is_async: bool,
    /// Unsafety qualifier text, or empty.
    pub safety: String,
    /// Calling-convention text, or empty.
    pub abi: String,
    /// The function's name.
    pub name: String,
    /// Generic parameter list, without the angle brackets, or empty.
    pub generics: String,
    /// The where-clause text, or empty.
    pub where_clause: String,
    /// The parameters, in declaration order.
    pub params: Vec<FnParam>,
    /// The return type text including its arrow, or empty.
    pub ret: String,
    /// The statements of the body, without the surrounding braces.
    pub body: String,
}

/// The text of one rendered parameter.
pub open spec fn spec_param(p: FnParam) -> Seq<char> {
    match p {
        FnParam::Receiver(r) => r@,
        FnParam::Typed(pat, ty) => pat@ + ": "@ + ty@,
    }
}

/// The rendered parameter list: parameters in order, separated by `", "`.
pub open spec fn spec_params(ps: Seq<FnParam>) -> Seq<char>
    decreases ps.len(),
{
    if ps.len() == 0 {
        Seq::empty()
    } else if ps.len() == 1 {
        spec_param(ps[0])
    } else {
        spec_params(ps.drop_last()) + ", "@ + spec_param(ps.last())
    }
}

/// The forwarding argument list: the patterns of the typed parameters, in
/// order, separated by `", "`; receivers are left out.
pub open spec fn spec_fwd_args(ps: Seq<FnParam>) -> Seq<char>
    decreases ps.len(),
{
    if ps.len() == 0 {
        Seq::empty()
    } else {
        let pre = spec_fwd_args(ps.drop_last());
        match ps.last() {
            FnParam::Receiver(_) => pre,
            FnParam::Typed(pat, _) => if pre.len() == 0 {
                pat@
            } else {
                pre + ", "@ + pat@
            },
        }
    }
}

/// The rendered attribute lines: each attribute verbatim, each on its own line.
pub open spec fn spec_attrs(attrs: Seq<String>) -> Seq<char>
    decreases attrs.len(),
{
    if attrs.len() == 0 {
        Seq::empty()
    } else {
        spec_attrs(attrs.drop_last()) + attrs.last()@ + "\n"@
    }
}

/// A text fragment followed by one space, or nothing when the fragment is empty.
pub open spec fn seg_word(w: Seq<char>) -> Seq<char> {
    if w.len() > 0 {
        w + " "@
    } else {
        Seq::empty()
    }
}

/// The asyncness qualifier of the signature.
pub open spec fn seg_async(d: FnDecl) -> Seq<char> {
    if d.is_async {
        "async "@
    } else {
        Seq::empty()
    }
}

/// The generic parameter list with its angle brackets, or nothing.
pub open spec fn seg_generics(d: FnDecl) -> Seq<char> {
    if d.generics@.len() > 0 {
        "<"@ + d.generics@ + ">"@
    } else {
        Seq::empty()
    }
}

/// A fragment preceded by one space, or nothing when the fragment is empty.
pub open spec fn seg_tail(w: Seq<char>) -> Seq<char> {
    if w.len() > 0 {
        " "@ + w
    } else {
        Seq::empty()
    }
}

/// The full rendered signature of a declaration: visibility, qualifiers,
/// name, generics, parameter list, return type and where-clause, exactly as
/// the original supplied them.
pub open spec fn spec_signature(d: FnDecl) -> Seq<char> {
    seg_word(d.vis@) + seg_word(d.constness@) + seg_async(d) + seg_word(d.safety@) + seg_word(
        d.abi@,
    ) + "fn "@ + d.name@ + seg_generics(d) + "("@ + spec_params(d.params@) + ")"@ + seg_tail(
        d.ret@,
    ) + seg_tail(d.where_clause@)
}

/// Renders a fragment followed by one space, or nothing.
fn render_word(w: &String) -> (r: String)
    ensures
        r@ == seg_word(w@),
{
    if !w.as_str().is_empty() {
        let mut r = String::from_str(w.as_str());
        r.append(" ");
        r
    } else {
        String::new()
    }
}

/// Renders a fragment preceded by one space, or nothing.
fn render_tail(w: &String) -> (r: String)
    ensures
        r@ == seg_tail(w@),
{
    if !w.as_str().is_empty() {
        let mut r = String::from_str(" ");
        r.append(w.as_str());
        r
    } else {
        String::new()
    }
}

/// Renders one parameter.
fn render_param(p: &FnParam) -> (r: String)
    ensures
        r@ == spec_param(*p),
{
    match p {
        FnParam::Receiver(rc) => String::from_str(rc.as_str()),
        FnParam::Typed(pat, ty) => {
            let mut r = String::from_str(pat.as_str());
            r.append(": ");
            r.append(ty.as_str());
            r
        },
    }
}

/// Renders the parameter list, parameters separated by `", "`.
pub fn render_params(ps: &Vec<FnParam>) -> (r: String)
    ensures
        r@ == spec_params(ps@),
{
    let mut r = String::new();
    let mut i: usize = 0;
    while i < ps.len()
        invariant
            i <= ps.len(),
            r@ == spec_params(ps@.take(i as int)),
        decreases ps.len() - i,
    {
        proof {
            assert(ps@.take(i as int + 1).drop_last() =~= ps@.take(i as int));
            assert(ps@.take(i as int + 1).last() == ps@[i as int]);
        }
        let p = render_param(&ps[i]);
        if i > 0 {
            r.append(", ");
        }
        r.append(p.as_str());
        i = i + 1;
    }
    proof {
        assert(ps@.take(ps@.len() as int) =~= ps@);
    }
    r
}

/// Renders the forwarding argument list: typed parameters' patterns only.
pub fn render_fwd_args(ps: &Vec<FnParam>) -> (r: String)
    ensures
        r@ == spec_fwd_args(ps@),
{
    let mut r = String::new();
    let mut i: usize = 0;
    while i < ps.len()
        invariant
            i <= ps.len(),
            r@ == spec_fwd_args(ps@.take(i as int)),
        decreases ps.len() - i,
    {
        proof {
            assert(ps@.take(i as int + 1).drop_last() =~= ps@.take(i as int));
            assert(ps@.take(i as int + 1).last() == ps@[i as int]);
        }
        match &ps[i] {
            FnParam::Receiver(_) => {},
            FnParam::Typed(pat, _) => {
                if !r.as_str().is_empty() {
                    r.append(", ");
                }
                r.append(pat.as_str());
            },
        }
        i = i + 1;
    }
    proof {
        assert(ps@.take(ps@.len() as int) =~= ps@);
    }
    r
}

/// Renders the attribute lines.
pub fn render_attrs(attrs: &Vec<String>) -> (r: String)
    ensures
        r@ == spec_attrs(attrs@),
{
    let mut r = String::new();
    let mut i: usize = 0;
    while i < attrs.len()
        invariant
            i <= attrs.len(),
            r@ == spec_attrs(attrs@.take(i as int)),
        decreases attrs.len() - i,
    {
        proof {
            assert(attrs@.take(i as int + 1).drop_last() =~= attrs@.take(i as int));
            assert(attrs@.take(i as int + 1).last() == attrs@[i as int]);
        }
        r.append(attrs[i].as_str());
        r.append("\n");
        i = i + 1;
    }
    proof {
        assert(attrs@.take(attrs@.len() as int) =~= attrs@);
    }
    r
}

/// Renders the full signature.
pub fn render_signature(d: &FnDecl) -> (r: String)
    ensures
        r@ == spec_signature(*d),
{
    let mut r = render_word(&d.vis);
    let c = render_word(&d.constness);
    r.append(c.as_str());
    if d.is_async {
        r.append("async ");
    }
    let u = render_word(&d.safety);
    r.append(u.as_str());
    let a = render_word(&d.abi);
    r.append(a.as_str());
    r.append("fn ");
    r.append(d.name.as_str());
    if !d.generics.as_str().is_empty() {
        r.append("<");
        r.append(d.generics.as_str());
        r.append(">");
    }
    r.append("(");
    let ps = render_params(&d.params);
    r.append(ps.as_str());
    r.append(")");
    let rt = render_tail(&d.ret);
    r.append(rt.as_str());
    let wc = render_tail(&d.where_clause);
    r.append(wc.as_str());
    proof {
        assert(r@ =~= spec_signature(*d));
    }
    r
}

} // verus!
