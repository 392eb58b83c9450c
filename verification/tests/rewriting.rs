use anyhow::Context;
use anyhow_ctx::decl::{FnDecl, FnParam};
use anyhow_ctx::with_context;

fn plain_decl(name: &str, params: Vec<FnParam>, ret: &str, body: &str) -> FnDecl {
    FnDecl {
        attrs: Vec::new(),
        vis: String::new(),
        constness: String::new(),
        is_async: false,
        safety: String::new(),
        abi: String::new(),
        name: name.to_string(),
        generics: String::new(),
        where_clause: String::new(),
        params,
        ret: ret.to_string(),
        body: body.to_string(),
    }
}

fn simple_foo() -> Result<(), anyhow::Error> {
    Err(anyhow::Error::msg("some function error."))
}

fn simple_foo_wrapped() -> Result<(), anyhow::Error> {
    Ok(simple_foo().with_context(|| "error executing foo")?)
}

#[test]
fn simple_function() {
    let d = plain_decl(
        "foo",
        Vec::new(),
        "-> Result<(), anyhow::Error>",
        "Err(anyhow::Error::msg(\"some function error.\"))",
    );
    let out = with_context(r#"context = "error executing foo""#, &d).unwrap();
    assert_eq!(
        "fn foo() -> Result<(), anyhow::Error> {\n\
         fn foo() -> Result<(), anyhow::Error> {\n\
         Err(anyhow::Error::msg(\"some function error.\"))\n\
         }\n\
         use anyhow::Context;\n\
         Ok(foo().with_context(|| \"error executing foo\")?)\n\
         }",
        out
    );

    let err = simple_foo_wrapped().unwrap_err();
    assert_eq!(
        "error executing foo: some function error.".to_string(),
        format!("{err:#}")
    );
}

fn generic_foo<T: ToString>(arg: T) -> Result<T, anyhow::Error> {
    let _ = arg.to_string();
    Err(anyhow::Error::msg("some function error."))
}

fn generic_foo_wrapped<T>(arg: T) -> Result<T, anyhow::Error>
where
    T: ToString,
{
    Ok(generic_foo(arg).with_context(|| "error executing foo")?)
}

#[test]
fn generic_function() {
    let mut d = plain_decl(
        "foo",
        vec![FnParam::Typed("arg".to_string(), "T".to_string())],
        "-> Result<T, anyhow::Error>",
        "let _ = arg.to_string();\nErr(anyhow::Error::msg(\"some function error.\"))",
    );
    d.generics = "T".to_string();
    d.where_clause = "where T: ToString".to_string();
    let out = with_context(r#"context = "error executing foo""#, &d).unwrap();
    assert_eq!(
        "fn foo<T>(arg: T) -> Result<T, anyhow::Error> where T: ToString {\n\
         fn foo<T>(arg: T) -> Result<T, anyhow::Error> where T: ToString {\n\
         let _ = arg.to_string();\n\
         Err(anyhow::Error::msg(\"some function error.\"))\n\
         }\n\
         use anyhow::Context;\n\
         Ok(foo(arg).with_context(|| \"error executing foo\")?)\n\
         }",
        out
    );

    let err = generic_foo_wrapped("unused arg").unwrap_err();
    assert_eq!(
        "error executing foo: some function error.".to_string(),
        format!("{err:#}")
    );
}

async fn async_foo() -> Result<(), anyhow::Error> {
    Err(anyhow::Error::msg("some function error."))
}

async fn async_foo_wrapped() -> Result<(), anyhow::Error> {
    Ok(async_foo()
        .await
        .with_context(|| "error executing async foo")?)
}

#[test]
fn simple_async_function() {
    let mut d = plain_decl(
        "foo",
        Vec::new(),
        "-> Result<(), anyhow::Error>",
        "Err(anyhow::Error::msg(\"some function error.\"))",
    );
    d.is_async = true;
    let out = with_context(r#"context = "error executing async foo""#, &d).unwrap();
    assert_eq!(
        "async fn foo() -> Result<(), anyhow::Error> {\n\
         async fn foo() -> Result<(), anyhow::Error> {\n\
         Err(anyhow::Error::msg(\"some function error.\"))\n\
         }\n\
         use anyhow::Context;\n\
         Ok(foo().await.with_context(|| \"error executing async foo\")?)\n\
         }",
        out
    );

    let rt = tokio::runtime::Builder::new_current_thread()
        .build()
        .unwrap();
    let err = rt.block_on(async_foo_wrapped()).unwrap_err();
    assert_eq!(
        "error executing async foo: some function error.".to_string(),
        format!("{err:#}")
    );
}

fn fmt_foo_wrapped() -> Result<(), anyhow::Error> {
    Ok(simple_foo().with_context(|| format!("error executing foo"))?)
}

#[test]
fn fmt_without_arg() {
    let d = plain_decl(
        "foo",
        Vec::new(),
        "-> Result<(), anyhow::Error>",
        "Err(anyhow::Error::msg(\"some function error.\"))",
    );
    let out = with_context(r#"fmt = "error executing foo""#, &d).unwrap();
    assert_eq!(
        "fn foo() -> Result<(), anyhow::Error> {\n\
         fn foo() -> Result<(), anyhow::Error> {\n\
         Err(anyhow::Error::msg(\"some function error.\"))\n\
         }\n\
         use anyhow::Context;\n\
         Ok(foo().with_context(|| format!(\"error executing foo\"))?)\n\
         }",
        out
    );

    let err = fmt_foo_wrapped().unwrap_err();
    assert_eq!(
        "error executing foo: some function error.".to_string(),
        format!("{err:#}")
    );
}

fn borrowed_foo(some_arg: &str) -> Result<(), anyhow::Error> {
    let _ = some_arg;
    Err(anyhow::Error::msg("some function error."))
}

fn borrowed_foo_wrapped(some_arg: &str) -> Result<(), anyhow::Error> {
    Ok(borrowed_foo(some_arg)
        .with_context(|| format!("error executing foo with arg '{some_arg}'"))?)
}

#[test]
fn fmt_with_borrowed_arg() {
    let d = plain_decl(
        "foo",
        vec![FnParam::Typed("some_arg".to_string(), "&str".to_string())],
        "-> Result<(), anyhow::Error>",
        "let _ = some_arg;\nErr(anyhow::Error::msg(\"some function error.\"))",
    );
    let out = with_context(r#"fmt = "error executing foo with arg '{some_arg}'""#, &d).unwrap();
    assert_eq!(
        "fn foo(some_arg: &str) -> Result<(), anyhow::Error> {\n\
         fn foo(some_arg: &str) -> Result<(), anyhow::Error> {\n\
         let _ = some_arg;\n\
         Err(anyhow::Error::msg(\"some function error.\"))\n\
         }\n\
         use anyhow::Context;\n\
         Ok(foo(some_arg).with_context(|| format!(\"error executing foo with arg '{some_arg}'\"))?)\n\
         }",
        out
    );

    let err = borrowed_foo_wrapped("arg value").unwrap_err();
    assert_eq!(
        "error executing foo with arg 'arg value': some function error.".to_string(),
        format!("{err:#}")
    );
}

#[test]
fn receiver_kept_in_signature_not_forwarded() {
    let mut d = plain_decl(
        "check",
        vec![
            FnParam::Receiver("&self".to_string()),
            FnParam::Typed("x".to_string(), "u32".to_string()),
        ],
        "-> Result<u32, anyhow::Error>",
        "self.probe(x)",
    );
    d.vis = "pub".to_string();
    let out = with_context(r#"context = "checking""#, &d).unwrap();
    assert_eq!(
        "pub fn check(&self, x: u32) -> Result<u32, anyhow::Error> {\n\
         pub fn check(&self, x: u32) -> Result<u32, anyhow::Error> {\n\
         self.probe(x)\n\
         }\n\
         use anyhow::Context;\n\
         Ok(check(x).with_context(|| \"checking\")?)\n\
         }",
        out
    );
}

#[test]
fn attributes_kept_on_wrapper() {
    let mut d = plain_decl(
        "foo",
        Vec::new(),
        "-> Result<(), anyhow::Error>",
        "Ok(())",
    );
    d.attrs = vec!["#[inline]".to_string(), "#[must_use]".to_string()];
    let out = with_context(r#"context = "noted""#, &d).unwrap();
    assert!(out.starts_with(
        "#[inline]\n#[must_use]\nfn foo() -> Result<(), anyhow::Error> {\n"
    ));
}

#[test]
fn context_expression_with_nested_commas() {
    let d = plain_decl(
        "foo",
        Vec::new(),
        "-> Result<(), anyhow::Error>",
        "Ok(())",
    );
    let out = with_context(r#"context = describe(1, "a,b", ',')"#, &d).unwrap();
    assert!(out.contains(".with_context(|| describe(1, \"a,b\", ','))?"));
}

fn raw_fmt_foo_wrapped() -> Result<(), anyhow::Error> {
    Ok(simple_foo().with_context(|| format!(r"error executing foo"))?)
}

#[test]
fn fmt_with_raw_literal() {
    let d = plain_decl(
        "foo",
        Vec::new(),
        "-> Result<(), anyhow::Error>",
        "Err(anyhow::Error::msg(\"some function error.\"))",
    );
    let out = with_context(r##"fmt = r"error executing foo""##, &d).unwrap();
    assert!(out.contains("Ok(foo().with_context(|| format!(r\"error executing foo\"))?)"));

    let err = raw_fmt_foo_wrapped().unwrap_err();
    assert_eq!(
        "error executing foo: some function error.".to_string(),
        format!("{err:#}")
    );
}

#[test]
fn context_closure_call_in_rewrite() {
    let d = plain_decl(
        "foo",
        vec![
            FnParam::Typed("a".to_string(), "u32".to_string()),
            FnParam::Typed("b".to_string(), "u32".to_string()),
        ],
        "-> Result<(), anyhow::Error>",
        "Ok(())",
    );
    let out = with_context("context = describe(a, b)", &d).unwrap();
    assert!(out.contains("Ok(foo(a, b).with_context(|| describe(a, b))?)"));
}

#[test]
fn rejected_arguments_emit_no_function() {
    let d = plain_decl(
        "foo",
        Vec::new(),
        "-> Result<(), anyhow::Error>",
        "Ok(())",
    );
    let r = with_context(r#"context = "a", fmt = "b""#, &d);
    assert_eq!(r, Err(anyhow_ctx::args::ArgError::BothContextAndFmt));
}

fn succeeding(x: u32) -> Result<u32, anyhow::Error> {
    Ok(x + 1)
}

fn succeeding_wrapped(x: u32) -> Result<u32, anyhow::Error> {
    Ok(succeeding(x).with_context(|| "never shown")?)
}

#[test]
fn success_value_passes_through_unchanged() {
    assert_eq!(42, succeeding_wrapped(41).unwrap());
}
