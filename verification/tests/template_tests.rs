use tama::strmap::Env;
use tama::template::{parse_template, resolve, resolve_env, Segment};

#[test]
fn parse_plain_literal() {
    assert_eq!(parse_template("hello"), vec![Segment::Literal("hello".into())]);
}

#[test]
fn parse_single_var() {
    assert_eq!(parse_template("${FOO}"), vec![Segment::Var("FOO".into())]);
}

#[test]
fn parse_var_with_surrounding_text() {
    assert_eq!(
        parse_template("Bearer ${TOKEN} rest"),
        vec![
            Segment::Literal("Bearer ".into()),
            Segment::Var("TOKEN".into()),
            Segment::Literal(" rest".into()),
        ]
    );
}

#[test]
fn parse_multiple_vars() {
    assert_eq!(
        parse_template("${A}/${B}"),
        vec![
            Segment::Var("A".into()),
            Segment::Literal("/".into()),
            Segment::Var("B".into()),
        ]
    );
}

#[test]
fn parse_dollar_dollar_becomes_literal_dollar() {
    assert_eq!(parse_template("$$"), vec![Segment::Literal("$".into())]);
}

#[test]
fn parse_escaped_var_not_substituted() {
    assert_eq!(parse_template("$${FOO}"), vec![Segment::Literal("${FOO}".into())]);
}

#[test]
fn parse_unclosed_brace_is_literal() {
    assert_eq!(parse_template("${UNCLOSED"), vec![Segment::Literal("${UNCLOSED".into())]);
}

#[test]
fn parse_bare_dollar_is_literal() {
    assert_eq!(
        parse_template("price is $10"),
        vec![Segment::Literal("price is $10".into())]
    );
}

#[test]
fn parse_no_dollar_empty_string() {
    assert_eq!(parse_template(""), vec![]);
}

#[test]
fn resolve_known_var() {
    let mut env = Env::new();
    env.set("_TAMA_TEST_FOO", "hello");
    assert_eq!(resolve_env(&[Segment::Var("_TAMA_TEST_FOO".into())], &env), "hello");
}

#[test]
fn resolve_unknown_var_left_as_is() {
    let env = Env::new();
    assert_eq!(
        resolve_env(&[Segment::Var("_TAMA_NO_SUCH_VAR_XYZ".into())], &env),
        "${_TAMA_NO_SUCH_VAR_XYZ}"
    );
}

#[test]
fn resolve_mixed_segments() {
    let mut env = Env::new();
    env.set("_TAMA_TEST_KEY", "secret");
    assert_eq!(
        resolve_env(
            &[
                Segment::Literal("Bearer ".into()),
                Segment::Var("_TAMA_TEST_KEY".into()),
            ],
            &env
        ),
        "Bearer secret"
    );
}

#[test]
fn resolve_end_to_end() {
    let mut env = Env::new();
    env.set("_TAMA_TEST_E2E", "works");
    assert_eq!(resolve("result: ${_TAMA_TEST_E2E}", &env), "result: works");
}

#[test]
fn resolve_no_vars_unchanged() {
    let env = Env::new();
    assert_eq!(resolve("https://example.com/path", &env), "https://example.com/path");
}

#[test]
fn resolve_escaped_text_comes_back_unchanged_without_env() {
    // A text with no `$` renders back to itself whatever the environment.
    let env = Env::new();
    let text = "plain {braces} and text";
    assert_eq!(resolve(text, &env), text);
}

#[test]
fn resolve_dollar_escape_and_unclosed() {
    let mut env = Env::new();
    env.set("X", "1");
    assert_eq!(resolve("$$X=${X} ${Y", &env), "$X=1 ${Y");
}

#[test]
fn parse_empty_var_name() {
    assert_eq!(parse_template("${}"), vec![Segment::Var("".into())]);
}

#[test]
fn parsing_the_escaped_source_of_segments_gives_them_back() {
    let segs = vec![
        Segment::Literal("cost: $5 ".into()),
        Segment::Var("PRICE".into()),
        Segment::Literal("$".into()),
    ];
    let mut source = String::new();
    for s in &segs {
        match s {
            Segment::Literal(t) => source.push_str(&t.replace('$', "$$")),
            Segment::Var(n) => source.push_str(&format!("${{{n}}}")),
        }
    }
    assert_eq!(source, "cost: $$5 ${PRICE}$$");
    assert_eq!(parse_template(&source), segs);
}
