use include_wasm_rs::config::Args;
use include_wasm_rs::features::TargetFeatures;
use include_wasm_rs::parse::{peel, ErrorSite, ParseError};
use include_wasm_rs::syntax::{
    EnvExpr, EnvField, FeatureExpr, Literal, MacroInput, NamePath, OptionExpr, OptionField,
    PathSegment,
};

fn plain_path(name: &str) -> NamePath {
    NamePath {
        leading_colon: false,
        segments: vec![PathSegment { ident: name.to_string(), has_arguments: false }],
    }
}

fn ident(name: &str) -> FeatureExpr {
    FeatureExpr::Path { attributed: false, qualified: false, path: plain_path(name) }
}

fn option(name: &str, value: OptionExpr) -> OptionField {
    OptionField { attributed: false, name: name.to_string(), value }
}

fn lit(lit: Literal) -> OptionExpr {
    OptionExpr::Lit { attributed: false, lit }
}

fn string(value: &str) -> OptionExpr {
    lit(Literal::Str(value.to_string()))
}

fn array(elems: Vec<FeatureExpr>) -> OptionExpr {
    OptionExpr::Array { attributed: false, elems }
}

fn env_lit(lit: Literal, tokens: &str) -> EnvExpr {
    EnvExpr::Lit { attributed: false, lit, tokens: tokens.to_string() }
}

fn entry(name: &str, value: EnvExpr, tokens: &str) -> EnvField {
    EnvField {
        attributed: false,
        has_colon: true,
        name: Some(name.to_string()),
        value,
        value_tokens: tokens.to_string(),
    }
}

fn int_entry(name: &str, text: &str) -> EnvField {
    entry(name, env_lit(Literal::Int(text.to_string()), text), text)
}

fn table(fields: Vec<EnvField>) -> OptionExpr {
    OptionExpr::Struct {
        attributed: false,
        qualified: false,
        path: plain_path("Env"),
        fields,
        has_dot2: false,
        has_rest: false,
    }
}

fn parse(fields: Vec<OptionField>) -> Result<Args, ParseError> {
    Args::parse(&MacroInput::Options(fields))
}

fn refused(site: ErrorSite, message: &str) -> Result<Args, ParseError> {
    Err(ParseError { site, message: message.to_string() })
}

#[test]
fn lone_string_is_the_module_path() {
    let args = Args::parse(&MacroInput::Path("relative/path/to/module".to_string())).unwrap();
    assert_eq!(
        args,
        Args {
            module_dir: "relative/path/to/module".to_string(),
            features: TargetFeatures::none(),
            env_vars: vec![],
            release: false,
        }
    );
}

#[test]
fn no_option_gives_the_defaults() {
    assert_eq!(parse(vec![]), Ok(Args::default()));
}

#[test]
fn all_options_are_read() {
    let fields = vec![
        option("path", string("../examples/wasm_module")),
        option("features", array(vec![ident("bulk_memory")])),
        option("env", table(vec![int_entry("MY_ENV_VAR", "12")])),
        option("release", lit(Literal::Bool(true))),
    ];
    assert_eq!(
        parse(fields),
        Ok(Args {
            module_dir: "../examples/wasm_module".to_string(),
            features: TargetFeatures { atomics: false, bulk_memory: true, mutable_globals: false },
            env_vars: vec![("MY_ENV_VAR".to_string(), "12".to_string())],
            release: true,
        })
    );
}

#[test]
fn env_values_are_written_as_text() {
    let fields = vec![option(
        "env",
        table(vec![
            entry("FOO", env_lit(Literal::Str("bar".to_string()), "\"bar\""), "\"bar\""),
            int_entry("BAX", "7"),
            int_entry("TYPED", "7u8"),
            entry("RATIO", env_lit(Literal::Float("0.5".to_string()), "0.5"), "0.5"),
            entry("ON", env_lit(Literal::Bool(true), "true"), "true"),
            entry("OFF", env_lit(Literal::Bool(false), "false"), "false"),
        ]),
    )];
    let vars: Vec<(String, String)> = [
        ("FOO", "bar"),
        ("BAX", "7"),
        ("TYPED", "7u8"),
        ("RATIO", "0.5"),
        ("ON", "true"),
        ("OFF", "false"),
    ]
    .iter()
    .map(|(k, v)| (k.to_string(), v.to_string()))
    .collect();
    assert_eq!(parse(fields).unwrap().env_vars, vars);
}

#[test]
fn env_value_is_found_inside_groups() {
    let grouped = EnvExpr::Group {
        attributed: false,
        inner: Box::new(EnvExpr::Group {
            attributed: false,
            inner: Box::new(env_lit(Literal::Int("12".to_string()), "12")),
        }),
    };
    let fields = vec![option("env", table(vec![entry("MY_ENV_VAR", grouped, "12")]))];
    assert_eq!(
        parse(fields).unwrap().env_vars,
        vec![("MY_ENV_VAR".to_string(), "12".to_string())]
    );
}

#[test]
fn peel_looks_through_groups() {
    let inner = env_lit(Literal::Bool(true), "true");
    let grouped = EnvExpr::Group {
        attributed: false,
        inner: Box::new(env_lit(Literal::Bool(true), "true")),
    };
    assert_eq!(peel(&grouped), Some(&inner));
    assert_eq!(peel(&inner), Some(&inner));
    assert_eq!(peel(&EnvExpr::Other), Some(&EnvExpr::Other));
    let attributed = EnvExpr::Group { attributed: true, inner: Box::new(EnvExpr::Other) };
    assert_eq!(peel(&attributed), None);
}

#[test]
fn repeated_options_replace_but_env_adds() {
    let fields = vec![
        option("path", string("first")),
        option("env", table(vec![int_entry("A", "1")])),
        option("features", array(vec![ident("atomics")])),
        option("release", lit(Literal::Bool(true))),
        option("path", string("second")),
        option("env", table(vec![int_entry("B", "2"), int_entry("A", "3")])),
        option("features", array(vec![ident("mutable_globals")])),
        option("release", lit(Literal::Bool(false))),
    ];
    assert_eq!(
        parse(fields),
        Ok(Args {
            module_dir: "second".to_string(),
            features: TargetFeatures { atomics: false, bulk_memory: false, mutable_globals: true },
            env_vars: vec![
                ("A".to_string(), "1".to_string()),
                ("B".to_string(), "2".to_string()),
                ("A".to_string(), "3".to_string()),
            ],
            release: false,
        })
    );
}

#[test]
fn attributed_option_is_refused() {
    let fields = vec![
        option("release", lit(Literal::Bool(true))),
        OptionField { attributed: true, name: "path".to_string(), value: string("m") },
    ];
    assert_eq!(parse(fields), refused(ErrorSite::FieldAttribute { field: 1 }, "unexpected element"));
}

#[test]
fn unknown_option_is_refused_by_name() {
    let fields = vec![option("path", string("m")), option("profile", string("release"))];
    assert_eq!(
        parse(fields),
        refused(ErrorSite::FieldName { field: 1 }, "unknown option `profile`")
    );
    assert_eq!(
        parse(vec![option("0", string("m"))]),
        refused(ErrorSite::FieldName { field: 0 }, "unknown option `0`")
    );
}

#[test]
fn path_must_be_a_string() {
    let expected = refused(ErrorSite::FieldValue { field: 0 }, "expected string");
    assert_eq!(parse(vec![option("path", lit(Literal::Bool(true)))]), expected);
    assert_eq!(parse(vec![option("path", lit(Literal::Int("1".to_string())))]), expected);
    assert_eq!(parse(vec![option("path", OptionExpr::Other)]), expected);
    let attributed =
        OptionExpr::Lit { attributed: true, lit: Literal::Str("m".to_string()) };
    assert_eq!(parse(vec![option("path", attributed)]), expected);
}

#[test]
fn release_must_be_a_boolean() {
    let expected = refused(ErrorSite::FieldValue { field: 1 }, "expected boolean");
    let fields = vec![option("path", string("m")), option("release", string("true"))];
    assert_eq!(parse(fields), expected);
    let attributed = OptionExpr::Lit { attributed: true, lit: Literal::Bool(true) };
    let fields = vec![option("path", string("m")), option("release", attributed)];
    assert_eq!(parse(fields), expected);
}

#[test]
fn features_must_be_an_array() {
    let expected = refused(ErrorSite::FieldValue { field: 0 }, "expected boolean");
    assert_eq!(parse(vec![option("features", string("atomics"))]), expected);
    let attributed = OptionExpr::Array { attributed: true, elems: vec![ident("atomics")] };
    assert_eq!(parse(vec![option("features", attributed)]), expected);
}

#[test]
fn refused_feature_is_reported_at_its_element() {
    let fields = vec![
        option("path", string("m")),
        option("features", array(vec![ident("atomics"), ident("threads")])),
    ];
    assert_eq!(
        parse(fields),
        refused(ErrorSite::Feature { field: 1, element: 1 }, "unknown feature")
    );
    let fields = vec![option("features", array(vec![FeatureExpr::Other]))];
    assert_eq!(
        parse(fields),
        refused(
            ErrorSite::Feature { field: 0, element: 0 },
            "expected a single token giving a feature"
        )
    );
}

#[test]
fn env_must_be_a_table_named_env() {
    let expected = refused(ErrorSite::FieldValue { field: 0 }, "expected key value pairs");
    assert_eq!(parse(vec![option("env", string("A=1"))]), expected);
    assert_eq!(parse(vec![option("env", array(vec![]))]), expected);
    let shaped = |attributed, qualified, path, has_dot2, has_rest| OptionExpr::Struct {
        attributed,
        qualified,
        path,
        fields: vec![int_entry("A", "1")],
        has_dot2,
        has_rest,
    };
    assert_eq!(
        parse(vec![option("env", shaped(true, false, plain_path("Env"), false, false))]),
        expected
    );
    assert_eq!(
        parse(vec![option("env", shaped(false, true, plain_path("Env"), false, false))]),
        expected
    );
    assert_eq!(
        parse(vec![option("env", shaped(false, false, plain_path("Vars"), false, false))]),
        expected
    );
    assert_eq!(
        parse(vec![option("env", shaped(false, false, plain_path("Env"), true, false))]),
        expected
    );
    assert_eq!(
        parse(vec![option("env", shaped(false, false, plain_path("Env"), true, true))]),
        expected
    );
    let rooted = NamePath { leading_colon: true, ..plain_path("Env") };
    assert_eq!(parse(vec![option("env", shaped(false, false, rooted, false, false))]), expected);
    let generic = NamePath {
        leading_colon: false,
        segments: vec![PathSegment { ident: "Env".to_string(), has_arguments: true }],
    };
    assert_eq!(parse(vec![option("env", shaped(false, false, generic, false, false))]), expected);
    let long = NamePath {
        leading_colon: false,
        segments: vec![
            PathSegment { ident: "std".to_string(), has_arguments: false },
            PathSegment { ident: "Env".to_string(), has_arguments: false },
        ],
    };
    assert_eq!(parse(vec![option("env", shaped(false, false, long, false, false))]), expected);
}

#[test]
fn env_entry_must_be_a_plain_pair() {
    let expected = refused(ErrorSite::EnvEntry { field: 0, entry: 1 }, "expected key value pair");
    let mut attributed = int_entry("B", "2");
    attributed.attributed = true;
    assert_eq!(
        parse(vec![option("env", table(vec![int_entry("A", "1"), attributed]))]),
        expected
    );
    let mut shorthand = int_entry("B", "2");
    shorthand.has_colon = false;
    assert_eq!(
        parse(vec![option("env", table(vec![int_entry("A", "1"), shorthand]))]),
        expected
    );
}

#[test]
fn env_entry_must_be_named() {
    let mut numbered = int_entry("0", "2");
    numbered.name = None;
    assert_eq!(
        parse(vec![option("path", string("m")), option("env", table(vec![numbered]))]),
        refused(ErrorSite::EnvEntry { field: 1, entry: 0 }, "expected env variable name")
    );
}

#[test]
fn attributed_group_is_refused() {
    let grouped = EnvExpr::Group {
        attributed: false,
        inner: Box::new(EnvExpr::Group {
            attributed: true,
            inner: Box::new(env_lit(Literal::Int("1".to_string()), "1")),
        }),
    };
    assert_eq!(
        parse(vec![option("env", table(vec![entry("A", grouped, "1")]))]),
        refused(
            ErrorSite::EnvGroupAttribute { field: 0, entry: 0 },
            "expected a string, int, float or bool"
        )
    );
}

#[test]
fn other_literal_is_refused_with_its_text() {
    let value = env_lit(Literal::Other, "'c'");
    assert_eq!(
        parse(vec![option("env", table(vec![int_entry("A", "1"), entry("B", value, "'c'")]))]),
        refused(
            ErrorSite::EnvLiteral { field: 0, entry: 1 },
            "expected a string, int, float or bool, found literal `'c'`"
        )
    );
}

#[test]
fn value_that_is_no_literal_is_refused_with_its_text() {
    let expected = refused(
        ErrorSite::EnvValue { field: 0, entry: 0 },
        "expected a string, int, float or bool, found `1 + 2`",
    );
    assert_eq!(
        parse(vec![option("env", table(vec![entry("A", EnvExpr::Other, "1 + 2")]))]),
        expected
    );
    let attributed = EnvExpr::Lit {
        attributed: true,
        lit: Literal::Int("3".to_string()),
        tokens: "3".to_string(),
    };
    assert_eq!(
        parse(vec![option("env", table(vec![entry("A", attributed, "1 + 2")]))]),
        expected
    );
}

#[test]
fn first_refused_option_ends_the_reading() {
    let fields = vec![
        option("release", string("yes")),
        option("nonsense", string("x")),
        option("path", lit(Literal::Bool(true))),
    ];
    assert_eq!(parse(fields), refused(ErrorSite::FieldValue { field: 0 }, "expected boolean"));
}
