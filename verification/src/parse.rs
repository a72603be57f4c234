//! Reading the macro's options into a build configuration.

use crate::config::{Args, ArgsView};
use crate::features::TargetFeatures;
use crate::syntax::{
    EnvExpr, EnvExprView, EnvField, EnvFieldView, Literal, LiteralView, MacroInput,
    MacroInputView, OptionExpr, OptionExprView, OptionField, OptionFieldView,
};
use crate::text::same_text;
use crate::views::{lemma_pushed_pair, result_view};
use vstd::prelude::*;

verus! {

/// The place in the input that an error points at. `field` counts the
/// options, `element` the elements of a feature list, `entry` the entries of
/// an environment table.
#[derive(Clone, Copy, Debug, PartialEq, Eq, Structural)]
pub enum ErrorSite {
    /// The first attribute of an option.
    FieldAttribute { field: usize },
    /// The name of an option.
    FieldName { field: usize },
    /// The value of an option.
    FieldValue { field: usize },
    /// An element of a feature list.
    Feature { field: usize, element: usize },
    /// An entry of an environment table, name and value.
    EnvEntry { field: usize, entry: usize },
    /// The first attribute of the outermost attributed group around the
    /// value of an entry.
    EnvGroupAttribute { field: usize, entry: usize },
    /// The literal that is the value of an entry.
    EnvLiteral { field: usize, entry: usize },
    /// The value of an entry as written.
    EnvValue { field: usize, entry: usize },
}

/// Why the options were refused, and where.
#[derive(Debug, PartialEq, Eq)]
pub struct ParseError {
    pub site: ErrorSite,
    pub message: String,
}

/// [`ParseError`] as contracts speak of it, its text as sequences of characters.
pub struct ParseErrorView {
    pub site: ErrorSite,
    pub message: Seq<char>,
}

impl View for ParseError {
    type V = ParseErrorView;

    open spec fn view(&self) -> ParseErrorView {
        ParseErrorView { site: self.site, message: self.message@ }
    }
}

impl DeepView for ParseError {
    type V = ParseErrorView;

    open spec fn deep_view(&self) -> ParseErrorView {
        self@
    }
}

/// The expression inside any number of groups, or `None` if one of the
/// groups carries attributes.
pub open spec fn peeled(e: EnvExprView) -> Option<EnvExprView>
    decreases e,
{
    match e {
        EnvExprView::Group { attributed, inner } => if attributed {
            None
        } else {
            peeled(*inner)
        },
        _ => Some(e),
    }
}

/// The text that a variable is set to: a string literal's value, a number's
/// text, `true` or `false`.
pub open spec fn env_value(field: int, entry: int, f: EnvFieldView) -> Result<
    Seq<char>,
    ParseErrorView,
> {
    match peeled(f.value) {
        None => Err(
            ParseErrorView {
                site: ErrorSite::EnvGroupAttribute { field: field as usize, entry: entry as usize },
                message: "expected a string, int, float or bool"@,
            },
        ),
        Some(EnvExprView::Lit { attributed, lit, tokens }) => if attributed {
            Err(unexpected_value(field, entry, f))
        } else {
            match lit {
                LiteralView::Str(value) => Ok(value),
                LiteralView::Int(text) => Ok(text),
                LiteralView::Float(text) => Ok(text),
                LiteralView::Bool(value) => Ok(
                    if value {
                        "true"@
                    } else {
                        "false"@
                    },
                ),
                LiteralView::Other => Err(
                    ParseErrorView {
                        site: ErrorSite::EnvLiteral {
                            field: field as usize,
                            entry: entry as usize,
                        },
                        message: "expected a string, int, float or bool, found literal `"@ + tokens
                            + "`"@,
                    },
                ),
            }
        },
        Some(_) => Err(unexpected_value(field, entry, f)),
    }
}

/// The error for a value that is no literal.
pub open spec fn unexpected_value(field: int, entry: int, f: EnvFieldView) -> ParseErrorView {
    ParseErrorView {
        site: ErrorSite::EnvValue { field: field as usize, entry: entry as usize },
        message: "expected a string, int, float or bool, found `"@ + f.value_tokens + "`"@,
    }
}

/// The variable that one entry of the table sets.
pub open spec fn env_pair(field: int, entry: int, f: EnvFieldView) -> Result<
    (Seq<char>, Seq<char>),
    ParseErrorView,
> {
    if f.attributed || !f.has_colon {
        Err(
            ParseErrorView {
                site: ErrorSite::EnvEntry { field: field as usize, entry: entry as usize },
                message: "expected key value pair"@,
            },
        )
    } else {
        match f.name {
            None => Err(
                ParseErrorView {
                    site: ErrorSite::EnvEntry { field: field as usize, entry: entry as usize },
                    message: "expected env variable name"@,
                },
            ),
            Some(name) => match env_value(field, entry, f) {
                Ok(value) => Ok((name, value)),
                Err(e) => Err(e),
            },
        }
    }
}

/// `vars` followed by what the entries from `from` on set, in order; the
/// first entry that is refused ends the reading.
pub open spec fn env_pairs_from(
    field: int,
    entries: Seq<EnvFieldView>,
    from: int,
    vars: Seq<(Seq<char>, Seq<char>)>,
) -> Result<Seq<(Seq<char>, Seq<char>)>, ParseErrorView>
    decreases entries.len() - from,
{
    if from < 0 || from >= entries.len() {
        Ok(vars)
    } else {
        match env_pair(field, from, entries[from]) {
            Ok(pair) => env_pairs_from(field, entries, from + 1, vars.push(pair)),
            Err(e) => Err(e),
        }
    }
}

/// Whether a struct expression has the shape of an environment table: the
/// plain name `Env`, braces, and no base.
pub open spec fn is_env_table(e: OptionExprView) -> bool {
    e matches OptionExprView::Struct { attributed, qualified, path, has_dot2, has_rest, .. }
        && !attributed && !qualified && !has_dot2 && !has_rest && path.single_ident() == Some(
        "Env"@,
    )
}

fn error(site: ErrorSite, message: &str) -> (e: ParseError)
    ensures
        e@ == (ParseErrorView { site, message: message@ }),
{
    ParseError { site, message: message.to_owned() }
}

fn error_quoting(site: ErrorSite, before: &str, quoted: &str) -> (e: ParseError)
    ensures
        e@ == (ParseErrorView { site, message: before@ + quoted@ + "`"@ }),
{
    let mut message = before.to_owned();
    message.append(quoted);
    message.append("`");
    ParseError { site, message }
}

/// Looks through groups for the expression they hold; `None` if a group on
/// the way carries attributes.
pub fn peel(e: &EnvExpr) -> (res: Option<&EnvExpr>)
    ensures
        res.deep_view() == peeled(e@),
    decreases e,
{
    match e {
        EnvExpr::Group { attributed, inner } => {
            if *attributed {
                None
            } else {
                peel(inner)
            }
        },
        _ => Some(e),
    }
}

fn read_env_value(field: usize, entry: usize, f: &EnvField) -> (res: Result<String, ParseError>)
    ensures
        result_view(res) == env_value(field as int, entry as int, f@),
{
    match peel(&f.value) {
        None => Err(
            error(
                ErrorSite::EnvGroupAttribute { field, entry },
                "expected a string, int, float or bool",
            ),
        ),
        Some(EnvExpr::Lit { attributed, lit, tokens }) => {
            if *attributed {
                Err(
                    error_quoting(
                        ErrorSite::EnvValue { field, entry },
                        "expected a string, int, float or bool, found `",
                        f.value_tokens.as_str(),
                    ),
                )
            } else {
                match lit {
                    Literal::Str(value) => Ok(value.clone()),
                    Literal::Int(text) => Ok(text.clone()),
                    Literal::Float(text) => Ok(text.clone()),
                    Literal::Bool(value) => Ok(
                        if *value {
                            "true".to_owned()
                        } else {
                            "false".to_owned()
                        },
                    ),
                    Literal::Other => Err(
                        error_quoting(
                            ErrorSite::EnvLiteral { field, entry },
                            "expected a string, int, float or bool, found literal `",
                            tokens.as_str(),
                        ),
                    ),
                }
            }
        },
        Some(_) => Err(
            error_quoting(
                ErrorSite::EnvValue { field, entry },
                "expected a string, int, float or bool, found `",
                f.value_tokens.as_str(),
            ),
        ),
    }
}

fn read_env_pair(field: usize, entry: usize, f: &EnvField) -> (res: Result<
    (String, String),
    ParseError,
>)
    ensures
        result_view(res) == env_pair(field as int, entry as int, f@),
{
    if f.attributed || !f.has_colon {
        return Err(error(ErrorSite::EnvEntry { field, entry }, "expected key value pair"));
    }
    match &f.name {
        None => Err(error(ErrorSite::EnvEntry { field, entry }, "expected env variable name")),
        Some(name) => match read_env_value(field, entry, f) {
            Ok(value) => Ok((name.clone(), value)),
            Err(e) => Err(e),
        },
    }
}

/// Appends to `vars` what the entries of an environment table set.
fn read_env_table(field: usize, entries: &Vec<EnvField>, vars: &mut Vec<(String, String)>) -> (res:
    Result<(), ParseError>)
    ensures
        res is Ok ==> env_pairs_from(field as int, entries.deep_view(), 0, old(vars).deep_view())
            == Ok::<Seq<(Seq<char>, Seq<char>)>, ParseErrorView>(final(vars).deep_view()),
        res matches Err(e) ==> env_pairs_from(
            field as int,
            entries.deep_view(),
            0,
            old(vars).deep_view(),
        ) == Err::<Seq<(Seq<char>, Seq<char>)>, ParseErrorView>(e@),
{
    let ghost table = entries.deep_view();
    let mut entry: usize = 0;
    while entry < entries.len()
        invariant
            entry <= entries.len(),
            table == entries.deep_view(),
            env_pairs_from(field as int, table, entry as int, vars.deep_view()) == env_pairs_from(
                field as int,
                table,
                0,
                old(vars).deep_view(),
            ),
        decreases entries.len() - entry,
    {
        match read_env_pair(field, entry, &entries[entry]) {
            Ok(pair) => {
                let ghost before = vars@;
                let (name, value) = pair;
                vars.push((name, value));
                proof {
                    lemma_pushed_pair(before, vars@, name, value);
                }
            },
            Err(e) => {
                return Err(e);
            },
        }
        entry += 1;
    }
    Ok(())
}

impl ArgsView {
    /// The configuration after one more option, or why the option is
    /// refused. A repeated `path`, `release` or `features` replaces the
    /// earlier one; a repeated `env` adds its variables to the earlier ones.
    pub open spec fn with_option(self, at: int, f: OptionFieldView) -> Result<
        ArgsView,
        ParseErrorView,
    > {
        if f.attributed {
            Err(
                ParseErrorView {
                    site: ErrorSite::FieldAttribute { field: at as usize },
                    message: "unexpected element"@,
                },
            )
        } else if f.name == "path"@ {
            match f.value {
                OptionExprView::Lit { attributed: false, lit: LiteralView::Str(path) } => Ok(
                    ArgsView { module_dir: path, ..self },
                ),
                _ => Err(
                    ParseErrorView {
                        site: ErrorSite::FieldValue { field: at as usize },
                        message: "expected string"@,
                    },
                ),
            }
        } else if f.name == "release"@ {
            match f.value {
                OptionExprView::Lit { attributed: false, lit: LiteralView::Bool(release) } => Ok(
                    ArgsView { release, ..self },
                ),
                _ => Err(
                    ParseErrorView {
                        site: ErrorSite::FieldValue { field: at as usize },
                        message: "expected boolean"@,
                    },
                ),
            }
        } else if f.name == "features"@ {
            match f.value {
                OptionExprView::Array { attributed: false, elems } => match TargetFeatures::read(
                    elems,
                ) {
                    Ok(features) => Ok(ArgsView { features, ..self }),
                    Err(e) => Err(
                        ParseErrorView {
                            site: ErrorSite::Feature { field: at as usize, element: e.index },
                            message: e.kind.text(),
                        },
                    ),
                },
                _ => Err(
                    ParseErrorView {
                        site: ErrorSite::FieldValue { field: at as usize },
                        message: "expected boolean"@,
                    },
                ),
            }
        } else if f.name == "env"@ {
            if is_env_table(f.value) {
                match env_pairs_from(at, f.value->Struct_fields, 0, self.env_vars) {
                    Ok(env_vars) => Ok(ArgsView { env_vars, ..self }),
                    Err(e) => Err(e),
                }
            } else {
                Err(
                    ParseErrorView {
                        site: ErrorSite::FieldValue { field: at as usize },
                        message: "expected key value pairs"@,
                    },
                )
            }
        } else {
            Err(
                ParseErrorView {
                    site: ErrorSite::FieldName { field: at as usize },
                    message: "unknown option `"@ + f.name + "`"@,
                },
            )
        }
    }

    /// The configuration after the options from `from` on, read in order;
    /// the first option that is refused ends the reading.
    pub open spec fn with_options_from(self, fields: Seq<OptionFieldView>, from: int) -> Result<
        ArgsView,
        ParseErrorView,
    >
        decreases fields.len() - from,
    {
        if from < 0 || from >= fields.len() {
            Ok(self)
        } else {
            match self.with_option(from, fields[from]) {
                Ok(next) => next.with_options_from(fields, from + 1),
                Err(e) => Err(e),
            }
        }
    }

    /// What the macro's input reads as.
    pub open spec fn parsed(input: MacroInputView) -> Result<ArgsView, ParseErrorView> {
        match input {
            MacroInputView::Path(path) => Ok(ArgsView { module_dir: path, ..ArgsView::initial() }),
            MacroInputView::Options(fields) => ArgsView::initial().with_options_from(fields, 0),
        }
    }
}

impl Args {
    /// Takes one option into the configuration.
    fn set_option(&mut self, at: usize, f: &OptionField) -> (res: Result<(), ParseError>)
        ensures
            res is Ok ==> old(self)@.with_option(at as int, f@) == Ok::<ArgsView, ParseErrorView>(
                final(self)@,
            ),
            res matches Err(e) ==> old(self)@.with_option(at as int, f@) == Err::<
                ArgsView,
                ParseErrorView,
            >(e@),
    {
        if f.attributed {
            return Err(error(ErrorSite::FieldAttribute { field: at }, "unexpected element"));
        }
        if same_text(f.name.as_str(), "path") {
            match &f.value {
                OptionExpr::Lit { attributed: false, lit: Literal::Str(path) } => {
                    self.module_dir = path.clone();
                    Ok(())
                },
                _ => Err(error(ErrorSite::FieldValue { field: at }, "expected string")),
            }
        } else if same_text(f.name.as_str(), "release") {
            match &f.value {
                OptionExpr::Lit { attributed: false, lit: Literal::Bool(release) } => {
                    self.release = *release;
                    Ok(())
                },
                _ => Err(error(ErrorSite::FieldValue { field: at }, "expected boolean")),
            }
        } else if same_text(f.name.as_str(), "features") {
            match &f.value {
                OptionExpr::Array { attributed: false, elems } => {
                    match TargetFeatures::from_list_of_exprs(elems) {
                        Ok(features) => {
                            self.features = features;
                            Ok(())
                        },
                        Err(e) => {
                            let message = e.kind.message();
                            Err(
                                ParseError {
                                    site: ErrorSite::Feature { field: at, element: e.index },
                                    message,
                                },
                            )
                        },
                    }
                },
                _ => Err(error(ErrorSite::FieldValue { field: at }, "expected boolean")),
            }
        } else if same_text(f.name.as_str(), "env") {
            match &f.value {
                OptionExpr::Struct {
                    attributed: false,
                    qualified: false,
                    path,
                    fields,
                    has_dot2: false,
                    has_rest: false,
                } => {
                    let named_env = match path.single_ident() {
                        Some(ident) => same_text(ident.as_str(), "Env"),
                        None => false,
                    };
                    if named_env {
                        read_env_table(at, fields, &mut self.env_vars)
                    } else {
                        Err(error(ErrorSite::FieldValue { field: at }, "expected key value pairs"))
                    }
                },
                _ => Err(error(ErrorSite::FieldValue { field: at }, "expected key value pairs")),
            }
        } else {
            Err(error_quoting(ErrorSite::FieldName { field: at }, "unknown option `", f.name.as_str()))
        }
    }

    /// Reads the macro's input. A lone string is the module's path; else each
    /// option is taken in order, and the first one refused is the error.
    pub fn parse(input: &MacroInput) -> (res: Result<Args, ParseError>)
        ensures
            result_view(res) == ArgsView::parsed(input@),
    {
        let mut args = Args::default();
        match input {
            MacroInput::Path(path) => {
                args.module_dir = path.clone();
                Ok(args)
            },
            MacroInput::Options(fields) => {
                let ghost options = fields.deep_view();
                let mut at: usize = 0;
                while at < fields.len()
                    invariant
                        at <= fields.len(),
                        options == fields.deep_view(),
                        input@ == MacroInputView::Options(options),
                        args@.with_options_from(options, at as int)
                            == ArgsView::initial().with_options_from(options, 0),
                    decreases fields.len() - at,
                {
                    match args.set_option(at, &fields[at]) {
                        Ok(_) => {},
                        Err(e) => {
                            return Err(e);
                        },
                    }
                    at += 1;
                }
                Ok(args)
            },
        }
    }
}

} // verus!
