//! Plain-data picture of the macro's input: what the option reader inspects
//! of each expression, and nothing else. A front end fills these in from its
//! syntax tree; spans stay with the front end and are found again through the
//! positions that errors carry.

use vstd::prelude::*;

verus! {

/// One segment of a path.
#[derive(Debug, PartialEq, Eq)]
pub struct PathSegment {
    pub ident: String,
    /// Whether generic or parenthesised arguments follow the identifier.
    pub has_arguments: bool,
}

/// [`PathSegment`] as contracts speak of it, its text as sequences of characters.
pub struct PathSegmentView {
    pub ident: Seq<char>,
    pub has_arguments: bool,
}

impl View for PathSegment {
    type V = PathSegmentView;

    open spec fn view(&self) -> PathSegmentView {
        PathSegmentView { ident: self.ident@, has_arguments: self.has_arguments }
    }
}

impl DeepView for PathSegment {
    type V = PathSegmentView;

    open spec fn deep_view(&self) -> PathSegmentView {
        self@
    }
}

/// A path such as `a::b<T>`.
#[derive(Debug, PartialEq, Eq)]
pub struct NamePath {
    /// Whether the path starts with `::`.
    pub leading_colon: bool,
    pub segments: Vec<PathSegment>,
}

/// [`NamePath`] as contracts speak of it, its text as sequences of characters.
pub struct NamePathView {
    pub leading_colon: bool,
    pub segments: Seq<PathSegmentView>,
}

impl View for NamePath {
    type V = NamePathView;

    open spec fn view(&self) -> NamePathView {
        NamePathView { leading_colon: self.leading_colon, segments: self.segments.deep_view() }
    }
}

impl DeepView for NamePath {
    type V = NamePathView;

    open spec fn deep_view(&self) -> NamePathView {
        self@
    }
}

impl NamePathView {
    /// The identifier, if the path is nothing but one identifier.
    pub open spec fn single_ident(self) -> Option<Seq<char>> {
        if !self.leading_colon && self.segments.len() == 1 && !self.segments[0].has_arguments {
            Some(self.segments[0].ident)
        } else {
            None
        }
    }
}

impl NamePath {
    /// The identifier, if the path is nothing but one identifier.
    pub fn single_ident(&self) -> (res: Option<&String>)
        ensures
            res.deep_view() == self@.single_ident(),
    {
        if !self.leading_colon && self.segments.len() == 1 && !self.segments[0].has_arguments {
            Some(&self.segments[0].ident)
        } else {
            None
        }
    }
}

/// A literal token.
#[derive(Debug, PartialEq, Eq)]
pub enum Literal {
    /// A string literal, by its value.
    Str(String),
    /// An integer literal, by its text, suffix included.
    Int(String),
    /// A floating-point literal, by its text, suffix included.
    Float(String),
    Bool(bool),
    /// Any other literal.
    Other,
}

/// [`Literal`] as contracts speak of it, its text as sequences of characters.
pub enum LiteralView {
    Str(Seq<char>),
    Int(Seq<char>),
    Float(Seq<char>),
    Bool(bool),
    Other,
}

impl View for Literal {
    type V = LiteralView;

    open spec fn view(&self) -> LiteralView {
        match self {
            Literal::Str(value) => LiteralView::Str(value@),
            Literal::Int(text) => LiteralView::Int(text@),
            Literal::Float(text) => LiteralView::Float(text@),
            Literal::Bool(value) => LiteralView::Bool(*value),
            Literal::Other => LiteralView::Other,
        }
    }
}

impl DeepView for Literal {
    type V = LiteralView;

    open spec fn deep_view(&self) -> LiteralView {
        self@
    }
}

/// One element of a feature list.
#[derive(Debug, PartialEq, Eq)]
pub enum FeatureExpr {
    /// A path expression.
    Path {
        /// Whether attributes precede it.
        attributed: bool,
        /// Whether it is qualified with a self type, as in `<T as U>::x`.
        qualified: bool,
        path: NamePath,
    },
    /// Any other expression.
    Other,
}

/// [`FeatureExpr`] as contracts speak of it, its text as sequences of characters.
pub enum FeatureExprView {
    Path { attributed: bool, qualified: bool, path: NamePathView },
    Other,
}

impl View for FeatureExpr {
    type V = FeatureExprView;

    open spec fn view(&self) -> FeatureExprView {
        match self {
            FeatureExpr::Path { attributed, qualified, path } => FeatureExprView::Path {
                attributed: *attributed,
                qualified: *qualified,
                path: path@,
            },
            FeatureExpr::Other => FeatureExprView::Other,
        }
    }
}

impl DeepView for FeatureExpr {
    type V = FeatureExprView;

    open spec fn deep_view(&self) -> FeatureExprView {
        self@
    }
}

impl FeatureExprView {
    /// The identifier, if the element is a bare identifier.
    pub open spec fn bare_ident(self) -> Option<Seq<char>> {
        match self {
            FeatureExprView::Path { attributed, qualified, path } => if !attributed && !qualified {
                path.single_ident()
            } else {
                None
            },
            FeatureExprView::Other => None,
        }
    }
}

impl FeatureExpr {
    /// The identifier, if the element is a bare identifier.
    pub fn bare_ident(&self) -> (res: Option<&String>)
        ensures
            res.deep_view() == self@.bare_ident(),
    {
        match self {
            FeatureExpr::Path { attributed, qualified, path } => {
                if !*attributed && !*qualified {
                    path.single_ident()
                } else {
                    None
                }
            },
            FeatureExpr::Other => None,
        }
    }
}

/// The value written for an environment variable.
#[derive(Debug, PartialEq, Eq)]
pub enum EnvExpr {
    /// An expression inside invisible delimiters, as a macro substitution
    /// leaves it.
    Group { attributed: bool, inner: Box<EnvExpr> },
    /// A literal, with its own text for diagnostics.
    Lit { attributed: bool, lit: Literal, tokens: String },
    /// Any other expression.
    Other,
}

/// [`EnvExpr`] as contracts speak of it, its text as sequences of characters.
pub enum EnvExprView {
    Group { attributed: bool, inner: Box<EnvExprView> },
    Lit { attributed: bool, lit: LiteralView, tokens: Seq<char> },
    Other,
}

impl View for EnvExpr {
    type V = EnvExprView;

    open spec fn view(&self) -> EnvExprView
        decreases self,
    {
        match self {
            EnvExpr::Group { attributed, inner } => EnvExprView::Group {
                attributed: *attributed,
                inner: Box::new((**inner).view()),
            },
            EnvExpr::Lit { attributed, lit, tokens } => EnvExprView::Lit {
                attributed: *attributed,
                lit: lit@,
                tokens: tokens@,
            },
            EnvExpr::Other => EnvExprView::Other,
        }
    }
}

impl DeepView for EnvExpr {
    type V = EnvExprView;

    open spec fn deep_view(&self) -> EnvExprView {
        self@
    }
}

/// One `NAME: value` entry of the environment table.
#[derive(Debug, PartialEq, Eq)]
pub struct EnvField {
    /// Whether attributes precede the entry.
    pub attributed: bool,
    /// Whether a colon separates name and value; without it the entry is
    /// shorthand for a variable of the same name.
    pub has_colon: bool,
    /// The name, or `None` where the entry is numbered.
    pub name: Option<String>,
    pub value: EnvExpr,
    /// The text of the value as written, for diagnostics.
    pub value_tokens: String,
}

/// [`EnvField`] as contracts speak of it, its text as sequences of characters.
pub struct EnvFieldView {
    pub attributed: bool,
    pub has_colon: bool,
    pub name: Option<Seq<char>>,
    pub value: EnvExprView,
    pub value_tokens: Seq<char>,
}

impl View for EnvField {
    type V = EnvFieldView;

    open spec fn view(&self) -> EnvFieldView {
        EnvFieldView {
            attributed: self.attributed,
            has_colon: self.has_colon,
            name: self.name.deep_view(),
            value: self.value@,
            value_tokens: self.value_tokens@,
        }
    }
}

impl DeepView for EnvField {
    type V = EnvFieldView;

    open spec fn deep_view(&self) -> EnvFieldView {
        self@
    }
}

/// The value written for an option.
#[derive(Debug, PartialEq, Eq)]
pub enum OptionExpr {
    Lit { attributed: bool, lit: Literal },
    /// An array expression such as `[a, b]`.
    Array { attributed: bool, elems: Vec<FeatureExpr> },
    /// A struct expression such as `Env { A: 1 }`.
    Struct {
        attributed: bool,
        /// Whether the path is qualified with a self type.
        qualified: bool,
        path: NamePath,
        fields: Vec<EnvField>,
        /// Whether `..` closes the field list.
        has_dot2: bool,
        /// Whether a base expression follows the `..`.
        has_rest: bool,
    },
    /// Any other expression.
    Other,
}

/// [`OptionExpr`] as contracts speak of it, its text as sequences of characters.
pub enum OptionExprView {
    Lit { attributed: bool, lit: LiteralView },
    Array { attributed: bool, elems: Seq<FeatureExprView> },
    Struct {
        attributed: bool,
        qualified: bool,
        path: NamePathView,
        fields: Seq<EnvFieldView>,
        has_dot2: bool,
        has_rest: bool,
    },
    Other,
}

impl View for OptionExpr {
    type V = OptionExprView;

    open spec fn view(&self) -> OptionExprView {
        match self {
            OptionExpr::Lit { attributed, lit } => OptionExprView::Lit {
                attributed: *attributed,
                lit: lit@,
            },
            OptionExpr::Array { attributed, elems } => OptionExprView::Array {
                attributed: *attributed,
                elems: elems.deep_view(),
            },
            OptionExpr::Struct { attributed, qualified, path, fields, has_dot2, has_rest } =>
                OptionExprView::Struct {
                attributed: *attributed,
                qualified: *qualified,
                path: path@,
                fields: fields.deep_view(),
                has_dot2: *has_dot2,
                has_rest: *has_rest,
            },
            OptionExpr::Other => OptionExprView::Other,
        }
    }
}

impl DeepView for OptionExpr {
    type V = OptionExprView;

    open spec fn deep_view(&self) -> OptionExprView {
        self@
    }
}

/// One `name: value` entry of the options.
#[derive(Debug, PartialEq, Eq)]
pub struct OptionField {
    /// Whether attributes precede the entry.
    pub attributed: bool,
    /// The entry's name; for a numbered entry, its number in decimal.
    pub name: String,
    pub value: OptionExpr,
}

/// [`OptionField`] as contracts speak of it, its text as sequences of characters.
pub struct OptionFieldView {
    pub attributed: bool,
    pub name: Seq<char>,
    pub value: OptionExprView,
}

impl View for OptionField {
    type V = OptionFieldView;

    open spec fn view(&self) -> OptionFieldView {
        OptionFieldView { attributed: self.attributed, name: self.name@, value: self.value@ }
    }
}

impl DeepView for OptionField {
    type V = OptionFieldView;

    open spec fn deep_view(&self) -> OptionFieldView {
        self@
    }
}

/// What the macro was given.
#[derive(Debug, PartialEq, Eq)]
pub enum MacroInput {
    /// A leading string literal: the module's path, all else by default.
    Path(String),
    /// A comma-separated list of options.
    Options(Vec<OptionField>),
}

/// [`MacroInput`] as contracts speak of it, its text as sequences of characters.
pub enum MacroInputView {
    Path(Seq<char>),
    Options(Seq<OptionFieldView>),
}

impl View for MacroInput {
    type V = MacroInputView;

    open spec fn view(&self) -> MacroInputView {
        match self {
            MacroInput::Path(path) => MacroInputView::Path(path@),
            MacroInput::Options(fields) => MacroInputView::Options(fields.deep_view()),
        }
    }
}

impl DeepView for MacroInput {
    type V = MacroInputView;

    open spec fn deep_view(&self) -> MacroInputView {
        self@
    }
}

} // verus!
