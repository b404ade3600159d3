//! The arguments of an invocation, and the configuration that they give.

use crate::error::{viewed, GenerationError};
use crate::text::copy_text;
use vstd::prelude::*;
use vstd::string::*;

verus! {

/// One token of the invocation's argument list.
#[derive(Debug, PartialEq, Eq)]
pub enum ArgumentToken {
    /// An identifier that is no keyword.
    Ident(String),
    Comma,
    /// A boolean literal.
    Bool(bool),
    /// Any other token.
    Other,
}

/// The model of an argument token: texts as sequences of characters, lists as
/// sequences.
pub enum ArgumentTokenModel {
    Ident(Seq<char>),
    Comma,
    Bool(bool),
    Other,
}

impl View for ArgumentToken {
    type V = ArgumentTokenModel;

    open spec fn view(&self) -> ArgumentTokenModel {
        match self {
            ArgumentToken::Ident(name) => ArgumentTokenModel::Ident(name@),
            ArgumentToken::Comma => ArgumentTokenModel::Comma,
            ArgumentToken::Bool(value) => ArgumentTokenModel::Bool(*value),
            ArgumentToken::Other => ArgumentTokenModel::Other,
        }
    }
}

impl DeepView for ArgumentToken {
    type V = ArgumentTokenModel;

    open spec fn deep_view(&self) -> ArgumentTokenModel {
        self.view()
    }
}

/// The positional arguments of an invocation.
#[derive(Debug, PartialEq, Eq)]
pub struct MacroParameters {
    /// The marker type's identifier.
    pub marker: String,
    /// The overlay's name, where the invocation gives one.
    pub overlay_name: Option<String>,
    /// Whether a field is wrapped unless something says otherwise.
    pub default_wrap: bool,
}

/// The model of the positional arguments: texts as sequences of characters, lists as
/// sequences.
pub struct MacroParametersModel {
    pub marker: Seq<char>,
    pub overlay_name: Option<Seq<char>>,
    pub default_wrap: bool,
}

impl View for MacroParameters {
    type V = MacroParametersModel;

    open spec fn view(&self) -> MacroParametersModel {
        MacroParametersModel {
            marker: self.marker@,
            overlay_name: self.overlay_name.deep_view(),
            default_wrap: self.default_wrap,
        }
    }
}

/// The overlay's name that follows the marker, where a comma and an
/// identifier do.
pub open spec fn named_overlay(tokens: Seq<ArgumentTokenModel>) -> Option<Seq<char>> {
    if tokens.len() >= 3 && tokens[1] is Comma && tokens[2] is Ident {
        Some(tokens[2]->Ident_0)
    } else {
        None
    }
}

/// The wrapping flag that follows the overlay's name, where a comma and a
/// boolean literal do; `true` otherwise.
pub open spec fn stated_default_wrap(tokens: Seq<ArgumentTokenModel>) -> bool {
    if named_overlay(tokens) is Some && tokens.len() >= 5 && tokens[3] is Comma
        && tokens[4] is Bool {
        tokens[4]->Bool_0
    } else {
        true
    }
}

/// What an argument list decodes to: the marker's identifier first, then,
/// each after a comma, the overlay's name and the wrapping flag. Reading stops
/// at the first token that does not fit; what follows it is ignored.
pub open spec fn decoded(tokens: Seq<ArgumentTokenModel>) -> Result<
    MacroParametersModel,
    GenerationError,
> {
    if tokens.len() >= 1 && tokens[0] is Ident {
        Ok(
            MacroParametersModel {
                marker: tokens[0]->Ident_0,
                overlay_name: named_overlay(tokens),
                default_wrap: stated_default_wrap(tokens),
            },
        )
    } else {
        Err(GenerationError::MissingMarker)
    }
}

/// What stands behind the fifth token does not count.
pub proof fn trailing_tokens_are_ignored(
    tokens: Seq<ArgumentTokenModel>,
    more: Seq<ArgumentTokenModel>,
)
    requires
        tokens.len() >= 5,
    ensures
        decoded(tokens + more) == decoded(tokens),
{
}

impl MacroParameters {
    /// Decodes the positional arguments of an invocation.
    pub fn parse(tokens: &Vec<ArgumentToken>) -> (parsed: Result<MacroParameters, GenerationError>)
        ensures
            viewed(parsed) == decoded(tokens.deep_view()),
    {
        if tokens.len() == 0 {
            return Err(GenerationError::MissingMarker);
        }
        let marker = match &tokens[0] {
            ArgumentToken::Ident(name) => copy_text(name),
            _ => {
                return Err(GenerationError::MissingMarker);
            },
        };
        let mut out = MacroParameters { marker, overlay_name: None, default_wrap: true };
        if tokens.len() < 3 {
            return Ok(out);
        }
        match &tokens[1] {
            ArgumentToken::Comma => {},
            _ => {
                return Ok(out);
            },
        }
        match &tokens[2] {
            ArgumentToken::Ident(name) => {
                out.overlay_name = Some(copy_text(name));
            },
            _ => {
                return Ok(out);
            },
        }
        if tokens.len() < 5 {
            return Ok(out);
        }
        match &tokens[3] {
            ArgumentToken::Comma => {},
            _ => {
                return Ok(out);
            },
        }
        match &tokens[4] {
            ArgumentToken::Bool(value) => {
                out.default_wrap = *value;
            },
            _ => {
                return Ok(out);
            },
        }
        Ok(out)
    }
}

/// What one invocation is run with.
#[derive(Debug, PartialEq, Eq)]
pub struct Configuration {
    /// The overlay record's name.
    pub overlay_name: String,
    /// The marker type's identifier.
    pub marker: String,
    /// The traits that the overlay derives besides those of the record.
    pub extra_derives: Vec<String>,
    /// Whether a field is wrapped unless something says otherwise.
    pub default_wrap: bool,
    /// Whether every field of the overlay is made public.
    pub promote_visibility: bool,
}

/// The model of a configuration: texts as sequences of characters, lists as
/// sequences.
pub struct ConfigurationModel {
    pub overlay_name: Seq<char>,
    pub marker: Seq<char>,
    pub extra_derives: Seq<Seq<char>>,
    pub default_wrap: bool,
    pub promote_visibility: bool,
}

impl View for Configuration {
    type V = ConfigurationModel;

    open spec fn view(&self) -> ConfigurationModel {
        ConfigurationModel {
            overlay_name: self.overlay_name@,
            marker: self.marker@,
            extra_derives: self.extra_derives.deep_view(),
            default_wrap: self.default_wrap,
            promote_visibility: self.promote_visibility,
        }
    }
}

impl ConfigurationModel {
    /// No trait stands twice among the extra derives.
    pub open spec fn well_formed(self) -> bool {
        self.extra_derives.no_duplicates()
    }
}

/// The traits that every overlay derives.
pub open spec fn default_derives() -> Seq<Seq<char>> {
    seq!["Clone"@, "PartialEq"@, "Debug"@]
}

/// The overlay's name where the invocation gives none.
pub open spec fn default_overlay_name(record_name: Seq<char>) -> Seq<char> {
    "Enumified"@ + record_name
}

/// The configuration that the arguments give for a record of this name.
pub open spec fn configured(
    parameters: MacroParametersModel,
    record_name: Seq<char>,
) -> ConfigurationModel {
    ConfigurationModel {
        overlay_name: match parameters.overlay_name {
            Some(name) => name,
            None => default_overlay_name(record_name),
        },
        marker: parameters.marker,
        extra_derives: default_derives(),
        default_wrap: parameters.default_wrap,
        promote_visibility: true,
    }
}

/// The traits that every overlay derives are three different ones.
pub proof fn default_derives_are_distinct()
    ensures
        default_derives().no_duplicates(),
{
    reveal_strlit("Clone");
    reveal_strlit("PartialEq");
    reveal_strlit("Debug");
    assert("Clone"@[0] == 'C' && "Debug"@[0] == 'D');
}

impl Configuration {
    /// The configuration that the arguments give for a record of this name.
    pub fn new(parameters: MacroParameters, record_name: &String) -> (configuration: Configuration)
        ensures
            configuration@ == configured(parameters@, record_name@),
            configuration@.well_formed(),
    {
        let overlay_name = match parameters.overlay_name {
            Some(name) => name,
            None => {
                let mut name = String::from_str("Enumified");
                name.append(record_name.as_str());
                name
            },
        };
        let mut extra_derives: Vec<String> = Vec::new();
        extra_derives.push(String::from_str("Clone"));
        extra_derives.push(String::from_str("PartialEq"));
        extra_derives.push(String::from_str("Debug"));
        proof {
            assert(extra_derives.deep_view() =~= default_derives());
            default_derives_are_distinct();
        }
        Configuration {
            overlay_name,
            marker: parameters.marker,
            extra_derives,
            default_wrap: parameters.default_wrap,
            promote_visibility: true,
        }
    }
}

} // verus!
