//! The configuration parser: from the argument tokens of one invocation to
//! the case style that governs the whole declaration, or one diagnostic.
//!
//! The argument list is handed in already tokenized, one `ArgToken` per
//! token in source order; a token's position in that list serves as its
//! source location for diagnostics.

use vstd::prelude::*;

use crate::case::CaseStyle;

verus! {

/// One token of the argument list, in source order.
#[derive(Debug, PartialEq, Eq)]
pub enum ArgToken {
    /// An identifier token, with its spelling.
    Ident(String),
    /// The `=` separator.
    Equals,
    /// A quoted string literal, with its unquoted value.
    LitStr(String),
    /// Any other token.
    Other,
}

/// A configuration diagnostic. `at` is the index of the offending token in
/// the argument list (for an argument list cut short, the index where the
/// missing token would stand).
#[derive(Debug, PartialEq, Eq)]
pub enum ConfigError {
    /// The argument's name token is not the one recognized name `case`.
    UnknownParameter { name: String, at: usize },
    /// The quoted value is none of the recognized case-style keywords.
    InvalidCaseValue { value: String, at: usize },
    /// The argument list diverges from the shape `case = "<keyword>"`.
    MalformedArguments { at: usize },
}

/// The case style that a keyword selects, if it is one of the eight
/// recognized keywords.
pub open spec fn spec_case_of_keyword(s: Seq<char>) -> Option<CaseStyle> {
    if s == "snake"@ {
        Some(CaseStyle::Snake)
    } else if s == "kebab"@ {
        Some(CaseStyle::Kebab)
    } else if s == "title"@ {
        Some(CaseStyle::Title)
    } else if s == "train"@ {
        Some(CaseStyle::Train)
    } else if s == "lower-camel"@ {
        Some(CaseStyle::LowerCamel)
    } else if s == "upper-camel"@ {
        Some(CaseStyle::UpperCamel)
    } else if s == "shouty-snake"@ {
        Some(CaseStyle::ShoutySnake)
    } else if s == "shouty-kebab"@ {
        Some(CaseStyle::ShoutyKebab)
    } else {
        None
    }
}

/// String comparison by contents.
fn str_eq(a: &str, b: &str) -> (r: bool)
    ensures
        r == (a@ == b@),
{
    let x: String = a.to_owned();
    let y: String = b.to_owned();
    x == y
}

/// Look a case-style keyword up.
pub fn case_of_keyword(s: &str) -> (r: Option<CaseStyle>)
    ensures
        r == spec_case_of_keyword(s@),
{
    if str_eq(s, "snake") {
        Some(CaseStyle::Snake)
    } else if str_eq(s, "kebab") {
        Some(CaseStyle::Kebab)
    } else if str_eq(s, "title") {
        Some(CaseStyle::Title)
    } else if str_eq(s, "train") {
        Some(CaseStyle::Train)
    } else if str_eq(s, "lower-camel") {
        Some(CaseStyle::LowerCamel)
    } else if str_eq(s, "upper-camel") {
        Some(CaseStyle::UpperCamel)
    } else if str_eq(s, "shouty-snake") {
        Some(CaseStyle::ShoutySnake)
    } else if str_eq(s, "shouty-kebab") {
        Some(CaseStyle::ShoutyKebab)
    } else {
        None
    }
}

/// The configuration that an argument list resolves to: a case style, or
/// the first diagnostic met reading left to right.
///
/// An empty list resolves to `Identity`. A non-empty list must have exactly
/// the shape `case = "<keyword>"`; the checks run in source order, so an
/// unknown name is reported before a missing separator, and an invalid
/// keyword before trailing tokens.
pub open spec fn spec_parse_options(tokens: Seq<ArgToken>) -> Result<CaseStyle, ConfigError> {
    if tokens.len() == 0 {
        Ok(CaseStyle::Identity)
    } else {
        match tokens[0] {
            ArgToken::Ident(name) => if name@ != "case"@ {
                Err(ConfigError::UnknownParameter { name, at: 0 })
            } else if tokens.len() < 2 || !(tokens[1] is Equals) {
                Err(ConfigError::MalformedArguments { at: 1 })
            } else if tokens.len() < 3 || !(tokens[2] is LitStr) {
                Err(ConfigError::MalformedArguments { at: 2 })
            } else {
                match tokens[2] {
                    ArgToken::LitStr(value) => match spec_case_of_keyword(value@) {
                        Some(style) => if tokens.len() > 3 {
                            Err(ConfigError::MalformedArguments { at: 3 })
                        } else {
                            Ok(style)
                        },
                        None => Err(ConfigError::InvalidCaseValue { value, at: 2 }),
                    },
                    _ => Err(ConfigError::MalformedArguments { at: 2 }),
                }
            },
            _ => Err(ConfigError::MalformedArguments { at: 0 }),
        }
    }
}

/// Parse the argument list into its configuration.
///
/// A purely validating parse with no side effects: it returns the one case
/// style the arguments select, or the first diagnostic, exactly as
/// `spec_parse_options` resolves them.
pub fn parse_options(tokens: &Vec<ArgToken>) -> (r: Result<CaseStyle, ConfigError>)
    ensures
        r == spec_parse_options(tokens@),
{
    if tokens.len() == 0 {
        return Ok(CaseStyle::Identity);
    }
    match &tokens[0] {
        ArgToken::Ident(name) => {
            if !str_eq(name.as_str(), "case") {
                return Err(ConfigError::UnknownParameter { name: name.clone(), at: 0 });
            }
            if tokens.len() < 2 || !(matches!(&tokens[1], ArgToken::Equals)) {
                return Err(ConfigError::MalformedArguments { at: 1 });
            }
            if tokens.len() < 3 {
                return Err(ConfigError::MalformedArguments { at: 2 });
            }
            match &tokens[2] {
                ArgToken::LitStr(value) => {
                    match case_of_keyword(value.as_str()) {
                        Some(style) => {
                            if tokens.len() > 3 {
                                Err(ConfigError::MalformedArguments { at: 3 })
                            } else {
                                Ok(style)
                            }
                        },
                        None => Err(ConfigError::InvalidCaseValue { value: value.clone(), at: 2 }),
                    }
                },
                _ => Err(ConfigError::MalformedArguments { at: 2 }),
            }
        },
        _ => Err(ConfigError::MalformedArguments { at: 0 }),
    }
}

} // verus!
