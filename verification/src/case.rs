//! Case styles and the conversion from a variant identifier to its label.
//!
//! Word segmentation and re-joining are delegated to the `heck` crate; the
//! result of each of its eight conversions is given a name here, and every
//! contract above this layer is stated in terms of those names.

use vstd::prelude::*;

verus! {

/// The case style applied to every variant identifier of one declaration.
///
/// `Identity` is the sentinel for "no conversion": the label is the
/// identifier's literal spelling.
#[derive(Clone, Copy, Debug, PartialEq, Eq)]
pub enum CaseStyle {
    Identity,
    Snake,
    Kebab,
    Title,
    Train,
    LowerCamel,
    UpperCamel,
    ShoutySnake,
    ShoutyKebab,
}

/// What `heck::ToSnakeCase::to_snake_case` returns for a string.
pub uninterp spec fn snake_of(s: Seq<char>) -> Seq<char>;

/// What `heck::ToKebabCase::to_kebab_case` returns for a string.
pub uninterp spec fn kebab_of(s: Seq<char>) -> Seq<char>;

/// What `heck::ToTitleCase::to_title_case` returns for a string.
pub uninterp spec fn title_of(s: Seq<char>) -> Seq<char>;

/// What `heck::ToTrainCase::to_train_case` returns for a string.
pub uninterp spec fn train_of(s: Seq<char>) -> Seq<char>;

/// What `heck::ToLowerCamelCase::to_lower_camel_case` returns for a string.
pub uninterp spec fn lower_camel_of(s: Seq<char>) -> Seq<char>;

/// What `heck::ToUpperCamelCase::to_upper_camel_case` returns for a string.
pub uninterp spec fn upper_camel_of(s: Seq<char>) -> Seq<char>;

/// What `heck::ToShoutySnakeCase::to_shouty_snake_case` returns for a string.
pub uninterp spec fn shouty_snake_of(s: Seq<char>) -> Seq<char>;

/// What `heck::ToShoutyKebabCase::to_shouty_kebab_case` returns for a string.
pub uninterp spec fn shouty_kebab_of(s: Seq<char>) -> Seq<char>;

/// Relies on `heck::ToSnakeCase::to_snake_case`: lowercase words joined by
/// `_`, a pure function of the characters alone.
#[verifier::external_body]
fn to_snake(s: &str) -> (r: String)
    ensures
        r@ == snake_of(s@),
{
    heck::ToSnakeCase::to_snake_case(s)
}

/// Relies on `heck::ToKebabCase::to_kebab_case`: lowercase words joined by
/// `-`, a pure function of the characters alone.
#[verifier::external_body]
fn to_kebab(s: &str) -> (r: String)
    ensures
        r@ == kebab_of(s@),
{
    heck::ToKebabCase::to_kebab_case(s)
}

/// Relies on `heck::ToTitleCase::to_title_case`: capitalized words joined by
/// a space, a pure function of the characters alone.
#[verifier::external_body]
fn to_title(s: &str) -> (r: String)
    ensures
        r@ == title_of(s@),
{
    heck::ToTitleCase::to_title_case(s)
}

/// Relies on `heck::ToTrainCase::to_train_case`: capitalized words joined by
/// `-`, a pure function of the characters alone.
#[verifier::external_body]
fn to_train(s: &str) -> (r: String)
    ensures
        r@ == train_of(s@),
{
    heck::ToTrainCase::to_train_case(s)
}

/// Relies on `heck::ToLowerCamelCase::to_lower_camel_case`: first word
/// lowercase, later words capitalized, no separator; a pure function of the
/// characters alone.
#[verifier::external_body]
fn to_lower_camel(s: &str) -> (r: String)
    ensures
        r@ == lower_camel_of(s@),
{
    heck::ToLowerCamelCase::to_lower_camel_case(s)
}

/// Relies on `heck::ToUpperCamelCase::to_upper_camel_case`: every word
/// capitalized, no separator; a pure function of the characters alone.
#[verifier::external_body]
fn to_upper_camel(s: &str) -> (r: String)
    ensures
        r@ == upper_camel_of(s@),
{
    heck::ToUpperCamelCase::to_upper_camel_case(s)
}

/// Relies on `heck::ToShoutySnakeCase::to_shouty_snake_case`: uppercase words
/// joined by `_`, a pure function of the characters alone.
#[verifier::external_body]
fn to_shouty_snake(s: &str) -> (r: String)
    ensures
        r@ == shouty_snake_of(s@),
{
    heck::ToShoutySnakeCase::to_shouty_snake_case(s)
}

/// Relies on `heck::ToShoutyKebabCase::to_shouty_kebab_case`: uppercase words
/// joined by `-`, a pure function of the characters alone.
#[verifier::external_body]
fn to_shouty_kebab(s: &str) -> (r: String)
    ensures
        r@ == shouty_kebab_of(s@),
{
    heck::ToShoutyKebabCase::to_shouty_kebab_case(s)
}

/// The label that a given identifier carries under a given case style.
pub open spec fn spec_label(ident: Seq<char>, style: CaseStyle) -> Seq<char> {
    match style {
        CaseStyle::Identity => ident,
        CaseStyle::Snake => snake_of(ident),
        CaseStyle::Kebab => kebab_of(ident),
        CaseStyle::Title => title_of(ident),
        CaseStyle::Train => train_of(ident),
        CaseStyle::LowerCamel => lower_camel_of(ident),
        CaseStyle::UpperCamel => upper_camel_of(ident),
        CaseStyle::ShoutySnake => shouty_snake_of(ident),
        CaseStyle::ShoutyKebab => shouty_kebab_of(ident),
    }
}

/// Derive the label of one variant identifier under the active case style.
///
/// Total over all identifiers and styles; under `Identity` the label is the
/// identifier itself, byte for byte.
pub fn convert(ident: &str, style: CaseStyle) -> (r: String)
    ensures
        r@ == spec_label(ident@, style),
{
    match style {
        CaseStyle::Identity => ident.to_owned(),
        CaseStyle::Snake => to_snake(ident),
        CaseStyle::Kebab => to_kebab(ident),
        CaseStyle::Title => to_title(ident),
        CaseStyle::Train => to_train(ident),
        CaseStyle::LowerCamel => to_lower_camel(ident),
        CaseStyle::UpperCamel => to_upper_camel(ident),
        CaseStyle::ShoutySnake => to_shouty_snake(ident),
        CaseStyle::ShoutyKebab => to_shouty_kebab(ident),
    }
}

/// Determinism of label derivation: two results of `spec_label` for the same
/// identifier and style are one and the same label.
pub proof fn lemma_label_deterministic(ident: Seq<char>, style: CaseStyle, r1: Seq<char>, r2: Seq<char>)
    requires
        r1 == spec_label(ident, style),
        r2 == spec_label(ident, style),
    ensures
        r1 == r2,
{
}

} // verus!
