//! Text fragments tagged with a logical style role.
//!
//! Fragments never hold terminal escape codes themselves; only a
//! stylesheet turns role names into styling when a list is rendered.
use vstd::prelude::*;

use crate::styling::style::TermStyle;

verus! {

/// Text with a style (maybe).
#[derive(Debug, Clone)]
pub enum StyledText {
    /// Text rendered as it is.
    Unstyled(String),
    /// Text tagged with the name of a style role, resolved by the
    /// stylesheet at render time.
    Styled(String, String),
    /// Text carrying a fixed concrete style that bypasses the
    /// stylesheet. Using this is not recommended: it styles its text
    /// even when styling is otherwise disabled.
    LiteralStyled(String, TermStyle),
}

/// List of styled text.
pub type StyledList = Vec<StyledText>;

/// The mathematical shape of a fragment: its text as a character
/// sequence, with its role or fixed style.
#[verifier::ext_equal]
pub enum FragModel {
    Unstyled(Seq<char>),
    Styled(Seq<char>, Seq<char>),
    LiteralStyled(Seq<char>, TermStyle),
}

impl DeepView for StyledText {
    type V = FragModel;

    open spec fn deep_view(&self) -> FragModel {
        match self {
            StyledText::Unstyled(t) => FragModel::Unstyled(t@),
            StyledText::Styled(t, role) => FragModel::Styled(t@, role@),
            StyledText::LiteralStyled(t, st) => FragModel::LiteralStyled(t@, *st),
        }
    }
}

/// The plain text of a fragment, without any styling.
pub open spec fn frag_text(m: FragModel) -> Seq<char> {
    match m {
        FragModel::Unstyled(t) => t,
        FragModel::Styled(t, _) => t,
        FragModel::LiteralStyled(t, _) => t,
    }
}

/// The plain text of a whole list.
pub open spec fn plain_list(l: Seq<FragModel>) -> Seq<char>
    decreases l.len(),
{
    if l.len() == 0 {
        Seq::<char>::empty()
    } else {
        frag_text(l[0]) + plain_list(l.drop_first())
    }
}

/// A character sequence without the escape character.
pub open spec fn esc_free(s: Seq<char>) -> bool {
    forall|i: int| 0 <= i < s.len() ==> s[i] != '\u{1b}'
}

/// All fragment texts in the list are free of escape characters.
pub open spec fn frags_esc_free(l: Seq<FragModel>) -> bool {
    forall|i: int| 0 <= i < l.len() ==> esc_free(frag_text(#[trigger] l[i]))
}

/// No fragment bypasses the stylesheet with a fixed style.
pub open spec fn no_literal_styled(l: Seq<FragModel>) -> bool {
    forall|i: int| 0 <= i < l.len() ==> !(#[trigger] l[i] is LiteralStyled)
}

impl From<String> for StyledText {
    fn from(value: String) -> (r: Self) {
        StyledText::Unstyled(value)
    }
}

impl vstd::std_specs::convert::FromSpecImpl<String> for StyledText {
    open spec fn obeys_from_spec() -> bool {
        true
    }

    open spec fn from_spec(value: String) -> Self {
        StyledText::Unstyled(value)
    }
}

/// An unstyled space.
pub fn space() -> (r: StyledText)
    ensures
        r.deep_view() == FragModel::Unstyled(" "@),
{
    unstyled(" ")
}

/// A block of unstyled text.
pub fn unstyled(text: &str) -> (r: StyledText)
    ensures
        r.deep_view() == FragModel::Unstyled(text@),
{
    StyledText::Unstyled(String::from_str(text))
}

/// Style text with a stylesheet role.
pub fn styled(text: &str, style: &str) -> (r: StyledText)
    ensures
        r.deep_view() == FragModel::Styled(text@, style@),
{
    StyledText::Styled(String::from_str(text), String::from_str(style))
}

/// Style text with a specific concrete style. Using this is not
/// recommended: the stylesheet cannot disable it.
pub fn literal_styled(text: &str, style: &TermStyle) -> (r: StyledText)
    ensures
        r.deep_view() == FragModel::LiteralStyled(text@, *style),
{
    StyledText::LiteralStyled(String::from_str(text), *style)
}

} // verus!
