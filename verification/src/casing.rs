use convert_case::{Case, Casing};
use vstd::prelude::*;

verus! {

/// The identifier styles that generated names are written in.
#[derive(Clone, Copy, Debug, PartialEq, Eq)]
pub enum CaseStyle {
    /// `lower_words_joined_by_underscores`
    Snake,
    /// `firstWordLowerRestCapitalised`
    Camel,
    /// `EveryWordCapitalised`
    Pascal,
}

/// What `convert_case` makes of a text in a given style.
pub uninterp spec fn case_text(s: Seq<char>, style: CaseStyle) -> Seq<char>;

/// What `str::to_uppercase` makes of a text.
pub uninterp spec fn uppercase_text(s: Seq<char>) -> Seq<char>;

/// What `str::to_lowercase` makes of a text.
pub uninterp spec fn lowercase_text(s: Seq<char>) -> Seq<char>;

/// Calls `convert_case::Casing::to_case` on `s` with the case that `style` stands for.
/// The conversion splits the text into words at the crate's default boundaries and
/// rewrites them in the pattern of the case; it reads nothing but its arguments, so
/// its result is named `case_text(s@, style)`.
#[verifier::external_body]
pub(crate) fn to_case(s: &str, style: CaseStyle) -> (r: String)
    ensures
        r@ == case_text(s@, style),
{
    let case = match style {
        CaseStyle::Snake => Case::Snake,
        CaseStyle::Camel => Case::Camel,
        CaseStyle::Pascal => Case::Pascal,
    };
    s.to_case(case)
}

/// `str::to_uppercase` returns the uppercase equivalent of the text as Unicode
/// defines it; it reads nothing but its argument, so its result is named
/// `uppercase_text(s@)`.
pub assume_specification[ str::to_uppercase ](s: &str) -> (r: String)
    ensures
        r@ == uppercase_text(s@),
;

/// `str::to_lowercase` returns the lowercase equivalent of the text as Unicode
/// defines it; it reads nothing but its argument, so its result is named
/// `lowercase_text(s@)`.
pub assume_specification[ str::to_lowercase ](s: &str) -> (r: String)
    ensures
        r@ == lowercase_text(s@),
;

} // verus!
