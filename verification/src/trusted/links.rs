use vstd::prelude::*;

verus! {

/// The text parses as an absolute URL.
pub uninterp spec fn is_absolute_url(text: Seq<char>) -> bool;

/// `url::Url::parse`: whether the parser accepts the text. It accepts
/// absolute URLs only; a relative reference has no base here and is refused.
#[verifier::external_body]
pub(crate) fn parses_as_url(text: &str) -> (accepted: bool)
    ensures
        accepted == is_absolute_url(text@),
{
    url::Url::parse(text).is_ok()
}

} // verus!
