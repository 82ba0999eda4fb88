//! The static page that is served when a page cannot be rendered.

use crate::template::{
    lemma_substitute_absent, lemma_substitute_idempotent, occurs, occurs_at, replace_token,
    substitute,
};
use vstd::prelude::*;

verus! {

/// The file that holds the static page.
pub const FALLBACK_PAGE_PATH: &'static str = "./.tuono/index.html";

/// The page that is served when the static page cannot be read either.
pub const MISSING_PAGE: &'static str = "Fallback HTML not loaded";

/// The token in the static page that marks where the payload goes.
pub const PLACEHOLDER: &'static str = "[SERVER_PAYLOAD]";

/// What an absent payload stands for: no characters at all.
pub open spec fn payload_text(payload: Option<Seq<char>>) -> Seq<char> {
    match payload {
        Some(text) => text,
        None => Seq::empty(),
    }
}

/// What the static file holds, or the stand-in page where it could not be
/// read.
pub open spec fn page_text(page: Option<Seq<char>>) -> Seq<char> {
    match page {
        Some(text) => text,
        None => MISSING_PAGE@,
    }
}

/// The page that answers a request that could not be rendered: the static
/// page with the payload in place of every placeholder.
pub open spec fn fallback_html(page: Option<Seq<char>>, payload: Option<Seq<char>>) -> Seq<char> {
    substitute(page_text(page), PLACEHOLDER@, payload_text(payload))
}

/// Builds the page that answers a request that could not be rendered, from
/// what reading the static file gave.
pub fn render_fallback(page: Option<String>, payload: Option<&str>) -> (html: String)
    ensures
        html@ == fallback_html(page.deep_view(), payload.deep_view()),
{
    let with = match payload {
        Some(text) => text,
        None => "",
    };
    proof {
        reveal_strlit("");
        assert(with@ =~= payload_text(payload.deep_view()));
    }
    match page {
        Some(text) => replace_token(text.as_str(), PLACEHOLDER, with),
        None => replace_token(MISSING_PAGE, PLACEHOLDER, with),
    }
}

/// The placeholder does not occur in the stand-in page, so that page is
/// served as it is, whatever the payload.
pub proof fn lemma_missing_page_is_served_unchanged(payload: Option<Seq<char>>)
    ensures
        !occurs(MISSING_PAGE@, PLACEHOLDER@),
        fallback_html(None, payload) == MISSING_PAGE@,
{
    reveal_strlit("Fallback HTML not loaded");
    reveal_strlit("[SERVER_PAYLOAD]");
    assert forall|at: int| !occurs_at(MISSING_PAGE@, PLACEHOLDER@, at) by {
        if occurs_at(MISSING_PAGE@, PLACEHOLDER@, at) {
            assert(MISSING_PAGE@.subrange(at, at + PLACEHOLDER@.len())[0] == MISSING_PAGE@[at]);
            assert(PLACEHOLDER@[0] == '[');
        }
    }
    lemma_substitute_absent(MISSING_PAGE@, PLACEHOLDER@, payload_text(payload));
}

/// A page that holds no placeholder is served as it is, whatever the
/// payload.
pub proof fn lemma_page_without_placeholder_is_served_unchanged(
    page: Option<Seq<char>>,
    payload: Option<Seq<char>>,
)
    requires
        !occurs(page_text(page), PLACEHOLDER@),
    ensures
        fallback_html(page, payload) == page_text(page),
{
    lemma_substitute_absent(page_text(page), PLACEHOLDER@, payload_text(payload));
}

/// Filling the payload into a page that was filled already changes nothing
/// exactly when the first pass left no placeholder behind, or the payload is
/// the placeholder itself.
pub proof fn lemma_second_pass_changes_nothing(
    page: Option<Seq<char>>,
    payload: Option<Seq<char>>,
)
    ensures
        fallback_html(Some(fallback_html(page, payload)), payload) == fallback_html(page, payload)
            <==> (!occurs(fallback_html(page, payload), PLACEHOLDER@) || payload_text(payload)
            == PLACEHOLDER@),
{
    reveal_strlit("[SERVER_PAYLOAD]");
    lemma_substitute_idempotent(page_text(page), PLACEHOLDER@, payload_text(payload));
}

} // verus!
