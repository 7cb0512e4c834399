use vstd::prelude::*;

use crate::text::{ascii_fold, eq_ignore_ascii_case, same_ignoring_ascii_case};

verus! {

/// Model used for the hosted chat service when none is configured.
pub const DEFAULT_OPENAI_MODEL: &'static str = "gpt-5-mini";

/// Model used for the generative-AI service when none is configured.
pub const DEFAULT_GEMINI_MODEL: &'static str = "gemini-2.5-flash";

/// What the offline encyclopedia reports as its model.
pub const DEFAULT_WIKIPEDIA_MODEL: &'static str = "kiwix-wikipedia";

/// The backend that answers a request.
#[derive(Clone, Copy, Debug, PartialEq, Eq, Structural)]
pub enum Provider {
    /// The hosted chat-completions service; the default.
    OpenAi,
    /// The generative-AI service.
    Gemini,
    /// The offline encyclopedia mirror.
    Wikipedia,
}

/// The provider that a token names: `gemini` or `wikipedia` in any ASCII case, and the
/// hosted chat service for anything else or for no token.
pub open spec fn provider_for(token: Option<Seq<char>>) -> Provider {
    match token {
        Some(t) => if eq_ignore_ascii_case(t, "gemini"@) {
            Provider::Gemini
        } else if eq_ignore_ascii_case(t, "wikipedia"@) {
            Provider::Wikipedia
        } else {
            Provider::OpenAi
        },
        None => Provider::OpenAi,
    }
}

/// The name under which a provider reports its answers.
pub open spec fn label_of(p: Provider) -> Seq<char> {
    match p {
        Provider::OpenAi => "openai"@,
        Provider::Gemini => "gemini"@,
        Provider::Wikipedia => "wikipedia"@,
    }
}

impl Provider {
    /// Resolves an optional token to a provider; never fails.
    pub fn from_option(input: Option<String>) -> (r: Provider)
        ensures
            r == provider_for(input.deep_view()),
    {
        match input {
            Some(value) => {
                if same_ignoring_ascii_case(value.as_str(), "gemini") {
                    Provider::Gemini
                } else if same_ignoring_ascii_case(value.as_str(), "wikipedia") {
                    Provider::Wikipedia
                } else {
                    Provider::OpenAi
                }
            },
            None => Provider::OpenAi,
        }
    }

    /// The provider's name, as answers report it.
    pub fn label(&self) -> (r: &'static str)
        ensures
            r@ == label_of(*self),
    {
        match self {
            Provider::OpenAi => "openai",
            Provider::Gemini => "gemini",
            Provider::Wikipedia => "wikipedia",
        }
    }
}

proof fn lemma_ascii_case_trans(a: Seq<char>, b: Seq<char>, c: Seq<char>)
    requires
        eq_ignore_ascii_case(a, b),
    ensures
        eq_ignore_ascii_case(a, c) == eq_ignore_ascii_case(b, c),
{
    if eq_ignore_ascii_case(a, c) {
        assert forall|i: int| 0 <= i < b.len() implies ascii_fold(#[trigger] b[i]) == ascii_fold(
            c[i],
        ) by {
            assert(ascii_fold(a[i]) == ascii_fold(b[i]));
        }
    }
    if eq_ignore_ascii_case(b, c) {
        assert forall|i: int| 0 <= i < a.len() implies ascii_fold(#[trigger] a[i]) == ascii_fold(
            c[i],
        ) by {
            assert(ascii_fold(a[i]) == ascii_fold(b[i]));
        }
    }
}

/// Resolution is total and ignores ASCII case: two tokens that differ only in the case of
/// their letters name the same provider; a token that matches neither `gemini` nor
/// `wikipedia`, and the absence of a token, give the hosted chat service.
pub proof fn lemma_resolution_ignores_case(a: Seq<char>, b: Seq<char>)
    requires
        eq_ignore_ascii_case(a, b),
    ensures
        provider_for(Some(a)) == provider_for(Some(b)),
        eq_ignore_ascii_case(a, "gemini"@) ==> provider_for(Some(a)) == Provider::Gemini,
        eq_ignore_ascii_case(a, "wikipedia"@) ==> provider_for(Some(a)) == Provider::Wikipedia,
        !eq_ignore_ascii_case(a, "gemini"@) && !eq_ignore_ascii_case(a, "wikipedia"@)
            ==> provider_for(Some(a)) == Provider::OpenAi,
        provider_for(None) == Provider::OpenAi,
{
    reveal_strlit("gemini");
    reveal_strlit("wikipedia");
    lemma_ascii_case_trans(a, b, "gemini"@);
    lemma_ascii_case_trans(a, b, "wikipedia"@);
}

} // verus!
