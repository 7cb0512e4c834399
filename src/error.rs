use vstd::prelude::*;

use crate::provider::Provider;

verus! {

/// The network exchange that a transport or status failure belongs to.
#[derive(Clone, Copy, Debug, PartialEq, Eq, Structural)]
pub enum Phase {
    /// The call to a chat or generative-AI service.
    Answer,
    /// The encyclopedia's search page.
    Search,
    /// The encyclopedia's article page.
    Article,
}

/// Why a request produced no answer. Every failure ends the request; none is retried.
#[derive(Clone, Debug)]
pub enum OverlayError {
    /// The provider needs a credential and none is configured; raised before any call.
    MissingCredential(Provider),
    /// The connection failed, or the reply could not be read; the transport's message.
    Transport(Phase, String),
    /// The service answered with a status outside 200..=299.
    HttpStatus(Phase, u16),
    /// The reply is not JSON; the parser's message.
    MalformedResponse(String),
    /// The reply is JSON but the answer is not where it belongs; the whole reply.
    UnexpectedShape(String),
    /// The answer is there but blank.
    EmptyAnswer,
    /// The search page links to no article.
    NoSearchHit,
    /// The article page holds no text.
    EmptyArticle,
}

/// An `OverlayError` with its strings as sequences of characters.
pub enum Failure {
    MissingCredential(Provider),
    Transport(Phase, Seq<char>),
    HttpStatus(Phase, u16),
    MalformedResponse(Seq<char>),
    UnexpectedShape(Seq<char>),
    EmptyAnswer,
    NoSearchHit,
    EmptyArticle,
}

impl View for OverlayError {
    type V = Failure;

    open spec fn view(&self) -> Failure {
        match self {
            OverlayError::MissingCredential(p) => Failure::MissingCredential(*p),
            OverlayError::Transport(phase, m) => Failure::Transport(*phase, m@),
            OverlayError::HttpStatus(phase, s) => Failure::HttpStatus(*phase, *s),
            OverlayError::MalformedResponse(m) => Failure::MalformedResponse(m@),
            OverlayError::UnexpectedShape(b) => Failure::UnexpectedShape(b@),
            OverlayError::EmptyAnswer => Failure::EmptyAnswer,
            OverlayError::NoSearchHit => Failure::NoSearchHit,
            OverlayError::EmptyArticle => Failure::EmptyArticle,
        }
    }
}

/// A text result with its strings as sequences of characters.
pub open spec fn text_result(r: Result<String, OverlayError>) -> Result<Seq<char>, Failure> {
    match r {
        Ok(s) => Ok(s@),
        Err(e) => Err(e@),
    }
}

} // verus!
