use vstd::prelude::*;

use crate::error::{text_result, Failure, OverlayError, Phase};
use crate::html::{html_to_text, page_text};
use crate::json::{
    gemini_answer, gemini_body, gemini_body_text, openai_answer, openai_body, openai_body_text,
    read_gemini_reply, read_openai_reply,
};
use crate::provider::{
    label_of, provider_for, Provider, DEFAULT_GEMINI_MODEL, DEFAULT_OPENAI_MODEL,
    DEFAULT_WIKIPEDIA_MODEL,
};
use crate::search::{extract_content_path, first_hit};
use crate::text::{eq_ignore_ascii_case, same_ignoring_ascii_case, trim, trimmed};

verus! {

/// The instruction sent with every question when none is configured.
pub const DEFAULT_PROMPT: &'static str =
    "Answer concisely based on the user's selected text. \
 If the text is a question, provide a clear and direct answer with one or few sentences. \
 If the text is a word or phrase, give a brief definition or explanation. \
 If the text is a code snippet, explain its purpose in simple terms.";

/// What a request answers with: the text, the provider's label and the model.
#[derive(Clone, Debug)]
pub struct OverlayResponse {
    pub text: String,
    pub provider: String,
    pub model: String,
}

pub struct ResponseView {
    pub text: Seq<char>,
    pub provider: Seq<char>,
    pub model: Seq<char>,
}

impl View for OverlayResponse {
    type V = ResponseView;

    open spec fn view(&self) -> ResponseView {
        ResponseView { text: self.text@, provider: self.provider@, model: self.model@ }
    }
}

/// The settings of one request, read afresh for each: credentials, model overrides, the
/// instruction, and whether the generative-AI service may search. `None` where unset.
#[derive(Clone, Debug)]
pub struct RequestConfig {
    pub openai_api_key: Option<String>,
    pub openai_model: Option<String>,
    pub gemini_api_key: Option<String>,
    pub gemini_api_token: Option<String>,
    pub gemini_model: Option<String>,
    pub gemini_search: Option<String>,
    pub prompt: Option<String>,
}

/// The model that a provider is asked for under `config`.
pub open spec fn model_for(p: Provider, config: RequestConfig) -> Seq<char> {
    match p {
        Provider::OpenAi => match config.openai_model {
            Some(m) => m@,
            None => DEFAULT_OPENAI_MODEL@,
        },
        Provider::Gemini => match config.gemini_model {
            Some(m) => m@,
            None => DEFAULT_GEMINI_MODEL@,
        },
        Provider::Wikipedia => DEFAULT_WIKIPEDIA_MODEL@,
    }
}

/// The instruction sent with the question under `config`.
pub open spec fn prompt_for(config: RequestConfig) -> Seq<char> {
    match config.prompt {
        Some(p) => p@,
        None => DEFAULT_PROMPT@,
    }
}

/// The generative-AI service may search unless the setting is `0` or `false`, in any case.
pub open spec fn search_allowed(config: RequestConfig) -> bool {
    match config.gemini_search {
        Some(v) => !eq_ignore_ascii_case(v@, "0"@) && !eq_ignore_ascii_case(v@, "false"@),
        None => true,
    }
}

#[derive(Clone, Copy, Debug, PartialEq, Eq, Structural)]
pub enum Method {
    Get,
    Post,
}

/// A request for the caller to send. The query pairs are to be URL-encoded onto `url`; the
/// bearer credential goes in an `Authorization` header; the body is JSON.
#[derive(Clone, Debug)]
pub struct HttpRequest {
    pub method: Method,
    pub url: String,
    pub query: Vec<(String, String)>,
    pub bearer: Option<String>,
    pub body: Option<String>,
}

pub struct RequestView {
    pub method: Method,
    pub url: Seq<char>,
    pub query: Seq<(Seq<char>, Seq<char>)>,
    pub bearer: Option<Seq<char>>,
    pub body: Option<Seq<char>>,
}

impl View for HttpRequest {
    type V = RequestView;

    open spec fn view(&self) -> RequestView {
        RequestView {
            method: self.method,
            url: self.url@,
            query: self.query.deep_view(),
            bearer: self.bearer.deep_view(),
            body: self.body.deep_view(),
        }
    }
}

/// How a sent request came back: the transport's message where it failed, else the
/// status and the body.
#[derive(Clone, Debug)]
pub enum HttpOutcome {
    Failed(String),
    Replied(u16, String),
}

/// Which reply a request waits for.
#[derive(Clone, Copy, Debug, PartialEq, Eq, Structural)]
pub enum Stage {
    OpenAiReply,
    GeminiReply,
    SearchPage,
    ArticlePage,
}

pub open spec fn stage_provider(s: Stage) -> Provider {
    match s {
        Stage::OpenAiReply => Provider::OpenAi,
        Stage::GeminiReply => Provider::Gemini,
        _ => Provider::Wikipedia,
    }
}

pub open spec fn stage_phase(s: Stage) -> Phase {
    match s {
        Stage::SearchPage => Phase::Search,
        Stage::ArticlePage => Phase::Article,
        _ => Phase::Answer,
    }
}

/// A request under way: the reply it waits for and the model it reports.
#[derive(Clone, Debug)]
pub struct Session {
    pub stage: Stage,
    pub model: String,
}

pub struct SessionView {
    pub stage: Stage,
    pub model: Seq<char>,
}

impl View for Session {
    type V = SessionView;

    open spec fn view(&self) -> SessionView {
        SessionView { stage: self.stage, model: self.model@ }
    }
}

/// What the caller does next: report the result, or send a request and hand its outcome
/// back with the session.
#[derive(Debug)]
pub enum Step {
    Done(Result<OverlayResponse, OverlayError>),
    Fetch(Session, HttpRequest),
}

pub enum StepView {
    Done(Result<ResponseView, Failure>),
    Fetch(SessionView, RequestView),
}

impl View for Step {
    type V = StepView;

    open spec fn view(&self) -> StepView {
        match self {
            Step::Done(Ok(r)) => StepView::Done(Ok(r@)),
            Step::Done(Err(e)) => StepView::Done(Err(e@)),
            Step::Fetch(s, q) => StepView::Fetch(s@, q@),
        }
    }
}

/// The step that reports `text` as the answer of `provider` under `model`.
pub open spec fn answered(text: Seq<char>, provider: Provider, model: Seq<char>) -> StepView {
    StepView::Done(Ok(ResponseView { text, provider: label_of(provider), model }))
}

/// The step that reports a text result: the answer, or the failure.
pub open spec fn finished(r: Result<Seq<char>, Failure>, provider: Provider, model: Seq<char>) -> StepView {
    match r {
        Ok(text) => answered(text, provider, model),
        Err(f) => StepView::Done(Err(f)),
    }
}

/// The first step of a request for `selection` to provider `p`. A blank selection is
/// answered with `(empty)` at once; otherwise a missing credential fails before any call,
/// and else the provider's first request goes out.
pub open spec fn opening(p: Provider, selection: Seq<char>, config: RequestConfig) -> StepView {
    let model = model_for(p, config);
    if trim(selection).len() == 0 {
        answered("(empty)"@, p, model)
    } else {
        match p {
            Provider::OpenAi => match config.openai_api_key {
                Some(key) => StepView::Fetch(
                    SessionView { stage: Stage::OpenAiReply, model },
                    RequestView {
                        method: Method::Post,
                        url: "https://api.openai.com/v1/chat/completions"@,
                        query: Seq::empty(),
                        bearer: Some(key@),
                        body: Some(openai_body_text(model, prompt_for(config), selection)),
                    },
                ),
                None => StepView::Done(Err(Failure::MissingCredential(Provider::OpenAi))),
            },
            Provider::Gemini => {
                let url = "https://generativelanguage.googleapis.com/v1beta/models/"@ + model
                    + ":generateContent"@;
                let body = Some(
                    gemini_body_text(prompt_for(config), selection, search_allowed(config)),
                );
                let session = SessionView { stage: Stage::GeminiReply, model };
                match (config.gemini_api_token, config.gemini_api_key) {
                    (Some(token), _) => StepView::Fetch(
                        session,
                        RequestView {
                            method: Method::Post,
                            url,
                            query: Seq::empty(),
                            bearer: Some(token@),
                            body,
                        },
                    ),
                    (None, Some(key)) => StepView::Fetch(
                        session,
                        RequestView {
                            method: Method::Post,
                            url,
                            query: seq![("key"@, key@)],
                            bearer: None,
                            body,
                        },
                    ),
                    (None, None) => StepView::Done(
                        Err(Failure::MissingCredential(Provider::Gemini)),
                    ),
                }
            },
            Provider::Wikipedia => StepView::Fetch(
                SessionView { stage: Stage::SearchPage, model },
                RequestView {
                    method: Method::Get,
                    url: "http://localhost:8080/search"@,
                    query: seq![("pattern"@, selection)],
                    bearer: None,
                    body: None,
                },
            ),
        }
    }
}

/// The step after the reply that `session` waited for came back as `outcome`.
pub open spec fn following(session: SessionView, outcome: HttpOutcome) -> StepView {
    let phase = stage_phase(session.stage);
    let provider = stage_provider(session.stage);
    match outcome {
        HttpOutcome::Failed(m) => StepView::Done(Err(Failure::Transport(phase, m@))),
        HttpOutcome::Replied(status, body) => if !(200 <= status <= 299) {
            StepView::Done(Err(Failure::HttpStatus(phase, status)))
        } else {
            match session.stage {
                Stage::OpenAiReply => finished(openai_answer(body@), provider, session.model),
                Stage::GeminiReply => finished(gemini_answer(body@), provider, session.model),
                Stage::SearchPage => match first_hit(body@) {
                    Some(path) => StepView::Fetch(
                        SessionView { stage: Stage::ArticlePage, model: session.model },
                        RequestView {
                            method: Method::Get,
                            url: "http://localhost:8080/"@ + path,
                            query: Seq::empty(),
                            bearer: None,
                            body: None,
                        },
                    ),
                    None => StepView::Done(Err(Failure::NoSearchHit)),
                },
                Stage::ArticlePage => if page_text(body@).len() == 0 {
                    StepView::Done(Err(Failure::EmptyArticle))
                } else {
                    answered(page_text(body@), provider, session.model)
                },
            }
        },
    }
}

/// A blank selection is answered at once with `(empty)`, under the label and the model of
/// the provider that the token names, and no request is sent.
pub proof fn lemma_blank_selection_needs_no_request(
    token: Option<Seq<char>>,
    selection: Seq<char>,
    config: RequestConfig,
)
    requires
        trim(selection).len() == 0,
    ensures
        opening(provider_for(token), selection, config) == answered(
            "(empty)"@,
            provider_for(token),
            model_for(provider_for(token), config),
        ),
        !(opening(provider_for(token), selection, config) is Fetch),
{
}

fn model_of(p: Provider, config: &RequestConfig) -> (r: String)
    ensures
        r@ == model_for(p, *config),
{
    match p {
        Provider::OpenAi => match &config.openai_model {
            Some(m) => m.clone(),
            None => DEFAULT_OPENAI_MODEL.to_string(),
        },
        Provider::Gemini => match &config.gemini_model {
            Some(m) => m.clone(),
            None => DEFAULT_GEMINI_MODEL.to_string(),
        },
        Provider::Wikipedia => DEFAULT_WIKIPEDIA_MODEL.to_string(),
    }
}

fn prompt_of(config: &RequestConfig) -> (r: String)
    ensures
        r@ == prompt_for(*config),
{
    match &config.prompt {
        Some(p) => p.clone(),
        None => DEFAULT_PROMPT.to_string(),
    }
}

fn search_setting(config: &RequestConfig) -> (r: bool)
    ensures
        r == search_allowed(*config),
{
    match &config.gemini_search {
        Some(v) => !same_ignoring_ascii_case(v.as_str(), "0") && !same_ignoring_ascii_case(
            v.as_str(),
            "false",
        ),
        None => true,
    }
}

fn answer(text: String, provider: Provider, model: String) -> (r: Step)
    ensures
        r@ == answered(text@, provider, model@),
{
    Step::Done(
        Ok(OverlayResponse { text, provider: provider.label().to_string(), model }),
    )
}

fn finish(r: Result<String, OverlayError>, provider: Provider, model: String) -> (s: Step)
    ensures
        s@ == finished(text_result(r), provider, model@),
{
    match r {
        Ok(text) => answer(text, provider, model),
        Err(e) => Step::Done(Err(e)),
    }
}

/// Starts a request: resolves the provider from `token`, and either finishes at once or
/// hands back the first request to send.
pub fn begin(token: Option<String>, selection: &str, config: &RequestConfig) -> (r: Step)
    ensures
        r@ == opening(provider_for(token.deep_view()), selection@, *config),
{
    let p = Provider::from_option(token);
    let model = model_of(p, config);
    if trimmed(selection).as_str().is_empty() {
        return answer("(empty)".to_string(), p, model);
    }
    match p {
        Provider::OpenAi => match &config.openai_api_key {
            Some(key) => {
                let body = openai_body(model.as_str(), prompt_of(config).as_str(), selection);
                Step::Fetch(
                    Session { stage: Stage::OpenAiReply, model },
                    HttpRequest {
                        method: Method::Post,
                        url: "https://api.openai.com/v1/chat/completions".to_string(),
                        query: no_query(),
                        bearer: Some(key.clone()),
                        body: Some(body),
                    },
                )
            },
            None => Step::Done(Err(OverlayError::MissingCredential(Provider::OpenAi))),
        },
        Provider::Gemini => {
            let mut url = "https://generativelanguage.googleapis.com/v1beta/models/".to_string();
            url.append(model.as_str());
            url.append(":generateContent");
            let body = gemini_body(prompt_of(config).as_str(), selection, search_setting(config));
            match (&config.gemini_api_token, &config.gemini_api_key) {
                (Some(token), _) => Step::Fetch(
                    Session { stage: Stage::GeminiReply, model },
                    HttpRequest {
                        method: Method::Post,
                        url,
                        query: no_query(),
                        bearer: Some(token.clone()),
                        body: Some(body),
                    },
                ),
                (None, Some(key)) => {
                    let query = vec![("key".to_string(), key.clone())];
                    assert(query.deep_view() =~= seq![("key"@, key@)]);
                    Step::Fetch(
                        Session { stage: Stage::GeminiReply, model },
                        HttpRequest {
                            method: Method::Post,
                            url,
                            query,
                            bearer: None,
                            body: Some(body),
                        },
                    )
                },
                (None, None) => Step::Done(Err(OverlayError::MissingCredential(Provider::Gemini))),
            }
        },
        Provider::Wikipedia => {
            let query = vec![("pattern".to_string(), selection.to_string())];
            assert(query.deep_view() =~= seq![("pattern"@, selection@)]);
            Step::Fetch(
                Session { stage: Stage::SearchPage, model },
                HttpRequest {
                    method: Method::Get,
                    url: "http://localhost:8080/search".to_string(),
                    query,
                    bearer: None,
                    body: None,
                },
            )
        },
    }
}

fn no_query() -> (r: Vec<(String, String)>)
    ensures
        r.deep_view() == Seq::<(Seq<char>, Seq<char>)>::empty(),
{
    let r: Vec<(String, String)> = Vec::new();
    assert(r.deep_view() =~= Seq::<(Seq<char>, Seq<char>)>::empty());
    r
}

fn phase_of(s: Stage) -> (r: Phase)
    ensures
        r == stage_phase(s),
{
    match s {
        Stage::SearchPage => Phase::Search,
        Stage::ArticlePage => Phase::Article,
        _ => Phase::Answer,
    }
}

/// Takes the outcome of the request that `session` waited for, and either finishes or
/// hands back the next request to send.
pub fn advance(session: Session, outcome: HttpOutcome) -> (r: Step)
    ensures
        r@ == following(session@, outcome),
{
    let phase = phase_of(session.stage);
    match outcome {
        HttpOutcome::Failed(m) => Step::Done(Err(OverlayError::Transport(phase, m))),
        HttpOutcome::Replied(status, body) => {
            if !(200 <= status && status <= 299) {
                return Step::Done(Err(OverlayError::HttpStatus(phase, status)));
            }
            match session.stage {
                Stage::OpenAiReply => finish(
                    read_openai_reply(body.as_str()),
                    Provider::OpenAi,
                    session.model,
                ),
                Stage::GeminiReply => finish(
                    read_gemini_reply(body.as_str()),
                    Provider::Gemini,
                    session.model,
                ),
                Stage::SearchPage => match extract_content_path(body.as_str()) {
                    Some(path) => {
                        let mut url = "http://localhost:8080/".to_string();
                        url.append(path.as_str());
                        Step::Fetch(
                            Session { stage: Stage::ArticlePage, model: session.model },
                            HttpRequest {
                                method: Method::Get,
                                url,
                                query: no_query(),
                                bearer: None,
                                body: None,
                            },
                        )
                    },
                    None => Step::Done(Err(OverlayError::NoSearchHit)),
                },
                Stage::ArticlePage => {
                    let text = html_to_text(body.as_str());
                    if text.as_str().is_empty() {
                        Step::Done(Err(OverlayError::EmptyArticle))
                    } else {
                        answer(text, Provider::Wikipedia, session.model)
                    }
                },
            }
        },
    }
}

} // verus!
