use overlay::config::{merge_with_defaults, AppConfig, RawAppearance, RawConfig, RawWindow};
use overlay::error::{OverlayError, Phase};
use overlay::html::{html_to_text, node_line, summary_lines};
use overlay::json::{gemini_body, openai_body, read_gemini_reply, read_openai_reply};
use overlay::provider::{Provider, DEFAULT_GEMINI_MODEL, DEFAULT_OPENAI_MODEL};
use overlay::search::extract_content_path;
use overlay::selection::fetch_selection;
use overlay::session::{advance, begin, HttpOutcome, Method, RequestConfig, Session, Stage, Step};
use overlay::text::{collapse_chars, join_strings, same_ignoring_ascii_case, trimmed};

fn empty_config() -> RequestConfig {
    RequestConfig {
        openai_api_key: None,
        openai_model: None,
        gemini_api_key: None,
        gemini_api_token: None,
        gemini_model: None,
        gemini_search: None,
        prompt: None,
    }
}

fn strings(items: &[&str]) -> Vec<String> {
    items.iter().map(|s| s.to_string()).collect()
}

#[test]
fn parses_first_content_link_from_search_html() {
    let sample = r#"
        <html>
          <body>
            <div class="results">
              <ul>
                <li>
                  <a href="/content/wikipedia_en_100_mini_2025-10/Bird">Bird</a>
                </li>
                <li>
                  <a href="/content/wikipedia_en_100_mini_2025-10/Other">Other</a>
                </li>
              </ul>
            </div>
          </body>
        </html>
        "#;

    let path = extract_content_path(sample).expect("expected first link");
    assert_eq!(path, "content/wikipedia_en_100_mini_2025-10/Bird");
}

#[test]
fn returns_none_when_no_links_found() {
    let sample = "<html><body><p>No results</p></body></html>";
    assert!(extract_content_path(sample).is_none());
}

#[test]
fn strips_html_and_normalizes_whitespace() {
    let sample = r#"
        <html>
          <body>
            <h1>Bird</h1>
            <p>Birds are warm-blooded <b>animals</b>.</p>
          </body>
        </html>
        "#;

    let text = html_to_text(sample);
    assert!(text.contains("Bird"));
    assert!(text.contains("Birds are warm-blooded animals."));
    assert!(!text.contains('<'));
}

#[test]
fn heading_and_paragraph_are_joined_by_a_blank_line() {
    let text = html_to_text("<html><body><h1> Bird </h1><p>Birds   are\n animals.</p></body></html>");
    assert_eq!(text, "Bird\n\nBirds are animals.");
    assert!(!text.contains('<') && !text.contains('>'));
}

#[test]
fn page_without_heading_or_paragraph_falls_back_to_all_text() {
    let text = html_to_text("<html><body><div>Only\n\n  a   div</div><span>here</span></body></html>");
    assert_eq!(text, "Only a divhere");
}

#[test]
fn only_first_four_paragraphs_are_kept() {
    let text = html_to_text(
        "<html><body><p>one</p><p>  </p><p>two</p><p>three</p><p>four</p></body></html>",
    );
    assert_eq!(text, "one\n\ntwo\n\nthree");
}

#[test]
fn summary_lines_skip_blank_elements() {
    let headings = vec![strings(&["  "])];
    let paragraphs = vec![strings(&["a", " b "]), strings(&[]), strings(&["c"])];
    assert_eq!(summary_lines(&headings, &paragraphs), strings(&["a b", "c"]));
}

#[test]
fn node_line_joins_and_collapses() {
    assert_eq!(node_line(&strings(&["Birds are ", "warm", "\tblooded"])), "Birds are warm blooded");
    assert_eq!(node_line(&strings(&[])), "");
}

#[test]
fn empty_article_page_gives_empty_text() {
    assert_eq!(html_to_text(""), "");
}

#[test]
fn resources_link_is_used_when_no_content_link() {
    let page = r#"<a href="/resources/x/y.png">img</a>"#;
    assert_eq!(extract_content_path(page), Some("resources/x/y.png".to_string()));
}

#[test]
fn content_link_wins_over_earlier_resources_link() {
    let page = r#"<a href="/resources/a">r</a><a href="/content/b">c</a>"#;
    assert_eq!(extract_content_path(page), Some("content/b".to_string()));
}

#[test]
fn unclosed_content_link_gives_way_to_resources() {
    let page = r#"<a href="/resources/r">r</a><a href="/content/open"#;
    assert_eq!(extract_content_path(page), Some("resources/r".to_string()));
}

#[test]
fn provider_tokens_ignore_case() {
    for t in ["GEMINI", "Gemini", "gemini"] {
        assert_eq!(Provider::from_option(Some(t.to_string())), Provider::Gemini);
    }
    for t in ["WIKIPEDIA", "WikiPedia"] {
        assert_eq!(Provider::from_option(Some(t.to_string())), Provider::Wikipedia);
    }
    for t in ["", "openai", "gemin", "geminis", "wiki"] {
        assert_eq!(Provider::from_option(Some(t.to_string())), Provider::OpenAi);
    }
    assert_eq!(Provider::from_option(None), Provider::OpenAi);
}

#[test]
fn provider_labels() {
    assert_eq!(Provider::OpenAi.label(), "openai");
    assert_eq!(Provider::Gemini.label(), "gemini");
    assert_eq!(Provider::Wikipedia.label(), "wikipedia");
}

#[test]
fn ascii_case_comparison() {
    assert!(same_ignoring_ascii_case("GeMiNi", "gemini"));
    assert!(!same_ignoring_ascii_case("gemini", "gemin"));
    assert!(!same_ignoring_ascii_case("é", "É"));
}

#[test]
fn trimming_and_collapsing() {
    assert_eq!(trimmed("  \t bird \n"), "bird");
    assert_eq!(trimmed(" \u{3000} "), "");
    let v: Vec<char> = "  a \n\n b\u{a0}c  ".chars().collect();
    let c: String = collapse_chars(&v).into_iter().collect();
    assert_eq!(c, "a b c");
    assert_eq!(join_strings(&strings(&["x", "y", "z"]), "\n\n"), "x\n\ny\n\nz");
}

#[test]
fn blank_selection_answers_empty_for_every_provider() {
    for (token, label, model) in [
        (None, "openai", DEFAULT_OPENAI_MODEL),
        (Some("gemini"), "gemini", DEFAULT_GEMINI_MODEL),
        (Some("wikipedia"), "wikipedia", "kiwix-wikipedia"),
    ] {
        for selection in ["", "   ", "\n\t"] {
            match begin(token.map(String::from), selection, &empty_config()) {
                Step::Done(Ok(r)) => {
                    assert_eq!(r.text, "(empty)");
                    assert_eq!(r.provider, label);
                    assert_eq!(r.model, model);
                }
                other => panic!("unexpected step {:?}", other),
            }
        }
    }
}

#[test]
fn blank_selection_reports_configured_model() {
    let mut config = empty_config();
    config.openai_model = Some("gpt-test".to_string());
    match begin(None, " ", &config) {
        Step::Done(Ok(r)) => assert_eq!(r.model, "gpt-test"),
        other => panic!("unexpected step {:?}", other),
    }
}

#[test]
fn scenario_openai_answers_bird() {
    let mut config = empty_config();
    config.openai_api_key = Some("sk-test".to_string());
    let (session, request) = match begin(None, "bird", &config) {
        Step::Fetch(s, r) => (s, r),
        other => panic!("unexpected step {:?}", other),
    };
    assert_eq!(request.method, Method::Post);
    assert_eq!(request.url, "https://api.openai.com/v1/chat/completions");
    assert_eq!(request.bearer.as_deref(), Some("sk-test"));
    let body: serde_json::Value = serde_json::from_str(request.body.as_deref().unwrap()).unwrap();
    assert_eq!(body["messages"][1]["content"], "bird");
    assert_eq!(body["messages"][1]["role"], "user");
    assert_eq!(body["messages"][0]["role"], "system");
    assert_eq!(body["model"], DEFAULT_OPENAI_MODEL);

    let reply = r#"{"choices":[{"message":{"content":"A bird is an animal."}}]}"#;
    match advance(session, HttpOutcome::Replied(200, reply.to_string())) {
        Step::Done(Ok(r)) => {
            assert_eq!(r.text, "A bird is an animal.");
            assert_eq!(r.provider, "openai");
            assert_eq!(r.model, "gpt-5-mini");
        }
        other => panic!("unexpected step {:?}", other),
    }
}

#[test]
fn scenario_wikipedia_answers_bird() {
    let (session, request) = match begin(Some("wikipedia".to_string()), "bird", &empty_config()) {
        Step::Fetch(s, r) => (s, r),
        other => panic!("unexpected step {:?}", other),
    };
    assert_eq!(request.method, Method::Get);
    assert_eq!(request.url, "http://localhost:8080/search");
    assert_eq!(request.query, vec![("pattern".to_string(), "bird".to_string())]);

    let search = r#"<html><body><a href="/content/demo/Bird">Bird</a></body></html>"#;
    let (session, request) = match advance(session, HttpOutcome::Replied(200, search.to_string())) {
        Step::Fetch(s, r) => (s, r),
        other => panic!("unexpected step {:?}", other),
    };
    assert_eq!(request.url, "http://localhost:8080/content/demo/Bird");

    let article = "<html><body><h1>Bird</h1><p>Birds are animals.</p></body></html>";
    match advance(session, HttpOutcome::Replied(200, article.to_string())) {
        Step::Done(Ok(r)) => {
            assert_eq!(r.text, "Bird\n\nBirds are animals.");
            assert_eq!(r.provider, "wikipedia");
            assert_eq!(r.model, "kiwix-wikipedia");
        }
        other => panic!("unexpected step {:?}", other),
    }
}

#[test]
fn scenario_gemini_without_credential_fails_before_any_request() {
    match begin(Some("gemini".to_string()), "bird", &empty_config()) {
        Step::Done(Err(OverlayError::MissingCredential(Provider::Gemini))) => {}
        other => panic!("unexpected step {:?}", other),
    }
}

#[test]
fn openai_without_key_fails_before_any_request() {
    match begin(None, "bird", &empty_config()) {
        Step::Done(Err(OverlayError::MissingCredential(Provider::OpenAi))) => {}
        other => panic!("unexpected step {:?}", other),
    }
}

#[test]
fn gemini_token_is_sent_as_bearer() {
    let mut config = empty_config();
    config.gemini_api_token = Some("tok".to_string());
    config.gemini_api_key = Some("key".to_string());
    match begin(Some("Gemini".to_string()), "bird", &config) {
        Step::Fetch(s, r) => {
            assert_eq!(s.stage, Stage::GeminiReply);
            assert_eq!(
                r.url,
                "https://generativelanguage.googleapis.com/v1beta/models/gemini-2.5-flash:generateContent"
            );
            assert_eq!(r.bearer.as_deref(), Some("tok"));
            assert!(r.query.is_empty());
        }
        other => panic!("unexpected step {:?}", other),
    }
}

#[test]
fn gemini_key_is_sent_as_query() {
    let mut config = empty_config();
    config.gemini_api_key = Some("key".to_string());
    config.gemini_model = Some("gemini-x".to_string());
    match begin(Some("gemini".to_string()), "bird", &config) {
        Step::Fetch(s, r) => {
            assert_eq!(s.model, "gemini-x");
            assert!(r.url.ends_with("/models/gemini-x:generateContent"));
            assert_eq!(r.bearer, None);
            assert_eq!(r.query, vec![("key".to_string(), "key".to_string())]);
            let body: serde_json::Value = serde_json::from_str(r.body.as_deref().unwrap()).unwrap();
            assert_eq!(body["contents"][0]["parts"][0]["text"], "bird");
            assert!(body["tools"][0].get("google_search").is_some());
        }
        other => panic!("unexpected step {:?}", other),
    }
}

#[test]
fn gemini_search_can_be_switched_off() {
    let body = gemini_body("p", "s", false);
    let v: serde_json::Value = serde_json::from_str(&body).unwrap();
    assert!(v.get("tools").is_none());
    assert_eq!(v["systemInstruction"]["parts"][0]["text"], "p");

    let mut config = empty_config();
    config.gemini_api_key = Some("key".to_string());
    config.gemini_search = Some("FALSE".to_string());
    match begin(Some("gemini".to_string()), "bird", &config) {
        Step::Fetch(_, r) => {
            let v: serde_json::Value = serde_json::from_str(r.body.as_deref().unwrap()).unwrap();
            assert!(v.get("tools").is_none());
        }
        other => panic!("unexpected step {:?}", other),
    }
}

#[test]
fn request_bodies_escape_strings() {
    let body = openai_body("m", "say \"hi\"", "a\nb");
    let v: serde_json::Value = serde_json::from_str(&body).unwrap();
    assert_eq!(v["messages"][0]["content"], "say \"hi\"");
    assert_eq!(v["messages"][1]["content"], "a\nb");
    assert_eq!(
        body,
        r#"{"model":"m","messages":[{"role":"system","content":"say \"hi\""},{"role":"user","content":"a\nb"}]}"#
    );
}

#[test]
fn openai_reply_is_trimmed() {
    let r = read_openai_reply(r#"{"choices":[{"message":{"content":"  hi  "}}]}"#);
    assert_eq!(r.unwrap(), "hi");
}

#[test]
fn openai_blank_reply_is_empty_answer() {
    let r = read_openai_reply(r#"{"choices":[{"message":{"content":"   "}}]}"#);
    assert!(matches!(r, Err(OverlayError::EmptyAnswer)));
}

#[test]
fn openai_other_shape_is_unexpected() {
    let body = r#"{"error":"nope"}"#;
    match read_openai_reply(body) {
        Err(OverlayError::UnexpectedShape(b)) => assert_eq!(b, body),
        other => panic!("unexpected result {:?}", other),
    }
}

#[test]
fn reply_that_is_not_json_is_malformed() {
    assert!(matches!(read_openai_reply("not json"), Err(OverlayError::MalformedResponse(_))));
    assert!(matches!(read_gemini_reply("{"), Err(OverlayError::MalformedResponse(_))));
}

#[test]
fn gemini_reply_from_candidates_and_fallback() {
    let main = r#"{"candidates":[{"content":{"parts":[{"text":" A bird. "}]}}]}"#;
    assert_eq!(read_gemini_reply(main).unwrap(), "A bird.");
    let other = r#"{"response":{"text":"From fallback"}}"#;
    assert_eq!(read_gemini_reply(other).unwrap(), "From fallback");
    assert!(matches!(read_gemini_reply(r#"{"x":1}"#), Err(OverlayError::UnexpectedShape(_))));
    let blank = r#"{"candidates":[{"content":{"parts":[{"text":""}]}}]}"#;
    assert!(matches!(read_gemini_reply(blank), Err(OverlayError::EmptyAnswer)));
}

#[test]
fn failures_of_the_exchange() {
    let answer = || Session { stage: Stage::OpenAiReply, model: "m".to_string() };
    match advance(answer(), HttpOutcome::Failed("refused".to_string())) {
        Step::Done(Err(OverlayError::Transport(Phase::Answer, m))) => assert_eq!(m, "refused"),
        other => panic!("unexpected step {:?}", other),
    }
    match advance(answer(), HttpOutcome::Replied(500, "{}".to_string())) {
        Step::Done(Err(OverlayError::HttpStatus(Phase::Answer, 500))) => {}
        other => panic!("unexpected step {:?}", other),
    }
    let search = Session { stage: Stage::SearchPage, model: "m".to_string() };
    match advance(search, HttpOutcome::Replied(200, "<p>No results</p>".to_string())) {
        Step::Done(Err(OverlayError::NoSearchHit)) => {}
        other => panic!("unexpected step {:?}", other),
    }
    let article = Session { stage: Stage::ArticlePage, model: "m".to_string() };
    match advance(article, HttpOutcome::Replied(200, "<html><body> </body></html>".to_string())) {
        Step::Done(Err(OverlayError::EmptyArticle)) => {}
        other => panic!("unexpected step {:?}", other),
    }
    let article = Session { stage: Stage::ArticlePage, model: "m".to_string() };
    match advance(article, HttpOutcome::Replied(404, String::new())) {
        Step::Done(Err(OverlayError::HttpStatus(Phase::Article, 404))) => {}
        other => panic!("unexpected step {:?}", other),
    }
}

#[test]
fn selection_prefers_primary_then_clipboard() {
    assert_eq!(fetch_selection(Some(" bird \n".to_string()), Some("cat".to_string())), "bird");
    assert_eq!(fetch_selection(Some("  ".to_string()), Some(" cat ".to_string())), "cat");
    assert_eq!(fetch_selection(None, Some("cat".to_string())), "cat");
    assert_eq!(fetch_selection(None, None), "");
    assert_eq!(fetch_selection(Some("\t".to_string()), Some("".to_string())), "");
}

#[test]
fn config_defaults_and_merge() {
    let d = AppConfig::default();
    assert_eq!(d.appearance.background_color, "transparent");
    assert_eq!(d.appearance.font_color, "#e9ecf1");
    assert_eq!((d.window.width, d.window.height), (480, 300));

    let raw = RawConfig {
        appearance: Some(RawAppearance { background_color: Some("#000".to_string()), font_color: None }),
        window: Some(RawWindow { width: Some(0), height: Some(640) }),
    };
    let c = merge_with_defaults(raw);
    assert_eq!(c.appearance.background_color, "#000");
    assert_eq!(c.appearance.font_color, "#e9ecf1");
    assert_eq!((c.window.width, c.window.height), (1, 640));

    let c = merge_with_defaults(RawConfig { appearance: None, window: None });
    assert_eq!((c.window.width, c.window.height), (480, 300));
}
