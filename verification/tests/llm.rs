use backend::adapters::db::models::Review;
use backend::adapters::llm::adapter::{
    build_prompt, chat_reply, prompt_from_json, chat_request, Completion, CompletionStep, LlmError, Reply,
    MAX_RETRIES, MODEL, SYSTEM_PROMPT,
};
use backend::adapters::llm::models::{
    Choice, MessageContent, OpenAiMessage, OpenAiResponse, Recommendation, SeriesRecommendations,
};
use backend::models::{Id, Timestamp};

fn recs(title: &str) -> SeriesRecommendations {
    SeriesRecommendations {
        recommendations: vec![Recommendation { title: title.to_string(), genre: "Drama".to_string(), confidence: 88 }],
        taste_summary: "Likes crime dramas.".to_string(),
    }
}

fn roles(ms: &Vec<OpenAiMessage>) -> Vec<&str> {
    ms.iter().map(|m| m.role.as_str()).collect()
}

fn answered(raw: &str, parsed: Result<SeriesRecommendations, String>) -> Reply {
    Reply::Answered { raw: raw.to_string(), parsed }
}

#[test]
fn first_answer_that_parses_is_returned() {
    let (c, step) = Completion::start("prompt".to_string());
    assert!(matches!(step, CompletionStep::CallApi));
    assert_eq!(roles(c.conversation()), vec!["user"]);
    assert_eq!(c.conversation()[0].content, "prompt");
    let mut c = c;
    match c.advance(answered("{...}", Ok(recs("The Wire")))) {
        CompletionStep::Finished(Ok(r)) => assert_eq!(r.recommendations[0].title, "The Wire"),
        other => panic!("unexpected step {:?}", other),
    }
}

#[test]
fn a_bad_answer_is_fed_back() {
    let (mut c, _) = Completion::start("prompt".to_string());
    let step = c.advance(answered("not json", Err("expected value at line 1 column 1".to_string())));
    assert!(matches!(step, CompletionStep::CallApi));
    let conv = c.conversation();
    assert_eq!(roles(conv), vec!["user", "assistant", "user"]);
    assert_eq!(conv[1].content, "not json");
    assert_eq!(
        conv[2].content,
        "Your previous response failed to parse. Error: expected value at line 1 column 1. Respond with ONLY the JSON object, no extra text."
    );
    match c.advance(answered("{}", Ok(recs("Ozark")))) {
        CompletionStep::Finished(Ok(r)) => assert_eq!(r.taste_summary, "Likes crime dramas."),
        other => panic!("unexpected step {:?}", other),
    }
}

#[test]
fn gives_up_after_three_bad_answers() {
    let (mut c, _) = Completion::start("p".to_string());
    let mut calls = 1;
    let mut last = None;
    for k in 1..=5 {
        let step = c.advance(answered("x", Err(format!("error {k}"))));
        match step {
            CompletionStep::CallApi => calls += 1,
            CompletionStep::Finished(r) => {
                last = Some(r);
                break;
            }
        }
    }
    assert_eq!(calls, MAX_RETRIES as usize);
    match last {
        Some(Err(LlmError::ParseFailed { attempts, last_error })) => {
            assert_eq!(attempts, 3);
            assert_eq!(last_error, "error 3");
        }
        other => panic!("unexpected outcome {:?}", other),
    }
}

#[test]
fn failed_request_ends_the_completion() {
    let (mut c, _) = Completion::start("p".to_string());
    let step = c.advance(Reply::Failed(LlmError::Http("connection reset".to_string())));
    assert!(matches!(step, CompletionStep::Finished(Err(LlmError::Http(m))) if m == "connection reset"));
}

#[test]
fn chat_request_starts_with_the_system_prompt() {
    let msgs = vec![
        OpenAiMessage { role: "user".to_string(), content: "hello".to_string() },
        OpenAiMessage { role: "assistant".to_string(), content: "hi".to_string() },
    ];
    let req = chat_request(&msgs);
    assert_eq!(req.model, "o4-mini");
    assert_eq!(req.model, MODEL);
    assert_eq!(roles(&req.messages), vec!["system", "user", "assistant"]);
    assert_eq!(req.messages[0].content, SYSTEM_PROMPT);
    assert!(SYSTEM_PROMPT.starts_with("You are a TV series recommendation engine."));
    assert!(SYSTEM_PROMPT.contains("{\n\"recommendations\": [\n{\n\"title\": \"string\",\n"));
    assert_eq!(req.messages[1].content, "hello");
    assert_eq!(req.messages[2].content, "hi");
}

#[test]
fn chat_reply_takes_the_first_choice() {
    let resp = OpenAiResponse {
        choices: vec![
            Choice { message: MessageContent { content: "first".to_string() } },
            Choice { message: MessageContent { content: "second".to_string() } },
        ],
    };
    assert_eq!(chat_reply(Ok(resp)).unwrap(), "first");
}

#[test]
fn chat_reply_without_choices_is_an_api_error() {
    let r = chat_reply(Ok(OpenAiResponse { choices: vec![] }));
    assert!(matches!(r, Err(LlmError::Api(m)) if m == "response contained no choices"));
    let r = chat_reply(Err("missing field `choices`".to_string()));
    assert!(matches!(r, Err(LlmError::Api(m)) if m == "failed to parse response: missing field `choices`"));
}

fn reviewed(rating: i16, liked: Option<&str>, disliked: Option<&str>) -> Review {
    Review {
        id: Id(1),
        series_id: Id(2),
        user_id: Id(3),
        tmdb_series_id: Some(1396),
        rating,
        liked: liked.map(|s| s.to_string()),
        disliked: disliked.map(|s| s.to_string()),
        was_recommended: false,
        created_at: Timestamp(0),
    }
}

#[test]
fn prompt_lists_the_reviews_as_json() {
    let reviews = vec![
        (reviewed(9, Some("Great writing, complex characters"), None), "Breaking Bad".to_string()),
        (reviewed(7, Some("Interesting premise"), Some("Too slow in the middle")), "Ozark".to_string()),
    ];
    let prompt = build_prompt(&reviews);
    let expected_entries: Vec<serde_json::Value> = reviews
        .iter()
        .map(|(r, title)| {
            let mut m = serde_json::Map::new();
            m.insert("title".to_string(), serde_json::Value::from(title.clone()));
            m.insert("rating".to_string(), serde_json::Value::from(r.rating));
            m.insert("liked".to_string(), serde_json::Value::from(r.liked.clone()));
            m.insert("disliked".to_string(), serde_json::Value::from(r.disliked.clone()));
            serde_json::Value::Object(m)
        })
        .collect();
    let json = serde_json::to_string_pretty(&expected_entries).unwrap();
    assert_eq!(
        prompt,
        format!("## User reviews\n{json}\n\nRecommend 5 series the user would enjoy. Respond with ONLY the JSON object.")
    );
    assert!(prompt.contains("\"title\": \"Breaking Bad\""));
    assert!(prompt.contains("\"disliked\": null"));
    assert!(prompt.contains("\"rating\": 7"));
}

#[test]
fn prompt_without_reviews() {
    assert_eq!(
        build_prompt(&[]),
        "## User reviews\n[]\n\nRecommend 5 series the user would enjoy. Respond with ONLY the JSON object."
    );
}

#[test]
fn prompt_frames_the_json_text() {
    assert_eq!(
        prompt_from_json("[1]"),
        "## User reviews\n[1]\n\nRecommend 5 series the user would enjoy. Respond with ONLY the JSON object."
    );
    assert_eq!(
        prompt_from_json(""),
        "## User reviews\n\n\nRecommend 5 series the user would enjoy. Respond with ONLY the JSON object."
    );
}
