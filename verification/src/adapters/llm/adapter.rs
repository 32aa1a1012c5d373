//! The LLM recommender: its prompt, its chat requests, the retrying
//! conversation that parses its answer, and its error type.
use vstd::prelude::*;

use crate::adapters::db::models::Review;
use crate::adapters::llm::models::{
    messages_view, OpenAiMessage, OpenAiRequest, OpenAiResponse, SeriesRecommendations,
};
use crate::text::{decimal, push_decimal};

verus! {

/// The chat model the recommender asks.
pub const MODEL: &'static str = "o4-mini";

/// How many answers the recommender asks for before it gives up parsing.
pub const MAX_RETRIES: u8 = 3;

/// The instructions that open every conversation with the model.
pub const SYSTEM_PROMPT: &'static str = "\
You are a TV series recommendation engine. Given a user's past ratings, suggest new series they would enjoy.\n\
If a user has previously rated a series that was recommended, treat that as a successful recommendation \
regardless of the score — your goal is to maximise recommendation quality, not predicted rating.\n\
\n\
You MUST respond with ONLY a valid JSON object — no markdown fences, no explanation, \
no text outside the JSON. The object must match this schema exactly:\n\
\n\
{\n\
  \"recommendations\": [\n\
    {\n\
      \"title\": \"string\",\n\
      \"genre\": \"string\",\n\
      \"confidence\": <integer between 0 and 100>\n\
    }\n\
  ],\n\
  \"taste_summary\": \"string — one sentence describing the user's taste profile\"\n\
}";

/// Failures of the LLM recommender.
#[derive(Debug)]
pub enum LlmError {
    /// The HTTP exchange failed; holds the HTTP client's description.
    Http(String),
    /// The API answered with an error or an unusable body; holds a description.
    Api(String),
    /// No answer parsed within the allowed attempts.
    ParseFailed { attempts: u8, last_error: String },
}

/// The text an LLM failure is shown as.
pub open spec fn llm_error_text(e: LlmError) -> Seq<char> {
    match e {
        LlmError::Http(s) => "HTTP request failed: "@ + s@,
        LlmError::Api(s) => "API returned an error: "@ + s@,
        LlmError::ParseFailed { attempts, last_error } =>
            "Failed to parse LLM response after "@ + decimal(attempts as nat) + " attempt(s): "@ + last_error@,
    }
}

impl LlmError {
    /// The text this failure is shown as.
    pub fn to_string(&self) -> (t: String)
        ensures
            t@ == llm_error_text(*self),
    {
        match self {
            LlmError::Http(s) => {
                let mut t = String::from_str("HTTP request failed: ");
                t.append(s.as_str());
                t
            },
            LlmError::Api(s) => {
                let mut t = String::from_str("API returned an error: ");
                t.append(s.as_str());
                t
            },
            LlmError::ParseFailed { attempts, last_error } => {
                let mut t = String::from_str("Failed to parse LLM response after ");
                push_decimal(&mut t, *attempts as u64);
                t.append(" attempt(s): ");
                t.append(last_error.as_str());
                t
            },
        }
    }
}

/// A reviewed series as the prompt lists it: title, rating, and what the user
/// liked and disliked.
#[derive(Debug)]
pub struct PromptEntry {
    pub title: String,
    pub rating: i16,
    pub liked: Option<String>,
    pub disliked: Option<String>,
}

/// The text of an optional string.
pub open spec fn opt_text(o: Option<String>) -> Option<Seq<char>> {
    match o {
        Some(s) => Some(s@),
        None => None,
    }
}

impl View for PromptEntry {
    type V = (Seq<char>, i16, Option<Seq<char>>, Option<Seq<char>>);

    open spec fn view(&self) -> (Seq<char>, i16, Option<Seq<char>>, Option<Seq<char>>) {
        (self.title@, self.rating, opt_text(self.liked), opt_text(self.disliked))
    }
}

/// The pretty-printed JSON array that `serde_json::to_string_pretty` makes of
/// the prompt entries, each an object with the members `title`, `rating`,
/// `liked` and `disliked` (absent texts as `null`).
pub uninterp spec fn review_entries_json(
    entries: Seq<(Seq<char>, i16, Option<Seq<char>>, Option<Seq<char>>)>,
) -> Seq<char>;

/// Builds one `serde_json::Value::Object` per entry, inserting `title`,
/// `rating`, `liked` and `disliked` in that order, and returns
/// `serde_json::to_string_pretty` of the array (the empty string should the
/// serializer fail). The text is a function of the entries alone, which is
/// all that is stated of it.
#[verifier::external_body]
fn entries_to_pretty_json(entries: &Vec<PromptEntry>) -> (json: String)
    ensures
        json@ == review_entries_json(entries@.map_values(|e: PromptEntry| e@)),
{
    let values: Vec<serde_json::Value> = entries.iter().map(|e| {
        let mut m = serde_json::Map::new();
        m.insert("title".to_string(), serde_json::Value::from(e.title.clone()));
        m.insert("rating".to_string(), serde_json::Value::from(e.rating));
        m.insert("liked".to_string(), serde_json::Value::from(e.liked.clone()));
        m.insert("disliked".to_string(), serde_json::Value::from(e.disliked.clone()));
        serde_json::Value::Object(m)
    }).collect();
    serde_json::to_string_pretty(&values).unwrap_or_default()
}

/// The prompt entry of a review paired with the title of its series.
pub open spec fn prompt_entry_of(pair: (Review, String)) -> (Seq<char>, i16, Option<Seq<char>>, Option<Seq<char>>) {
    (pair.1@, pair.0.rating, opt_text(pair.0.liked), opt_text(pair.0.disliked))
}

/// The user prompt around the JSON text of the reviews: a heading, the JSON,
/// and the request for five series.
pub open spec fn framed_prompt(json: Seq<char>) -> Seq<char> {
    "## User reviews\n"@ + json
        + "\n\nRecommend 5 series the user would enjoy. Respond with ONLY the JSON object."@
}

/// The prompt that asks for recommendations from the given reviews.
pub open spec fn prompt_text(reviews: Seq<(Review, String)>) -> Seq<char> {
    framed_prompt(review_entries_json(reviews.map_values(|p: (Review, String)| prompt_entry_of(p))))
}

/// The prompt's JSON lists one entry per review, in review order, whether or
/// not the review has a liked or disliked text: for any entries with one
/// per review whose `i`-th entry is the `i`-th review's series title,
/// rating, liked text and disliked text (absent texts absent), the prompt is
/// the framing around the serializer's text of exactly those entries.
pub proof fn lemma_prompt_lists_every_review(
    reviews: Seq<(Review, String)>,
    entries: Seq<(Seq<char>, i16, Option<Seq<char>>, Option<Seq<char>>)>,
)
    requires
        entries.len() == reviews.len(),
        forall|i: int| 0 <= i < reviews.len() ==> {
            &&& (#[trigger] entries[i]).0 == reviews[i].1@
            &&& entries[i].1 == reviews[i].0.rating
            &&& (entries[i].2 is Some <==> reviews[i].0.liked is Some)
            &&& (reviews[i].0.liked matches Some(t) ==> entries[i].2 == Some(t@))
            &&& (entries[i].3 is Some <==> reviews[i].0.disliked is Some)
            &&& (reviews[i].0.disliked matches Some(t) ==> entries[i].3 == Some(t@))
        },
    ensures
        prompt_text(reviews) == framed_prompt(review_entries_json(entries)),
{
    let mapped = reviews.map_values(|p: (Review, String)| prompt_entry_of(p));
    assert forall|i: int| 0 <= i < reviews.len() implies #[trigger] mapped[i] == entries[i] by {
        assert(entries[i].0 == reviews[i].1@);
    }
    assert(mapped =~= entries);
}

/// Frames the JSON text of the reviews as the user prompt.
pub fn prompt_from_json(json: &str) -> (prompt: String)
    ensures
        prompt@ == framed_prompt(json@),
{
    let mut prompt = String::from_str("## User reviews\n");
    prompt.append(json);
    prompt.append("\n\nRecommend 5 series the user would enjoy. Respond with ONLY the JSON object.");
    prompt
}

fn clone_opt(o: &Option<String>) -> (c: Option<String>)
    ensures
        opt_text(c) == opt_text(*o),
{
    match o {
        Some(s) => Some(s.clone()),
        None => None,
    }
}

/// Builds the user prompt: the reviews, each with its series title, as a
/// pretty-printed JSON array, followed by the request for five series.
pub fn build_prompt(reviews: &[(Review, String)]) -> (prompt: String)
    ensures
        prompt@ == prompt_text(reviews@),
{
    let mut entries: Vec<PromptEntry> = Vec::new();
    let mut i: usize = 0;
    while i < reviews.len()
        invariant
            i <= reviews@.len(),
            entries@.map_values(|e: PromptEntry| e@)
                == reviews@.take(i as int).map_values(|p: (Review, String)| prompt_entry_of(p)),
        decreases reviews@.len() - i,
    {
        let pair = &reviews[i];
        let e = PromptEntry {
            title: pair.1.clone(),
            rating: pair.0.rating,
            liked: clone_opt(&pair.0.liked),
            disliked: clone_opt(&pair.0.disliked),
        };
        let ghost before = entries@;
        entries.push(e);
        proof {
            assert(reviews@.take(i + 1) == reviews@.take(i as int).push(reviews@[i as int]));
            assert(entries@ == before.push(e));
            assert(entries@.map_values(|e: PromptEntry| e@)
                == before.map_values(|e: PromptEntry| e@).push(e@));
            assert(reviews@.take(i + 1).map_values(|p: (Review, String)| prompt_entry_of(p))
                == reviews@.take(i as int).map_values(|p: (Review, String)| prompt_entry_of(p)).push(
                prompt_entry_of(reviews@[i as int])));
        }
        i = i + 1;
    }
    proof {
        assert(reviews@.take(reviews@.len() as int) == reviews@);
    }
    let json = entries_to_pretty_json(&entries);
    prompt_from_json(json.as_str())
}

/// The message that asks the model to correct an answer that failed to parse
/// with the given error.
pub open spec fn feedback_text(err: Seq<char>) -> Seq<char> {
    "Your previous response failed to parse. Error: "@ + err
        + ". Respond with ONLY the JSON object, no extra text."@
}

/// The conversation after the given failed answers, each a pair of the raw
/// answer and its parse error: the user prompt, then for each failure the
/// model's answer followed by the correction request.
pub open spec fn conversation_after(
    prompt: Seq<char>,
    failures: Seq<(Seq<char>, Seq<char>)>,
) -> Seq<(Seq<char>, Seq<char>)>
    decreases failures.len(),
{
    if failures.len() == 0 {
        seq![("user"@, prompt)]
    } else {
        conversation_after(prompt, failures.drop_last()) + seq![
            ("assistant"@, failures.last().0),
            ("user"@, feedback_text(failures.last().1)),
        ]
    }
}

/// What the model answered to one request.
#[derive(Debug)]
pub enum Reply {
    /// The request failed.
    Failed(LlmError),
    /// The model answered `raw`; `parsed` is that text read as
    /// recommendations, or the parser's error.
    Answered { raw: String, parsed: Result<SeriesRecommendations, String> },
}

/// What a completion asks its driver to do next.
#[derive(Debug)]
pub enum CompletionStep {
    /// Send the conversation (with the system prompt) to the model.
    CallApi,
    /// Stop with this outcome.
    Finished(Result<SeriesRecommendations, LlmError>),
}

/// A completion in progress: the conversation so far and the failed answers
/// that shaped it.
pub struct Completion {
    messages: Vec<OpenAiMessage>,
    attempt: u8,
    prompt: Ghost<Seq<char>>,
    failures: Ghost<Seq<(Seq<char>, Seq<char>)>>,
}

impl Completion {
    /// The prompt the completion started from.
    pub closed spec fn prompt(&self) -> Seq<char> {
        self.prompt@
    }

    /// The failed answers so far, each with its parse error, oldest first.
    pub closed spec fn failures(&self) -> Seq<(Seq<char>, Seq<char>)> {
        self.failures@
    }

    /// The completion awaits the answer to its latest request.
    pub closed spec fn wf(&self) -> bool {
        &&& messages_view(self.messages@) == conversation_after(self.prompt@, self.failures@)
        &&& self.attempt as nat == self.failures@.len() + 1
        &&& self.attempt <= MAX_RETRIES
    }

    /// A completion never waits after `MAX_RETRIES` failed answers.
    pub proof fn lemma_attempts_bounded(&self)
        requires
            self.wf(),
        ensures
            self.failures().len() < MAX_RETRIES,
    {
    }

    /// Starts a completion of `initial_prompt`; the first step asks the model.
    pub fn start(initial_prompt: String) -> (res: (Completion, CompletionStep))
        ensures
            res.0.wf(),
            res.0.prompt() == initial_prompt@,
            res.0.failures() == Seq::<(Seq<char>, Seq<char>)>::empty(),
            res.1 is CallApi,
    {
        let ghost p = initial_prompt@;
        let first = OpenAiMessage { role: String::from_str("user"), content: initial_prompt };
        let mut messages: Vec<OpenAiMessage> = Vec::new();
        messages.push(first);
        proof {
            assert(messages_view(messages@) == seq![("user"@, p)]);
        }
        let c = Completion {
            messages,
            attempt: 1,
            prompt: Ghost(p),
            failures: Ghost(Seq::empty()),
        };
        (c, CompletionStep::CallApi)
    }

    /// The conversation to send to the model.
    pub fn conversation(&self) -> (ms: &Vec<OpenAiMessage>)
        requires
            self.wf(),
        ensures
            messages_view(ms@) == conversation_after(self.prompt(), self.failures()),
    {
        &self.messages
    }

    /// Takes the model's reply to the latest request. A failed request ends
    /// the completion with its error; an answer that parsed ends it with the
    /// recommendations; an answer that did not parse is added to the
    /// conversation with a request to correct it, and is asked again unless
    /// `MAX_RETRIES` answers have failed, when the completion ends with
    /// `ParseFailed` and the last parse error.
    pub fn advance(&mut self, reply: Reply) -> (step: CompletionStep)
        requires
            old(self).wf(),
        ensures
            final(self).prompt() == old(self).prompt(),
            match reply {
                Reply::Failed(e) => step == CompletionStep::Finished(Err(e)),
                Reply::Answered { raw, parsed: Ok(recs) } => step == CompletionStep::Finished(Ok(recs)),
                Reply::Answered { raw, parsed: Err(err) } => {
                    &&& final(self).failures() == old(self).failures().push((raw@, err@))
                    &&& if old(self).failures().len() + 1 < MAX_RETRIES {
                        step is CallApi && final(self).wf()
                    } else {
                        step == CompletionStep::Finished(
                            Err(LlmError::ParseFailed { attempts: MAX_RETRIES, last_error: err }),
                        )
                    }
                },
            },
    {
        match reply {
            Reply::Failed(e) => CompletionStep::Finished(Err(e)),
            Reply::Answered { raw, parsed: Ok(recs) } => CompletionStep::Finished(Ok(recs)),
            Reply::Answered { raw, parsed: Err(err) } => {
                let ghost old_msgs = self.messages@;
                let ghost old_failures = self.failures@;
                let ghost entry = (raw@, err@);
                let mut feedback = String::from_str("Your previous response failed to parse. Error: ");
                feedback.append(err.as_str());
                feedback.append(". Respond with ONLY the JSON object, no extra text.");
                let answer = OpenAiMessage { role: String::from_str("assistant"), content: raw };
                let correction = OpenAiMessage { role: String::from_str("user"), content: feedback };
                self.messages.push(answer);
                self.messages.push(correction);
                self.failures = Ghost(self.failures@.push(entry));
                proof {
                    assert(self.failures@.drop_last() =~= old_failures);
                    assert(self.messages@ == old_msgs.push(answer).push(correction));
                    assert(messages_view(self.messages@) == messages_view(old_msgs) + seq![
                        answer@,
                        correction@,
                    ]);
                }
                if self.attempt < MAX_RETRIES {
                    self.attempt = self.attempt + 1;
                    CompletionStep::CallApi
                } else {
                    CompletionStep::Finished(Err(LlmError::ParseFailed { attempts: MAX_RETRIES, last_error: err }))
                }
            },
        }
    }
}

/// The shape of a conversation: the prompt comes first, and each failed
/// answer contributes exactly two messages, the answer itself and then the
/// request to correct it, in the order the failures happened.
pub proof fn lemma_conversation_shape(prompt: Seq<char>, failures: Seq<(Seq<char>, Seq<char>)>)
    ensures
        conversation_after(prompt, failures).len() == 2 * failures.len() + 1,
        conversation_after(prompt, failures)[0] == ("user"@, prompt),
        forall|i: int|
            0 <= i < failures.len() ==> #[trigger] conversation_after(prompt, failures)[2 * i + 1] == (
            "assistant"@,
            failures[i].0,
        ),
        forall|i: int|
            0 <= i < failures.len() ==> #[trigger] conversation_after(prompt, failures)[2 * i + 2] == (
            "user"@,
            feedback_text(failures[i].1),
        ),
    decreases failures.len(),
{
    if failures.len() > 0 {
        let shorter = failures.drop_last();
        lemma_conversation_shape(prompt, shorter);
        let cs = conversation_after(prompt, shorter);
        let tail = seq![("assistant"@, failures.last().0), ("user"@, feedback_text(failures.last().1))];
        assert(conversation_after(prompt, failures) == cs + tail);
        assert forall|i: int| 0 <= i < failures.len() implies #[trigger] conversation_after(
            prompt,
            failures,
        )[2 * i + 1] == ("assistant"@, failures[i].0) by {
            if i < shorter.len() {
                assert(cs[2 * i + 1] == ("assistant"@, shorter[i].0));
                assert(shorter[i] == failures[i]);
            } else {
                assert(2 * i + 1 == cs.len());
            }
        }
        assert forall|i: int| 0 <= i < failures.len() implies #[trigger] conversation_after(
            prompt,
            failures,
        )[2 * i + 2] == ("user"@, feedback_text(failures[i].1)) by {
            if i < shorter.len() {
                assert(cs[2 * i + 2] == ("user"@, feedback_text(shorter[i].1)));
                assert(shorter[i] == failures[i]);
            } else {
                assert(2 * i + 2 == cs.len() + 1);
            }
        }
    }
}

/// The request that sends a conversation to the model: `MODEL`, and the
/// conversation preceded by the system prompt.
pub fn chat_request(messages: &Vec<OpenAiMessage>) -> (req: OpenAiRequest<'static>)
    ensures
        req.model@ == MODEL@,
        messages_view(req.messages@) == seq![("system"@, SYSTEM_PROMPT@)] + messages_view(messages@),
{
    let mut all: Vec<OpenAiMessage> = Vec::new();
    all.push(OpenAiMessage { role: String::from_str("system"), content: String::from_str(SYSTEM_PROMPT) });
    let ghost head = messages_view(all@);
    let mut i: usize = 0;
    while i < messages.len()
        invariant
            i <= messages@.len(),
            head == seq![("system"@, SYSTEM_PROMPT@)],
            messages_view(all@) == head + messages_view(messages@.take(i as int)),
        decreases messages@.len() - i,
    {
        let m = OpenAiMessage { role: messages[i].role.clone(), content: messages[i].content.clone() };
        let ghost before = all@;
        all.push(m);
        proof {
            assert(messages@.take(i + 1) == messages@.take(i as int).push(messages@[i as int]));
            assert(all@ == before.push(m));
            assert(messages_view(all@) == messages_view(before).push(m@));
            assert(messages_view(messages@.take(i + 1)) == messages_view(messages@.take(i as int)).push(
                messages@[i as int]@));
        }
        i = i + 1;
    }
    proof {
        assert(messages@.take(messages@.len() as int) == messages@);
    }
    OpenAiRequest { model: MODEL, messages: all }
}

/// The answer text of a chat response: the content of its first choice. A
/// response that could not be read (`Err` holds the reader's error) or that
/// offers no choice is an API error.
pub fn chat_reply(response: Result<OpenAiResponse, String>) -> (r: Result<String, LlmError>)
    ensures
        match response {
            Err(e) => r matches Err(LlmError::Api(m)) && m@ == "failed to parse response: "@ + e@,
            Ok(resp) => if resp.choices@.len() > 0 {
                r == Ok::<String, LlmError>(resp.choices@[0].message.content)
            } else {
                r matches Err(LlmError::Api(m)) && m@ == "response contained no choices"@
            },
        },
{
    match response {
        Err(e) => {
            let mut m = String::from_str("failed to parse response: ");
            m.append(e.as_str());
            Err(LlmError::Api(m))
        },
        Ok(resp) => {
            let mut choices = resp.choices;
            if choices.len() > 0 {
                let first = choices.remove(0);
                Ok(first.message.content)
            } else {
                Err(LlmError::Api(String::from_str("response contained no choices")))
            }
        },
    }
}

/// When every allowed answer fails to parse, the failure reads "Failed to
/// parse LLM response after 3 attempt(s): " followed by the last parse error.
pub proof fn lemma_parse_failure_text(last_error: String)
    ensures
        llm_error_text(LlmError::ParseFailed { attempts: MAX_RETRIES, last_error })
            == "Failed to parse LLM response after 3 attempt(s): "@ + last_error@,
{
    reveal_strlit("3");
    reveal_strlit("Failed to parse LLM response after ");
    reveal_strlit(" attempt(s): ");
    reveal_strlit("Failed to parse LLM response after 3 attempt(s): ");
    assert(decimal(3) == seq!['3']);
    assert("Failed to parse LLM response after "@ + decimal(3) + " attempt(s): "@
        =~= "Failed to parse LLM response after 3 attempt(s): "@);
}

} // verus!
