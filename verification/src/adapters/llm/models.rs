//! The recommender's answer and the chat-completion messages exchanged with
//! the model.
use vstd::prelude::*;

verus! {

/// The recommender's answer: suggested series and a summary of the user's
/// taste.
#[derive(Debug)]
pub struct SeriesRecommendations {
    pub recommendations: Vec<Recommendation>,
    pub taste_summary: String,
}

/// One suggested series with the recommender's confidence (0 to 100).
#[derive(Debug)]
pub struct Recommendation {
    pub title: String,
    pub genre: String,
    pub confidence: u8,
}

/// One message of a chat conversation.
#[derive(Debug)]
pub struct OpenAiMessage {
    pub role: String,
    pub content: String,
}

/// A message as the pair of its role and its content.
impl View for OpenAiMessage {
    type V = (Seq<char>, Seq<char>);

    open spec fn view(&self) -> (Seq<char>, Seq<char>) {
        (self.role@, self.content@)
    }
}

/// A conversation as the sequence of its messages' views.
pub open spec fn messages_view(ms: Seq<OpenAiMessage>) -> Seq<(Seq<char>, Seq<char>)> {
    ms.map_values(|m: OpenAiMessage| m@)
}

/// A chat-completion request: the model to ask and the conversation.
#[derive(Debug)]
pub struct OpenAiRequest<'a> {
    pub model: &'a str,
    pub messages: Vec<OpenAiMessage>,
}

/// A chat-completion response.
#[derive(Debug)]
pub struct OpenAiResponse {
    pub choices: Vec<Choice>,
}

/// One completion the model offers.
#[derive(Debug)]
pub struct Choice {
    pub message: MessageContent,
}

/// The text of a completion.
#[derive(Debug)]
pub struct MessageContent {
    pub content: String,
}

} // verus!
