//! The personality-analysis use case: building the requests sent to the
//! analysis service and shaping its answers for the HTTP layer. The HTTP
//! client itself is an outside collaborator; only the value mapping lives
//! here.

use vstd::prelude::*;

verus! {

/// A request to analyze a user's posts.
pub struct AIAnalysisRequest {
    pub user_id: String,
    pub posts: Vec<String>,
}

/// The analysis service's answer.
pub struct AIAnalysisResponse {
    pub personality_tags: Vec<String>,
    pub suggested_theme: String,
}

/// A chat message sent to the bot.
pub struct ChatRequest {
    pub message: String,
}

/// The bot's reply.
pub struct ChatResponse {
    pub reply: String,
}

/// The body of an incoming analysis request.
pub struct AnalyzePersonalityPayload {
    pub user_id: String,
    pub posts: Vec<String>,
}

/// The body of an outgoing analysis answer.
pub struct AnalyzePersonalityResponse {
    pub personality_tags: Vec<String>,
    pub suggested_theme: String,
}

/// The body of an incoming chat request.
pub struct ChatPayload {
    pub message: String,
}

/// The body of an outgoing chat answer.
pub struct ChatHandlerResponse {
    pub reply: String,
}

/// Builds the requests handed to the analysis service.
pub struct AIAnalysisUseCase {}

impl AIAnalysisUseCase {
    pub fn new() -> (r: Self) {
        AIAnalysisUseCase {  }
    }

    /// The analysis request for a user's posts, exactly as submitted.
    pub fn build_analysis_request(&self, user_id: String, posts: Vec<String>) -> (r:
        AIAnalysisRequest)
        ensures
            r.user_id@ == user_id@,
            r.posts@ == posts@,
    {
        AIAnalysisRequest { user_id, posts }
    }

    /// The chat request for a message, exactly as submitted.
    pub fn build_chat_request(&self, message: String) -> (r: ChatRequest)
        ensures
            r.message@ == message@,
    {
        ChatRequest { message }
    }
}

/// Shape a service answer into the handler's response body, unchanged.
pub fn analysis_response_body(r: AIAnalysisResponse) -> (out: AnalyzePersonalityResponse)
    ensures
        out.personality_tags@ == r.personality_tags@,
        out.suggested_theme@ == r.suggested_theme@,
{
    AnalyzePersonalityResponse {
        personality_tags: r.personality_tags,
        suggested_theme: r.suggested_theme,
    }
}

/// Shape a bot reply into the handler's response body, unchanged.
pub fn chat_response_body(r: ChatResponse) -> (out: ChatHandlerResponse)
    ensures
        out.reply@ == r.reply@,
{
    ChatHandlerResponse { reply: r.reply }
}

} // verus!
