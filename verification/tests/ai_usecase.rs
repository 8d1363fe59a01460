use smart_persona::ai::{
    analysis_response_body, chat_response_body, AIAnalysisResponse, AIAnalysisUseCase,
    ChatResponse,
};

#[test]
fn analysis_request_carries_inputs() {
    let usecase = AIAnalysisUseCase::new();
    let posts = vec![String::from("first post"), String::from("second post")];
    let req = usecase.build_analysis_request(String::from("user-1"), posts.clone());
    assert_eq!(req.user_id, "user-1");
    assert_eq!(req.posts, posts);
}

#[test]
fn chat_request_carries_message() {
    let usecase = AIAnalysisUseCase::new();
    let req = usecase.build_chat_request(String::from("hello"));
    assert_eq!(req.message, "hello");
}

#[test]
fn response_bodies_are_unchanged() {
    let out = analysis_response_body(AIAnalysisResponse {
        personality_tags: vec![String::from("calm")],
        suggested_theme: String::from("forest"),
    });
    assert_eq!(out.personality_tags, vec![String::from("calm")]);
    assert_eq!(out.suggested_theme, "forest");

    let reply = chat_response_body(ChatResponse { reply: String::from("hi") });
    assert_eq!(reply.reply, "hi");
}
