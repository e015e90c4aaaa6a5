use polish_language::error::{PersistenceError, TransformError};
use polish_language::provider::{
    build_request, extract_gemini_text, extract_openai_text, extract_text, gemini_request,
    gemini_url, instruction, is_success, openai_request, openai_url, polish_request,
    provider_kind, response_shape, temperature_tenths, translate_request, ChatMessage,
    GeminiCandidate, GeminiContent, GeminiGenerationConfig, GeminiPart, GeminiRequest,
    GeminiResponse, Header, OpenAiChoice, OpenAiRequest, OpenAiResponse, Operation,
    ProviderKind, ProviderRequest, ProviderResponse, RequestBody, MAX_TOKENS,
    POLISH_TEMPERATURE_TENTHS, TRANSLATE_TEMPERATURE_TENTHS,
};
use polish_language::settings::Settings;

const TRANSLATE_INSTRUCTION: &str = "Translate the following text to English. If the text is already in English, keep it as is. Only return the translated text without any additional explanation:";

fn openai_settings() -> Settings {
    let mut s = Settings::default();
    s.set_api_key("openai", "sk-test");
    s
}

fn gemini_settings() -> Settings {
    let mut s = Settings::default();
    s.provider = "gemini".to_string();
    s.model = "gemini-pro".to_string();
    s.base_url = "https://generativelanguage.googleapis.com".to_string();
    s.set_api_key("gemini", "g-test");
    s
}

fn header(name: &str, value: &str) -> Header {
    Header { name: name.to_string(), value: value.to_string() }
}

fn message(role: &str, content: &str) -> ChatMessage {
    ChatMessage { role: role.to_string(), content: content.to_string() }
}

fn openai_response(contents: &[&str]) -> OpenAiResponse {
    OpenAiResponse {
        choices: contents
            .iter()
            .map(|c| OpenAiChoice { message: message("assistant", c) })
            .collect(),
    }
}

fn gemini_response(candidates: &[&[&str]]) -> GeminiResponse {
    GeminiResponse {
        candidates: candidates
            .iter()
            .map(|parts| GeminiCandidate {
                content: GeminiContent {
                    parts: parts.iter().map(|t| GeminiPart { text: t.to_string() }).collect(),
                },
            })
            .collect(),
    }
}

#[test]
fn provider_is_chosen_by_identifier() {
    assert_eq!(provider_kind("gemini"), ProviderKind::Gemini);
    assert_eq!(provider_kind("openai"), ProviderKind::OpenAi);
}

#[test]
fn unknown_providers_fall_back_to_openai() {
    assert_eq!(provider_kind(""), ProviderKind::OpenAi);
    assert_eq!(provider_kind("anthropic"), ProviderKind::OpenAi);
    assert_eq!(provider_kind("Gemini"), ProviderKind::OpenAi);
    assert_eq!(provider_kind("gemini "), ProviderKind::OpenAi);
}

#[test]
fn instruction_per_operation() {
    let mut s = Settings::default();
    s.prompt = "Make it shine:".to_string();
    assert_eq!(instruction(Operation::Polish, &s), "Make it shine:");
    assert_eq!(instruction(Operation::Translate, &s), TRANSLATE_INSTRUCTION);
}

#[test]
fn temperature_per_operation() {
    assert_eq!(temperature_tenths(Operation::Polish), 3);
    assert_eq!(temperature_tenths(Operation::Translate), 1);
    assert_eq!(POLISH_TEMPERATURE_TENTHS, 3);
    assert_eq!(TRANSLATE_TEMPERATURE_TENTHS, 1);
    assert_eq!(MAX_TOKENS, 1000);
}

#[test]
fn openai_url_appends_the_chat_endpoint() {
    assert_eq!(openai_url("https://api.openai.com/v1"), "https://api.openai.com/v1/chat/completions");
    assert_eq!(openai_url(""), "/chat/completions");
}

#[test]
fn gemini_url_builds_the_model_endpoint() {
    assert_eq!(
        gemini_url("https://generativelanguage.googleapis.com", "gemini-pro", "K"),
        "https://generativelanguage.googleapis.com/v1beta/models/gemini-pro:generateContent?key=K"
    );
}

#[test]
fn gemini_url_keeps_a_base_that_names_the_endpoint() {
    assert_eq!(
        gemini_url("https://host/v1/models/x:generateContent", "gemini-pro", "K"),
        "https://host/v1/models/x:generateContent?key=K"
    );
}

#[test]
fn polish_request_for_openai() {
    let s = openai_settings();
    let request = polish_request("teh text", &s);
    let expected = ProviderRequest {
        url: "https://api.openai.com/v1/chat/completions".to_string(),
        headers: vec![
            header("Authorization", "Bearer sk-test"),
            header("Content-Type", "application/json"),
        ],
        body: RequestBody::OpenAi(OpenAiRequest {
            model: "gpt-3.5-turbo".to_string(),
            messages: vec![
                message(
                    "system",
                    "Please polish and improve the following text while maintaining its original meaning and tone:",
                ),
                message("user", "teh text"),
            ],
            max_tokens: 1000,
            temperature_tenths: 3,
        }),
    };
    assert_eq!(request, expected);
}

#[test]
fn translate_request_for_openai() {
    let s = openai_settings();
    let request = translate_request("Bonjour", &s);
    let expected = ProviderRequest {
        url: "https://api.openai.com/v1/chat/completions".to_string(),
        headers: vec![
            header("Authorization", "Bearer sk-test"),
            header("Content-Type", "application/json"),
        ],
        body: RequestBody::OpenAi(OpenAiRequest {
            model: "gpt-3.5-turbo".to_string(),
            messages: vec![message("system", TRANSLATE_INSTRUCTION), message("user", "Bonjour")],
            max_tokens: 1000,
            temperature_tenths: 1,
        }),
    };
    assert_eq!(request, expected);
}

#[test]
fn polish_request_for_gemini() {
    let mut s = gemini_settings();
    s.prompt = "Polish:".to_string();
    let request = polish_request("teh text", &s);
    let expected = ProviderRequest {
        url: "https://generativelanguage.googleapis.com/v1beta/models/gemini-pro:generateContent?key=g-test"
            .to_string(),
        headers: vec![header("Content-Type", "application/json")],
        body: RequestBody::Gemini(GeminiRequest {
            contents: vec![GeminiContent {
                parts: vec![GeminiPart { text: "Polish:\n\nteh text".to_string() }],
            }],
            generation_config: GeminiGenerationConfig {
                temperature_tenths: 3,
                max_output_tokens: 1000,
            },
        }),
    };
    assert_eq!(request, expected);
}

#[test]
fn translate_request_for_gemini() {
    let s = gemini_settings();
    let request = translate_request("Hola", &s);
    let expected = ProviderRequest {
        url: "https://generativelanguage.googleapis.com/v1beta/models/gemini-pro:generateContent?key=g-test"
            .to_string(),
        headers: vec![header("Content-Type", "application/json")],
        body: RequestBody::Gemini(GeminiRequest {
            contents: vec![GeminiContent {
                parts: vec![GeminiPart { text: format!("{}\n\nHola", TRANSLATE_INSTRUCTION) }],
            }],
            generation_config: GeminiGenerationConfig {
                temperature_tenths: 1,
                max_output_tokens: 1000,
            },
        }),
    };
    assert_eq!(request, expected);
}

#[test]
fn build_request_follows_the_active_provider() {
    let openai = openai_settings();
    let gemini = gemini_settings();
    assert_eq!(
        build_request(Operation::Polish, "t", &openai),
        openai_request(&openai.prompt, "t", 3, &openai)
    );
    assert_eq!(
        build_request(Operation::Translate, "t", &gemini),
        gemini_request(TRANSLATE_INSTRUCTION, "t", 1, &gemini)
    );
    let mut unknown = openai_settings();
    unknown.provider = "mystery".to_string();
    unknown.set_api_key("mystery", "m-key");
    let request = build_request(Operation::Polish, "t", &unknown);
    assert_eq!(request.url, "https://api.openai.com/v1/chat/completions");
    assert_eq!(request.headers[0], header("Authorization", "Bearer m-key"));
}

#[test]
fn success_range_of_statuses() {
    assert!(is_success(200));
    assert!(is_success(201));
    assert!(is_success(204));
    assert!(is_success(299));
    assert!(!is_success(199));
    assert!(!is_success(300));
    assert!(!is_success(301));
    assert!(!is_success(400));
    assert!(!is_success(401));
    assert!(!is_success(404));
    assert!(!is_success(429));
    assert!(!is_success(500));
    assert!(!is_success(0));
    assert!(!is_success(u16::MAX));
}

#[test]
fn openai_adapter_returns_the_trimmed_first_choice() {
    let response = openai_response(&["  Hello.  "]);
    assert_eq!(extract_openai_text(&response), Ok("Hello.".to_string()));
    assert_eq!(
        extract_text(&ProviderResponse::OpenAi(response)),
        Ok("Hello.".to_string())
    );
}

#[test]
fn openai_adapter_reads_only_the_first_choice() {
    let response = openai_response(&["first\n", "second"]);
    assert_eq!(extract_openai_text(&response), Ok("first".to_string()));
}

#[test]
fn openai_adapter_without_choices_is_an_empty_response() {
    let response = openai_response(&[]);
    assert_eq!(extract_openai_text(&response), Err(TransformError::EmptyResponse));
}

#[test]
fn gemini_adapter_returns_the_first_part_of_the_first_candidate() {
    let response = gemini_response(&[&["Bonjour"]]);
    assert_eq!(extract_gemini_text(&response), Ok("Bonjour".to_string()));
    assert_eq!(
        extract_text(&ProviderResponse::Gemini(response)),
        Ok("Bonjour".to_string())
    );
}

#[test]
fn gemini_adapter_trims_the_text() {
    let response = gemini_response(&[&["\n Salut \n", "ignored"], &["other"]]);
    assert_eq!(extract_gemini_text(&response), Ok("Salut".to_string()));
}

#[test]
fn gemini_adapter_without_candidates_is_an_empty_response() {
    let response = gemini_response(&[]);
    assert_eq!(extract_gemini_text(&response), Err(TransformError::EmptyResponse));
    assert_eq!(
        extract_text(&ProviderResponse::Gemini(response)),
        Err(TransformError::EmptyResponse)
    );
}

#[test]
fn gemini_adapter_without_parts_is_an_empty_response() {
    let response = gemini_response(&[&[]]);
    assert_eq!(extract_gemini_text(&response), Err(TransformError::EmptyResponse));
    let later_parts = gemini_response(&[&[], &["late"]]);
    assert_eq!(extract_gemini_text(&later_parts), Err(TransformError::EmptyResponse));
}

#[test]
fn response_shapes() {
    assert_eq!(
        response_shape(&ProviderResponse::OpenAi(openai_response(&[]))),
        ProviderKind::OpenAi
    );
    assert_eq!(
        response_shape(&ProviderResponse::Gemini(gemini_response(&[]))),
        ProviderKind::Gemini
    );
}

#[test]
fn error_descriptions() {
    assert_eq!(
        TransformError::Capture { reason: "no focus".to_string() }.describe(),
        "Error getting selected text: no focus"
    );
    assert_eq!(
        TransformError::MissingCredential { provider: "gemini".to_string() }.describe(),
        "API key not configured for provider: gemini"
    );
    assert_eq!(
        TransformError::Transport { reason: "timed out".to_string() }.describe(),
        "Request failed: timed out"
    );
    assert_eq!(
        TransformError::Api { status: 401, body: "denied".to_string() }.describe(),
        "API request failed with status: 401 - denied"
    );
    assert_eq!(
        TransformError::Api { status: 500, body: String::new() }.describe(),
        "API request failed with status: 500"
    );
    assert_eq!(
        TransformError::MalformedResponse { reason: "eof".to_string() }.describe(),
        "Failed to parse response: eof"
    );
    assert_eq!(TransformError::EmptyResponse.describe(), "No response from API");
}

#[test]
fn persistence_error_descriptions() {
    assert_eq!(
        PersistenceError::Serialize { reason: "bad".to_string() }.describe(),
        "Failed to serialize settings: bad"
    );
    assert_eq!(
        PersistenceError::Write { reason: "disk full".to_string() }.describe(),
        "Failed to write settings: disk full"
    );
}
