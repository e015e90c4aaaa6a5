//! Request construction and response reading for the supported language-model backends.

use crate::error::{TransformError, TransformErrorView};
use crate::settings::{resolved_key, Settings, SettingsView};
use crate::text::{contains, equal, occurs_in, trim, trimmed};
use vstd::prelude::*;

verus! {

/// Upper bound on generated tokens asked of every backend.
pub const MAX_TOKENS: u32 = 1000;

/// Sampling temperature of a polish request, in tenths.
pub const POLISH_TEMPERATURE_TENTHS: u32 = 3;

/// Sampling temperature of a translate request, in tenths.
pub const TRANSLATE_TEMPERATURE_TENTHS: u32 = 1;

/// The two transformations a run can perform.
#[derive(Debug, Clone, Copy, PartialEq, Eq, Structural)]
pub enum Operation {
    Polish,
    Translate,
}

/// The request and response shapes that are understood.
#[derive(Debug, Clone, Copy, PartialEq, Eq, Structural)]
pub enum ProviderKind {
    /// Chat completions in the OpenAI style. Also used for unknown provider identifiers.
    OpenAi,
    /// Content generation in the Gemini style.
    Gemini,
}

/// One message of a chat.
#[derive(Debug, Clone, PartialEq, Eq)]
pub struct ChatMessage {
    pub role: String,
    pub content: String,
}

/// The body of a chat-completions request. The temperature is held in tenths.
#[derive(Debug, Clone, PartialEq, Eq)]
pub struct OpenAiRequest {
    pub model: String,
    pub messages: Vec<ChatMessage>,
    pub max_tokens: u32,
    pub temperature_tenths: u32,
}

/// One piece of text inside a content.
#[derive(Debug, Clone, PartialEq, Eq)]
pub struct GeminiPart {
    pub text: String,
}

/// A content: a list of parts.
#[derive(Debug, Clone, PartialEq, Eq)]
pub struct GeminiContent {
    pub parts: Vec<GeminiPart>,
}

/// Generation parameters of a content-generation request. The temperature is held in tenths.
#[derive(Debug, Clone, Copy, PartialEq, Eq, Structural)]
pub struct GeminiGenerationConfig {
    pub temperature_tenths: u32,
    pub max_output_tokens: u32,
}

/// The body of a content-generation request.
#[derive(Debug, Clone, PartialEq, Eq)]
pub struct GeminiRequest {
    pub contents: Vec<GeminiContent>,
    pub generation_config: GeminiGenerationConfig,
}

/// The body of a request, in the shape of its backend.
#[derive(Debug, Clone, PartialEq, Eq)]
pub enum RequestBody {
    OpenAi(OpenAiRequest),
    Gemini(GeminiRequest),
}

/// One header line of a request.
#[derive(Debug, Clone, PartialEq, Eq)]
pub struct Header {
    pub name: String,
    pub value: String,
}

/// Everything needed to send one request: a POST to `url` with `headers` and `body` as JSON.
#[derive(Debug, Clone, PartialEq, Eq)]
pub struct ProviderRequest {
    pub url: String,
    pub headers: Vec<Header>,
    pub body: RequestBody,
}

/// One choice of a chat-completions response.
#[derive(Debug, Clone, PartialEq, Eq)]
pub struct OpenAiChoice {
    pub message: ChatMessage,
}

/// A chat-completions response.
#[derive(Debug, Clone, PartialEq, Eq)]
pub struct OpenAiResponse {
    pub choices: Vec<OpenAiChoice>,
}

/// One candidate of a content-generation response.
#[derive(Debug, Clone, PartialEq, Eq)]
pub struct GeminiCandidate {
    pub content: GeminiContent,
}

/// A content-generation response.
#[derive(Debug, Clone, PartialEq, Eq)]
pub struct GeminiResponse {
    pub candidates: Vec<GeminiCandidate>,
}

/// A decoded response, in the shape of its backend.
#[derive(Debug, Clone, PartialEq, Eq)]
pub enum ProviderResponse {
    OpenAi(OpenAiResponse),
    Gemini(GeminiResponse),
}

/// The mathematical content of a `ChatMessage`.
pub struct ChatMessageView {
    pub role: Seq<char>,
    pub content: Seq<char>,
}

/// The mathematical content of an `OpenAiRequest`.
pub struct OpenAiRequestView {
    pub model: Seq<char>,
    pub messages: Seq<ChatMessageView>,
    pub max_tokens: u32,
    pub temperature_tenths: u32,
}

/// The mathematical content of a `GeminiRequest`: each content is the list of its parts' texts.
pub struct GeminiRequestView {
    pub contents: Seq<Seq<Seq<char>>>,
    pub generation_config: GeminiGenerationConfig,
}

/// The mathematical content of a `RequestBody`.
pub enum RequestBodyView {
    OpenAi(OpenAiRequestView),
    Gemini(GeminiRequestView),
}

/// The mathematical content of a `Header`.
pub struct HeaderView {
    pub name: Seq<char>,
    pub value: Seq<char>,
}

/// The mathematical content of a `ProviderRequest`.
pub struct ProviderRequestView {
    pub url: Seq<char>,
    pub headers: Seq<HeaderView>,
    pub body: RequestBodyView,
}

/// The mathematical content of a `ProviderResponse`: the messages of the choices, or for each
/// candidate the texts of its content's parts.
pub enum ProviderResponseView {
    OpenAi(Seq<ChatMessageView>),
    Gemini(Seq<Seq<Seq<char>>>),
}

impl View for ChatMessage {
    type V = ChatMessageView;

    open spec fn view(&self) -> ChatMessageView {
        ChatMessageView { role: self.role@, content: self.content@ }
    }
}

impl View for OpenAiRequest {
    type V = OpenAiRequestView;

    open spec fn view(&self) -> OpenAiRequestView {
        OpenAiRequestView {
            model: self.model@,
            messages: Seq::new(self.messages@.len(), |i: int| self.messages@[i]@),
            max_tokens: self.max_tokens,
            temperature_tenths: self.temperature_tenths,
        }
    }
}

impl View for GeminiPart {
    type V = Seq<char>;

    open spec fn view(&self) -> Seq<char> {
        self.text@
    }
}

impl View for GeminiContent {
    type V = Seq<Seq<char>>;

    open spec fn view(&self) -> Seq<Seq<char>> {
        Seq::new(self.parts@.len(), |i: int| self.parts@[i]@)
    }
}

impl View for GeminiRequest {
    type V = GeminiRequestView;

    open spec fn view(&self) -> GeminiRequestView {
        GeminiRequestView {
            contents: Seq::new(self.contents@.len(), |i: int| self.contents@[i]@),
            generation_config: self.generation_config,
        }
    }
}

impl View for RequestBody {
    type V = RequestBodyView;

    open spec fn view(&self) -> RequestBodyView {
        match self {
            RequestBody::OpenAi(request) => RequestBodyView::OpenAi(request@),
            RequestBody::Gemini(request) => RequestBodyView::Gemini(request@),
        }
    }
}

impl View for Header {
    type V = HeaderView;

    open spec fn view(&self) -> HeaderView {
        HeaderView { name: self.name@, value: self.value@ }
    }
}

impl View for ProviderRequest {
    type V = ProviderRequestView;

    open spec fn view(&self) -> ProviderRequestView {
        ProviderRequestView {
            url: self.url@,
            headers: Seq::new(self.headers@.len(), |i: int| self.headers@[i]@),
            body: self.body@,
        }
    }
}

impl View for OpenAiResponse {
    type V = Seq<ChatMessageView>;

    open spec fn view(&self) -> Seq<ChatMessageView> {
        Seq::new(self.choices@.len(), |i: int| self.choices@[i].message@)
    }
}

impl View for GeminiResponse {
    type V = Seq<Seq<Seq<char>>>;

    open spec fn view(&self) -> Seq<Seq<Seq<char>>> {
        Seq::new(self.candidates@.len(), |i: int| self.candidates@[i].content@)
    }
}

impl View for ProviderResponse {
    type V = ProviderResponseView;

    open spec fn view(&self) -> ProviderResponseView {
        match self {
            ProviderResponse::OpenAi(response) => ProviderResponseView::OpenAi(response@),
            ProviderResponse::Gemini(response) => ProviderResponseView::Gemini(response@),
        }
    }
}

/// The backend for a provider identifier: `gemini` selects the Gemini style, every other
/// identifier the OpenAI style.
pub open spec fn kind_of(provider: Seq<char>) -> ProviderKind {
    if provider == "gemini"@ {
        ProviderKind::Gemini
    } else {
        ProviderKind::OpenAi
    }
}

/// The instruction of the translate operation.
pub open spec fn translate_instruction() -> Seq<char> {
    "Translate the following text to English. If the text is already in English, keep it as is. Only return the translated text without any additional explanation:"@
}

/// The instruction given to the model: the configured prompt for polish, the fixed
/// instruction for translate.
pub open spec fn instruction_of(operation: Operation, s: SettingsView) -> Seq<char> {
    match operation {
        Operation::Polish => s.prompt,
        Operation::Translate => translate_instruction(),
    }
}

/// The sampling temperature of an operation, in tenths.
pub open spec fn temperature_of(operation: Operation) -> u32 {
    match operation {
        Operation::Polish => POLISH_TEMPERATURE_TENTHS,
        Operation::Translate => TRANSLATE_TEMPERATURE_TENTHS,
    }
}

/// The address of a chat-completions call.
pub open spec fn openai_url_of(base_url: Seq<char>) -> Seq<char> {
    base_url + "/chat/completions"@
}

/// The address of a content-generation call: a base that already names the generation
/// endpoint is used as it is, any other is extended by the model's endpoint; the key follows
/// as a query parameter.
pub open spec fn gemini_url_of(base_url: Seq<char>, model: Seq<char>, key: Seq<char>) -> Seq<
    char,
> {
    if occurs_in(base_url, "generateContent"@) {
        base_url + "?key="@ + key
    } else {
        base_url + "/v1beta/models/"@ + model + ":generateContent?key="@ + key
    }
}

/// The header that announces a JSON body.
pub open spec fn content_type_header() -> HeaderView {
    HeaderView { name: "Content-Type"@, value: "application/json"@ }
}

/// The header that carries a bearer credential.
pub open spec fn bearer_header(key: Seq<char>) -> HeaderView {
    HeaderView { name: "Authorization"@, value: "Bearer "@ + key }
}

/// The chat-completions request for `text` under `instruction`.
pub open spec fn openai_request_of(
    instruction: Seq<char>,
    text: Seq<char>,
    temperature_tenths: u32,
    s: SettingsView,
) -> ProviderRequestView {
    ProviderRequestView {
        url: openai_url_of(s.base_url),
        headers: seq![bearer_header(resolved_key(s)), content_type_header()],
        body: RequestBodyView::OpenAi(
            OpenAiRequestView {
                model: s.model,
                messages: seq![
                    ChatMessageView { role: "system"@, content: instruction },
                    ChatMessageView { role: "user"@, content: text },
                ],
                max_tokens: MAX_TOKENS,
                temperature_tenths: temperature_tenths,
            },
        ),
    }
}

/// The single prompt of a content-generation request.
pub open spec fn combined_prompt(instruction: Seq<char>, text: Seq<char>) -> Seq<char> {
    instruction + "\n\n"@ + text
}

/// The content-generation request for `text` under `instruction`.
pub open spec fn gemini_request_of(
    instruction: Seq<char>,
    text: Seq<char>,
    temperature_tenths: u32,
    s: SettingsView,
) -> ProviderRequestView {
    ProviderRequestView {
        url: gemini_url_of(s.base_url, s.model, resolved_key(s)),
        headers: seq![content_type_header()],
        body: RequestBodyView::Gemini(
            GeminiRequestView {
                contents: seq![seq![combined_prompt(instruction, text)]],
                generation_config: GeminiGenerationConfig {
                    temperature_tenths: temperature_tenths,
                    max_output_tokens: MAX_TOKENS,
                },
            },
        ),
    }
}

/// The request that performs `operation` on `text` with the active provider of `s`.
pub open spec fn request_of(operation: Operation, text: Seq<char>, s: SettingsView)
    -> ProviderRequestView {
    match kind_of(s.provider) {
        ProviderKind::OpenAi => openai_request_of(
            instruction_of(operation, s),
            text,
            temperature_of(operation),
            s,
        ),
        ProviderKind::Gemini => gemini_request_of(
            instruction_of(operation, s),
            text,
            temperature_of(operation),
            s,
        ),
    }
}

/// The statuses that count as success.
pub open spec fn successful(status: u16) -> bool {
    200 <= status <= 299
}

/// The backend whose shape a response has.
pub open spec fn shape_of(response: ProviderResponseView) -> ProviderKind {
    match response {
        ProviderResponseView::OpenAi(_) => ProviderKind::OpenAi,
        ProviderResponseView::Gemini(_) => ProviderKind::Gemini,
    }
}

/// The text of a chat-completions response: the trimmed content of the first choice's message.
pub open spec fn openai_text_of(choices: Seq<ChatMessageView>) -> Result<
    Seq<char>,
    TransformErrorView,
> {
    if choices.len() > 0 {
        Ok(trimmed(choices[0].content))
    } else {
        Err(TransformErrorView::EmptyResponse)
    }
}

/// The text of a content-generation response: the trimmed text of the first part of the first
/// candidate.
pub open spec fn gemini_text_of(candidates: Seq<Seq<Seq<char>>>) -> Result<
    Seq<char>,
    TransformErrorView,
> {
    if candidates.len() > 0 && candidates[0].len() > 0 {
        Ok(trimmed(candidates[0][0]))
    } else {
        Err(TransformErrorView::EmptyResponse)
    }
}

/// The text that a response carries, or the error where it carries none.
pub open spec fn text_of(response: ProviderResponseView) -> Result<Seq<char>, TransformErrorView> {
    match response {
        ProviderResponseView::OpenAi(choices) => openai_text_of(choices),
        ProviderResponseView::Gemini(candidates) => gemini_text_of(candidates),
    }
}

/// The mathematical content of the result of a transformation.
pub open spec fn result_view(r: Result<String, TransformError>) -> Result<
    Seq<char>,
    TransformErrorView,
> {
    match r {
        Ok(text) => Ok(text@),
        Err(error) => Err(error@),
    }
}

/// Selects the backend for a provider identifier.
pub fn provider_kind(provider: &str) -> (kind: ProviderKind)
    ensures
        kind == kind_of(provider@),
{
    if equal(provider, "gemini") {
        ProviderKind::Gemini
    } else {
        ProviderKind::OpenAi
    }
}

/// The instruction given to the model for `operation`.
pub fn instruction(operation: Operation, settings: &Settings) -> (text: String)
    ensures
        text@ == instruction_of(operation, settings@),
{
    match operation {
        Operation::Polish => settings.prompt.clone(),
        Operation::Translate =>
            "Translate the following text to English. If the text is already in English, keep it as is. Only return the translated text without any additional explanation:".to_owned(),
    }
}

/// The sampling temperature of `operation`, in tenths.
pub fn temperature_tenths(operation: Operation) -> (tenths: u32)
    ensures
        tenths == temperature_of(operation),
{
    match operation {
        Operation::Polish => POLISH_TEMPERATURE_TENTHS,
        Operation::Translate => TRANSLATE_TEMPERATURE_TENTHS,
    }
}

/// The address of a chat-completions call below `base_url`.
pub fn openai_url(base_url: &str) -> (url: String)
    ensures
        url@ == openai_url_of(base_url@),
{
    let mut url = base_url.to_owned();
    url.append("/chat/completions");
    url
}

/// The address of a content-generation call for `model` below `base_url`, with `key` as a
/// query parameter.
pub fn gemini_url(base_url: &str, model: &str, key: &str) -> (url: String)
    ensures
        url@ == gemini_url_of(base_url@, model@, key@),
{
    let mut url = base_url.to_owned();
    if contains(base_url, "generateContent") {
        url.append("?key=");
        url.append(key);
    } else {
        url.append("/v1beta/models/");
        url.append(model);
        url.append(":generateContent?key=");
        url.append(key);
    }
    url
}

/// Builds the chat-completions request for `text` under `instruction`.
pub fn openai_request(
    instruction: &str,
    text: &str,
    temperature_tenths: u32,
    settings: &Settings,
) -> (request: ProviderRequest)
    ensures
        request@ == openai_request_of(instruction@, text@, temperature_tenths, settings@),
{
    let key = settings.get_current_api_key();
    let mut bearer = "Bearer ".to_owned();
    bearer.append(key.as_str());
    let mut headers: Vec<Header> = Vec::new();
    headers.push(Header { name: "Authorization".to_owned(), value: bearer });
    headers.push(Header { name: "Content-Type".to_owned(), value: "application/json".to_owned() });
    let mut messages: Vec<ChatMessage> = Vec::new();
    messages.push(ChatMessage { role: "system".to_owned(), content: instruction.to_owned() });
    messages.push(ChatMessage { role: "user".to_owned(), content: text.to_owned() });
    let body = OpenAiRequest {
        model: settings.model.clone(),
        messages,
        max_tokens: MAX_TOKENS,
        temperature_tenths,
    };
    let request = ProviderRequest {
        url: openai_url(settings.base_url.as_str()),
        headers,
        body: RequestBody::OpenAi(body),
    };
    proof {
        let want = openai_request_of(instruction@, text@, temperature_tenths, settings@);
        assert(request@.headers =~= want.headers);
        assert(body@.messages =~= want.body->OpenAi_0.messages);
    }
    request
}

/// Builds the content-generation request for `text` under `instruction`.
pub fn gemini_request(
    instruction: &str,
    text: &str,
    temperature_tenths: u32,
    settings: &Settings,
) -> (request: ProviderRequest)
    ensures
        request@ == gemini_request_of(instruction@, text@, temperature_tenths, settings@),
{
    let mut prompt = instruction.to_owned();
    prompt.append("\n\n");
    prompt.append(text);
    let mut parts: Vec<GeminiPart> = Vec::new();
    parts.push(GeminiPart { text: prompt });
    let content = GeminiContent { parts };
    let mut contents: Vec<GeminiContent> = Vec::new();
    contents.push(content);
    let body = GeminiRequest {
        contents,
        generation_config: GeminiGenerationConfig {
            temperature_tenths,
            max_output_tokens: MAX_TOKENS,
        },
    };
    let key = settings.get_current_api_key();
    let mut headers: Vec<Header> = Vec::new();
    headers.push(Header { name: "Content-Type".to_owned(), value: "application/json".to_owned() });
    let request = ProviderRequest {
        url: gemini_url(settings.base_url.as_str(), settings.model.as_str(), key.as_str()),
        headers,
        body: RequestBody::Gemini(body),
    };
    proof {
        let want = gemini_request_of(instruction@, text@, temperature_tenths, settings@);
        assert(request@.headers =~= want.headers);
        assert(body.contents@[0]@ =~= seq![combined_prompt(instruction@, text@)]);
        assert(body@.contents =~= want.body->Gemini_0.contents);
    }
    request
}

/// Builds the request that performs `operation` on `text` with the active provider.
pub fn build_request(operation: Operation, text: &str, settings: &Settings) -> (request:
    ProviderRequest)
    ensures
        request@ == request_of(operation, text@, settings@),
{
    let instruction = instruction(operation, settings);
    let tenths = temperature_tenths(operation);
    match provider_kind(settings.provider.as_str()) {
        ProviderKind::OpenAi => openai_request(instruction.as_str(), text, tenths, settings),
        ProviderKind::Gemini => gemini_request(instruction.as_str(), text, tenths, settings),
    }
}

/// Builds the request that polishes `text`.
pub fn polish_request(text: &str, settings: &Settings) -> (request: ProviderRequest)
    ensures
        request@ == request_of(Operation::Polish, text@, settings@),
{
    build_request(Operation::Polish, text, settings)
}

/// Builds the request that translates `text`.
pub fn translate_request(text: &str, settings: &Settings) -> (request: ProviderRequest)
    ensures
        request@ == request_of(Operation::Translate, text@, settings@),
{
    build_request(Operation::Translate, text, settings)
}

/// Tells whether `status` counts as success.
pub fn is_success(status: u16) -> (ok: bool)
    ensures
        ok == successful(status),
{
    200 <= status && status <= 299
}

/// The backend whose shape `response` has.
pub fn response_shape(response: &ProviderResponse) -> (kind: ProviderKind)
    ensures
        kind == shape_of(response@),
{
    match response {
        ProviderResponse::OpenAi(_) => ProviderKind::OpenAi,
        ProviderResponse::Gemini(_) => ProviderKind::Gemini,
    }
}

/// Reads the text out of a chat-completions response.
pub fn extract_openai_text(response: &OpenAiResponse) -> (result: Result<String, TransformError>)
    ensures
        result_view(result) == openai_text_of(response@),
{
    if response.choices.len() > 0 {
        Ok(trim(response.choices[0].message.content.as_str()))
    } else {
        Err(TransformError::EmptyResponse)
    }
}

/// Reads the text out of a content-generation response.
pub fn extract_gemini_text(response: &GeminiResponse) -> (result: Result<String, TransformError>)
    ensures
        result_view(result) == gemini_text_of(response@),
{
    if response.candidates.len() > 0 && response.candidates[0].content.parts.len() > 0 {
        Ok(trim(response.candidates[0].content.parts[0].text.as_str()))
    } else {
        Err(TransformError::EmptyResponse)
    }
}

/// Reads the text out of a response.
pub fn extract_text(response: &ProviderResponse) -> (result: Result<String, TransformError>)
    ensures
        result_view(result) == text_of(response@),
{
    match response {
        ProviderResponse::OpenAi(response) => extract_openai_text(response),
        ProviderResponse::Gemini(response) => extract_gemini_text(response),
    }
}

/// The backend whose shape a request body has.
pub open spec fn body_shape_of(body: RequestBodyView) -> ProviderKind {
    match body {
        RequestBodyView::OpenAi(_) => ProviderKind::OpenAi,
        RequestBodyView::Gemini(_) => ProviderKind::Gemini,
    }
}

/// The provider identifier alone decides the shape of a request: neither the operation, nor
/// the text, nor any other setting does.
pub proof fn law_provider_alone_selects_backend(
    operation: Operation,
    text: Seq<char>,
    s: SettingsView,
)
    ensures
        body_shape_of(request_of(operation, text, s).body) == kind_of(s.provider),
        s.provider != "gemini"@ ==> kind_of(s.provider) == ProviderKind::OpenAi,
{
}

/// Every request asks for the same token cap and for the temperature of its operation.
pub proof fn law_generation_parameters(operation: Operation, text: Seq<char>, s: SettingsView)
    ensures
        match request_of(operation, text, s).body {
            RequestBodyView::OpenAi(body) => body.max_tokens == MAX_TOKENS
                && body.temperature_tenths == temperature_of(operation),
            RequestBodyView::Gemini(body) => body.generation_config.max_output_tokens
                == MAX_TOKENS && body.generation_config.temperature_tenths == temperature_of(
                operation,
            ),
        },
{
}

} // verus!
