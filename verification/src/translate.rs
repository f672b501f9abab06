//! The translation client's two computations: the request that asks for a
//! translation, and the reading of the reply.
//!
//! Sending is left to the caller, who hands the reply back as its status
//! code and body text.

use crate::config::{Config, ConfigView};
use crate::json::{
    as_text, distinct_keys, element, encode, json_compact, json_parsed, json_view, member,
    members_of, new_array, new_object, new_text, parse, JsonView,
};
use vstd::prelude::*;

verus! {

/// One header line of a request.
#[derive(Clone, Debug, PartialEq, Eq)]
pub struct Header {
    pub name: String,
    pub value: String,
}

/// What a [`Header`] holds.
#[verifier::ext_equal]
pub struct HeaderView {
    pub name: Seq<char>,
    pub value: Seq<char>,
}

impl View for Header {
    type V = HeaderView;

    open spec fn view(&self) -> HeaderView {
        HeaderView { name: self.name@, value: self.value@ }
    }
}

/// How a request is made.
#[derive(Clone, Copy, Debug, PartialEq, Eq)]
pub enum Method {
    Post,
}

/// A request to the chat-completion service.
#[derive(Debug, PartialEq, Eq)]
pub struct HttpRequest {
    pub method: Method,
    pub url: String,
    pub headers: Vec<Header>,
    pub body: serde_json::Value,
}

/// What an [`HttpRequest`] holds.
#[verifier::ext_equal]
pub struct HttpRequestView {
    pub method: Method,
    pub url: Seq<char>,
    pub headers: Seq<HeaderView>,
    pub body: JsonView,
}

impl View for HttpRequest {
    type V = HttpRequestView;

    open spec fn view(&self) -> HttpRequestView {
        HttpRequestView {
            method: self.method,
            url: self.url@,
            headers: self.headers@.map_values(|header: Header| header@),
            body: json_view(self.body),
        }
    }
}

/// The service's reply: its status code and the text of its body.
#[derive(Clone, Debug, PartialEq, Eq)]
pub struct HttpResponse {
    pub status: u16,
    pub body: String,
}

/// What an [`HttpResponse`] holds.
pub struct HttpResponseView {
    pub status: u16,
    pub body: Seq<char>,
}

impl View for HttpResponse {
    type V = HttpResponseView;

    open spec fn view(&self) -> HttpResponseView {
        HttpResponseView { status: self.status, body: self.body@ }
    }
}

/// The single user message: the prompt, one blank line, then the text as it
/// is.
pub open spec fn full_prompt(prompt: Seq<char>, text: Seq<char>) -> Seq<char> {
    prompt + "\n\n"@ + text
}

/// The address that requests go to.
pub open spec fn endpoint(api_url: Seq<char>) -> Seq<char> {
    api_url + "/chat/completions"@
}

/// The header that announces a JSON body.
pub open spec fn content_type() -> HeaderView {
    HeaderView { name: "Content-Type"@, value: "application/json"@ }
}

/// The header that carries the bearer token.
pub open spec fn authorization(api_key: Seq<char>) -> HeaderView {
    HeaderView { name: "Authorization"@, value: "Bearer "@ + api_key }
}

/// The headers of a request: the content type, and the authorization only
/// where there is a key.
pub open spec fn headers_for(api_key: Seq<char>) -> Seq<HeaderView> {
    if api_key.len() == 0 {
        seq![content_type()]
    } else {
        seq![content_type(), authorization(api_key)]
    }
}

/// The one message of a request body.
pub open spec fn user_message(content: Seq<char>) -> JsonView {
    JsonView::Object(
        map![
            "role"@ => JsonView::Text("user"@),
            "content"@ => JsonView::Text(content),
        ],
    )
}

/// The body of a request: the model's name and a list of one user message.
pub open spec fn chat_body(model: Seq<char>, content: Seq<char>) -> JsonView {
    JsonView::Object(
        map![
            "model"@ => JsonView::Text(model),
            "messages"@ => JsonView::Array(seq![user_message(content)]),
        ],
    )
}

/// The request that asks for a translation of `text` under `config`: a
/// `POST` to the endpoint, with the headers and the body described above.
pub open spec fn request_for(config: ConfigView, text: Seq<char>) -> HttpRequestView {
    HttpRequestView {
        method: Method::Post,
        url: endpoint(config.api_url),
        headers: headers_for(config.api_key),
        body: chat_body(config.model, full_prompt(config.prompt, text)),
    }
}

/// The translated text in a reply document: the string at
/// `choices[0].message.content`, if there is one.
pub open spec fn translation_in(document: JsonView) -> Option<Seq<char>> {
    document.member("choices"@).element(0).member("message"@).member("content"@).text()
}

/// Whether a status code reports success.
pub open spec fn is_success(status: u16) -> bool {
    200 <= status < 300
}

/// The translated text that a reply carries. There is none where the status
/// is no success, where the body is no JSON document, and where the document
/// lacks the string.
pub open spec fn translation_of(response: HttpResponseView) -> Option<Seq<char>> {
    if is_success(response.status) {
        match json_parsed(response.body) {
            Some(document) => translation_in(document),
            None => None,
        }
    } else {
        None
    }
}

/// The headers for a given key.
fn build_headers(api_key: &str) -> (headers: Vec<Header>)
    ensures
        headers@.map_values(|header: Header| header@) == headers_for(api_key@),
{
    let mut headers: Vec<Header> = Vec::new();
    headers.push(
        Header { name: "Content-Type".to_string(), value: "application/json".to_string() },
    );
    if !api_key.is_empty() {
        headers.push(
            Header {
                name: "Authorization".to_string(),
                value: "Bearer ".to_string().concat(api_key),
            },
        );
    }
    assert(headers@.map_values(|header: Header| header@) =~= headers_for(api_key@));
    headers
}

/// The message object for a given content.
fn build_message(content: String) -> (message: serde_json::Value)
    ensures
        json_view(message) == user_message(content@),
{
    let mut fields: Vec<(String, serde_json::Value)> = Vec::new();
    fields.push(("role".to_string(), new_text("user".to_string())));
    fields.push(("content".to_string(), new_text(content)));
    proof {
        reveal_strlit("role");
        reveal_strlit("content");
        assert(fields@[0].0@ == "role"@);
        assert(fields@[1].0@ == "content"@);
        assert("role"@.len() != "content"@.len());
        assert(distinct_keys(fields@));
    }
    let message = new_object(fields);
    proof {
        assert(members_of(fields@) =~= user_message(content@)->Object_0);
    }
    message
}

/// The request body for a given model and message content.
fn build_body(model: &str, content: String) -> (body: serde_json::Value)
    ensures
        json_view(body) == chat_body(model@, content@),
{
    let message = build_message(content);
    let mut messages: Vec<serde_json::Value> = Vec::new();
    messages.push(message);
    let list = new_array(messages);
    proof {
        assert(messages@.map_values(|element: serde_json::Value| json_view(element)) =~= seq![
            user_message(content@),
        ]);
    }
    let mut fields: Vec<(String, serde_json::Value)> = Vec::new();
    fields.push(("model".to_string(), new_text(model.to_string())));
    fields.push(("messages".to_string(), list));
    proof {
        reveal_strlit("model");
        reveal_strlit("messages");
        assert(fields@[0].0@ == "model"@);
        assert(fields@[1].0@ == "messages"@);
        assert("model"@.len() != "messages"@.len());
        assert(distinct_keys(fields@));
    }
    let body = new_object(fields);
    proof {
        assert(members_of(fields@) =~= chat_body(model@, content@)->Object_0);
    }
    body
}

/// Composes the request that asks for a translation of `text`.
///
/// An empty text is never sent: it gives `None`. Every other text gives the
/// request whose single user message is the configured prompt, one blank
/// line and the text; the authorization header is there only where the
/// configuration has a key.
pub fn build_request(text: &str, config: &Config) -> (request: Option<HttpRequest>)
    ensures
        match request {
            Some(composed) => text@.len() > 0 && composed@ == request_for(config@, text@),
            None => text@.len() == 0,
        },
{
    if text.is_empty() {
        return None;
    }
    let content = config.prompt.clone().concat("\n\n").concat(text);
    let url = config.api_url.clone().concat("/chat/completions");
    let headers = build_headers(config.api_key.as_str());
    let body = build_body(config.model.as_str(), content);
    let composed = HttpRequest { method: Method::Post, url, headers, body };
    assert(composed@ =~= request_for(config@, text@));
    Some(composed)
}

impl HttpRequest {
    /// The body as compact JSON text; `None` where the serializer fails.
    pub fn body_text(&self) -> (text: Option<String>)
        ensures
            text.deep_view() == json_compact(self.body),
    {
        match encode(&self.body) {
            Ok(text) => Some(text),
            Err(_) => None,
        }
    }
}

/// Finds the translated text in a reply document: the string at
/// `choices[0].message.content`. `None` where any step of that path is
/// missing or the value at its end is no string.
pub fn find_translation(document: &serde_json::Value) -> (found: Option<String>)
    ensures
        found.deep_view() == translation_in(json_view(*document)),
{
    let choices = member(document, "choices");
    let first = element(choices, 0);
    let message = member(first, "message");
    let content = member(message, "content");
    match as_text(content) {
        Some(characters) => Some(characters.to_string()),
        None => None,
    }
}

/// Reads the translated text out of a reply. `None` where the status is
/// outside 200..=299, the body is no JSON document, or the document lacks
/// the string.
pub fn read_response(response: &HttpResponse) -> (found: Option<String>)
    ensures
        found.deep_view() == translation_of(response@),
{
    if response.status < 200 || response.status >= 300 {
        return None;
    }
    match parse(response.body.as_str()) {
        Ok(document) => find_translation(&document),
        Err(_) => None,
    }
}

/// The user message begins with the whole prompt, goes on with exactly two
/// line feeds, and ends with the whole text, whatever the two hold.
pub proof fn law_prompt_then_blank_line_then_text(prompt: Seq<char>, text: Seq<char>)
    ensures
        full_prompt(prompt, text).len() == prompt.len() + 2 + text.len(),
        full_prompt(prompt, text).subrange(0, prompt.len() as int) == prompt,
        full_prompt(prompt, text)[prompt.len() as int] == '\n',
        full_prompt(prompt, text)[prompt.len() as int + 1] == '\n',
        full_prompt(prompt, text).subrange(
            prompt.len() as int + 2,
            full_prompt(prompt, text).len() as int,
        ) == text,
{
    reveal_strlit("\n\n");
    assert(full_prompt(prompt, text).subrange(0, prompt.len() as int) =~= prompt);
    assert(full_prompt(prompt, text).subrange(
        prompt.len() as int + 2,
        full_prompt(prompt, text).len() as int,
    ) =~= text);
}

/// The body of a request has the model under `model` and, under `messages`,
/// a list of exactly one message, whose `role` is `user` and whose `content`
/// is the given content.
pub proof fn law_body_carries_model_and_message(model: Seq<char>, content: Seq<char>)
    ensures
        chat_body(model, content).member("model"@) == JsonView::Text(model),
        chat_body(model, content).member("messages"@) matches JsonView::Array(messages)
            && messages.len() == 1,
        chat_body(model, content).member("messages"@).element(0).member("role"@)
            == JsonView::Text("user"@),
        chat_body(model, content).member("messages"@).element(0).member("content"@)
            == JsonView::Text(content),
{
    reveal_strlit("model");
    reveal_strlit("messages");
    reveal_strlit("role");
    reveal_strlit("content");
    assert("model"@.len() != "messages"@.len());
    assert("role"@.len() != "content"@.len());
}

/// Without a key no header of the request is named `Authorization`; with a
/// key exactly the second one is, and its value is `Bearer `, then the key.
pub proof fn law_authorization_only_with_key(config: ConfigView, text: Seq<char>)
    ensures
        config.api_key.len() == 0 ==> forall|i: int|
            0 <= i < request_for(config, text).headers.len() ==> (#[trigger] request_for(
                config,
                text,
            ).headers[i]).name != "Authorization"@,
        config.api_key.len() > 0 ==> {
            &&& request_for(config, text).headers.len() == 2
            &&& request_for(config, text).headers[0].name != "Authorization"@
            &&& request_for(config, text).headers[1] == authorization(config.api_key)
        },
{
    reveal_strlit("Authorization");
    reveal_strlit("Content-Type");
    assert("Authorization"@.len() != "Content-Type"@.len());
}

/// A reply document carries a translation exactly when it is an object whose
/// `choices` is a non-empty array, whose first element is an object whose
/// `message` is an object whose `content` is a string: that string.
pub proof fn law_translation_needs_the_whole_path(document: JsonView, translation: Seq<char>)
    ensures
        translation_in(document) == Some(translation) <==> {
            &&& document matches JsonView::Object(top)
            &&& top.contains_key("choices"@)
            &&& top["choices"@] matches JsonView::Array(choices)
            &&& choices.len() > 0
            &&& choices[0] matches JsonView::Object(choice)
            &&& choice.contains_key("message"@)
            &&& choice["message"@] matches JsonView::Object(message)
            &&& message.contains_key("content"@)
            &&& message["content"@] == JsonView::Text(translation)
        },
{
}

} // verus!
