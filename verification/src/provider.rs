//! What is asked of a provider, and what its answer means.
//!
//! The caller sends the request and hands back the status and the body.
//! Which address is called, with which credential and which body, and how
//! the answer is read, is decided here. There are two shapes of exchange: a
//! chat endpoint on the local network, and a hosted chat-completion
//! endpoint.

use vstd::prelude::*;
use crate::config::{provider_named, AppConfig, Provider};
use crate::document::{image_ext, is_image_ext, lower_extension, lower_extension_of};
use crate::json::{json_text, text_at};
use crate::text::{
    chars_of, decimal, is_str, opt_text, owned, push_decimal, push_str, string_of, trim_end,
    trim_end_of, CharClass,
};

verus! {

/// The number of tokens that the local provider may predict.
pub const NUM_PREDICT: u32 = 80;

/// The body of a chat request. The caller writes it out as JSON.
#[derive(Debug, PartialEq, Eq)]
pub enum ChatBody {
    /// Local shape: `model`, one user message with `prompt` as content,
    /// `stream`, and `options.num_predict`.
    LocalText { model: String, prompt: String, stream: bool, num_predict: u32 },
    /// Local shape with an image: the user message has `prompt` as content
    /// and the image, in base64, as the one element of `images`; `stream` is
    /// false.
    LocalVision { model: String, prompt: String, image_base64: String },
    /// Hosted shape, one answer: `model`, one user message, and a response
    /// format that demands an object with the one string field `filename`.
    HostedSchema { model: String, prompt: String },
    /// Hosted shape, streamed: `model`, one user message, `stream` true.
    HostedStream { model: String, prompt: String },
    /// Hosted shape with an image: the user message has two parts, the text
    /// `prompt` and the image as a data URL, at detail `low`.
    HostedVision { model: String, prompt: String, image_url: String },
}

/// The view of a body.
pub enum ChatBodyView {
    LocalText { model: Seq<char>, prompt: Seq<char>, stream: bool, num_predict: nat },
    LocalVision { model: Seq<char>, prompt: Seq<char>, image_base64: Seq<char> },
    HostedSchema { model: Seq<char>, prompt: Seq<char> },
    HostedStream { model: Seq<char>, prompt: Seq<char> },
    HostedVision { model: Seq<char>, prompt: Seq<char>, image_url: Seq<char> },
}

impl View for ChatBody {
    type V = ChatBodyView;

    open spec fn view(&self) -> ChatBodyView {
        match self {
            ChatBody::LocalText { model, prompt, stream, num_predict } => ChatBodyView::LocalText {
                model: model@,
                prompt: prompt@,
                stream: *stream,
                num_predict: *num_predict as nat,
            },
            ChatBody::LocalVision { model, prompt, image_base64 } => ChatBodyView::LocalVision {
                model: model@,
                prompt: prompt@,
                image_base64: image_base64@,
            },
            ChatBody::HostedSchema { model, prompt } => ChatBodyView::HostedSchema {
                model: model@,
                prompt: prompt@,
            },
            ChatBody::HostedStream { model, prompt } => ChatBodyView::HostedStream {
                model: model@,
                prompt: prompt@,
            },
            ChatBody::HostedVision { model, prompt, image_url } => ChatBodyView::HostedVision {
                model: model@,
                prompt: prompt@,
                image_url: image_url@,
            },
        }
    }
}

/// The backend that a request goes to, by which its errors are named.
#[derive(Clone, Copy, Debug, PartialEq, Eq, Structural)]
pub enum Backend {
    /// The local provider, asked with text.
    Ollama,
    /// The hosted provider, asked with text.
    Api,
    /// A hosted vision model.
    Vlm,
    /// The local provider, asked with an image.
    OllamaVlm,
}

/// A request to post: the address, the bearer credential if one is sent, and
/// the body.
#[derive(Debug, PartialEq, Eq)]
pub struct ChatRequest {
    pub backend: Backend,
    pub url: String,
    pub bearer: Option<String>,
    pub body: ChatBody,
}

/// The view of a request.
pub struct ChatRequestView {
    pub backend: Backend,
    pub url: Seq<char>,
    pub bearer: Option<Seq<char>>,
    pub body: ChatBodyView,
}

impl View for ChatRequest {
    type V = ChatRequestView;

    open spec fn view(&self) -> ChatRequestView {
        ChatRequestView {
            backend: self.backend,
            url: self.url@,
            bearer: opt_text(self.bearer),
            body: self.body@,
        }
    }
}

/// The address `base`, without the slashes at its end, followed by `path`.
pub open spec fn endpoint(base: Seq<char>, path: Seq<char>) -> Seq<char> {
    trim_end_of(base, CharClass::One('/')) + path
}

/// The address `base`, without the slashes at its end, followed by `path`.
pub fn endpoint_for(base: &str, path: &str) -> (r: String)
    ensures
        r@ == endpoint(base@, path@),
{
    let chars = chars_of(base);
    let mut out = trim_end(&chars, CharClass::One('/'));
    push_str(&mut out, path);
    string_of(&out)
}

/// What a configuration holds, as far as requests read it.
pub struct Endpoints {
    pub provider: Provider,
    pub ollama_url: Seq<char>,
    pub ollama_model: Seq<char>,
    pub openai_key: Seq<char>,
    pub openai_model: Seq<char>,
    pub openai_base_url: Seq<char>,
    pub vlm_same_as_llm: bool,
    pub vlm_base_url: Seq<char>,
    pub vlm_key: Seq<char>,
    pub vlm_model: Seq<char>,
}

/// The endpoints of a configuration.
pub open spec fn endpoints(config: &AppConfig) -> Endpoints {
    Endpoints {
        provider: provider_named(config.provider@),
        ollama_url: config.ollama_url@,
        ollama_model: config.ollama_model@,
        openai_key: config.openai_key@,
        openai_model: config.openai_model@,
        openai_base_url: config.openai_base_url@,
        vlm_same_as_llm: config.vlm_same_as_llm,
        vlm_base_url: config.vlm_base_url@,
        vlm_key: config.vlm_key@,
        vlm_model: config.vlm_model@,
    }
}

/// The request that asks the local provider for a name, with `prompt`,
/// streamed or not.
pub open spec fn local_request_of(prompt: Seq<char>, e: Endpoints, stream: bool) -> ChatRequestView {
    ChatRequestView {
        backend: Backend::Ollama,
        url: endpoint(e.ollama_url, "/api/chat"@),
        bearer: None,
        body: ChatBodyView::LocalText {
            model: e.ollama_model,
            prompt,
            stream,
            num_predict: NUM_PREDICT as nat,
        },
    }
}

/// The request that asks the hosted provider for a name, with `prompt`,
/// streamed or not.
pub open spec fn hosted_request_of(prompt: Seq<char>, e: Endpoints, stream: bool) -> ChatRequestView {
    ChatRequestView {
        backend: Backend::Api,
        url: endpoint(e.openai_base_url, "/chat/completions"@),
        bearer: Some(e.openai_key),
        body: if stream {
            ChatBodyView::HostedStream { model: e.openai_model, prompt }
        } else {
            ChatBodyView::HostedSchema { model: e.openai_model, prompt }
        },
    }
}

/// The request that asks the configured provider for a name, with `prompt`,
/// streamed or not.
pub open spec fn text_request_of(prompt: Seq<char>, e: Endpoints, stream: bool) -> ChatRequestView {
    match e.provider {
        Provider::Hosted => hosted_request_of(prompt, e, stream),
        Provider::Local => local_request_of(prompt, e, stream),
    }
}

/// The request that asks the local provider for a name.
pub fn local_request(prompt: &str, config: &AppConfig, stream: bool) -> (r: ChatRequest)
    ensures
        r@ == local_request_of(prompt@, endpoints(config), stream),
{
    ChatRequest {
        backend: Backend::Ollama,
        url: endpoint_for(config.ollama_url.as_str(), "/api/chat"),
        bearer: None,
        body: ChatBody::LocalText {
            model: config.ollama_model.clone(),
            prompt: owned(prompt),
            stream,
            num_predict: NUM_PREDICT,
        },
    }
}

/// The request that asks the hosted provider for a name.
pub fn hosted_request(prompt: &str, config: &AppConfig, stream: bool) -> (r: ChatRequest)
    ensures
        r@ == hosted_request_of(prompt@, endpoints(config), stream),
{
    ChatRequest {
        backend: Backend::Api,
        url: endpoint_for(config.openai_base_url.as_str(), "/chat/completions"),
        bearer: Some(config.openai_key.clone()),
        body: if stream {
            ChatBody::HostedStream { model: config.openai_model.clone(), prompt: owned(prompt) }
        } else {
            ChatBody::HostedSchema { model: config.openai_model.clone(), prompt: owned(prompt) }
        },
    }
}

/// The request that asks the configured provider for a name.
pub fn text_request(prompt: &str, config: &AppConfig, stream: bool) -> (r: ChatRequest)
    ensures
        r@ == text_request_of(prompt@, endpoints(config), stream),
{
    match config.provider() {
        Provider::Hosted => hosted_request(prompt, config, stream),
        Provider::Local => local_request(prompt, config, stream),
    }
}

/// The data URL of an image of type `mime` whose bytes are `image_base64` in
/// base64.
pub open spec fn data_url(mime: Seq<char>, image_base64: Seq<char>) -> Seq<char> {
    "data:"@ + mime + ";base64,"@ + image_base64
}

/// The request in the hosted shape that shows an image to the model `model`
/// at `base`.
pub open spec fn hosted_vision_of(
    prompt: Seq<char>,
    image_base64: Seq<char>,
    mime: Seq<char>,
    base: Seq<char>,
    key: Seq<char>,
    model: Seq<char>,
) -> ChatRequestView {
    ChatRequestView {
        backend: Backend::Vlm,
        url: endpoint(base, "/chat/completions"@),
        bearer: Some(key),
        body: ChatBodyView::HostedVision { model, prompt, image_url: data_url(mime, image_base64) },
    }
}

/// The request that shows an image to the vision model. A vision model with
/// settings of its own is asked in the hosted shape. One that shares the
/// settings of the language model is asked as that provider is: the hosted
/// one in the hosted shape, the local one in the local shape, which takes
/// the image beside the message and has no use for its type.
pub open spec fn vision_request_of(
    prompt: Seq<char>,
    image_base64: Seq<char>,
    mime: Seq<char>,
    e: Endpoints,
) -> ChatRequestView {
    if !e.vlm_same_as_llm {
        hosted_vision_of(prompt, image_base64, mime, e.vlm_base_url, e.vlm_key, e.vlm_model)
    } else {
        match e.provider {
            Provider::Hosted => hosted_vision_of(
                prompt,
                image_base64,
                mime,
                e.openai_base_url,
                e.openai_key,
                e.openai_model,
            ),
            Provider::Local => ChatRequestView {
                backend: Backend::OllamaVlm,
                url: endpoint(e.ollama_url, "/api/chat"@),
                bearer: None,
                body: ChatBodyView::LocalVision { model: e.ollama_model, prompt, image_base64 },
            },
        }
    }
}

/// Builds a request in the hosted shape that shows an image.
fn hosted_vision(
    prompt: &str,
    image_base64: &str,
    mime: &str,
    base: &str,
    key: &String,
    model: &String,
) -> (r: ChatRequest)
    ensures
        r@ == hosted_vision_of(prompt@, image_base64@, mime@, base@, key@, model@),
{
    let mut url = chars_of("data:");
    push_str(&mut url, mime);
    push_str(&mut url, ";base64,");
    push_str(&mut url, image_base64);
    ChatRequest {
        backend: Backend::Vlm,
        url: endpoint_for(base, "/chat/completions"),
        bearer: Some(key.clone()),
        body: ChatBody::HostedVision {
            model: model.clone(),
            prompt: owned(prompt),
            image_url: string_of(&url),
        },
    }
}

/// The request that shows an image to the vision model.
pub fn vision_request(prompt: &str, image_base64: &str, mime: &str, config: &AppConfig) -> (r:
    ChatRequest)
    ensures
        r@ == vision_request_of(prompt@, image_base64@, mime@, endpoints(config)),
{
    if !config.vlm_same_as_llm {
        hosted_vision(
            prompt,
            image_base64,
            mime,
            config.vlm_base_url.as_str(),
            &config.vlm_key,
            &config.vlm_model,
        )
    } else {
        match config.provider() {
            Provider::Hosted => hosted_vision(
                prompt,
                image_base64,
                mime,
                config.openai_base_url.as_str(),
                &config.openai_key,
                &config.openai_model,
            ),
            Provider::Local => ChatRequest {
                backend: Backend::OllamaVlm,
                url: endpoint_for(config.ollama_url.as_str(), "/api/chat"),
                bearer: None,
                body: ChatBody::LocalVision {
                    model: config.ollama_model.clone(),
                    prompt: owned(prompt),
                    image_base64: owned(image_base64),
                },
            },
        }
    }
}

/// Exactly one provider answers a request for a name from text: the request
/// goes to the hosted one if and only if the configuration names it, and it
/// carries a credential if and only if it goes there.
pub proof fn lemma_one_provider(prompt: Seq<char>, e: Endpoints, stream: bool)
    ensures
        text_request_of(prompt, e, stream).backend == Backend::Api <==> e.provider
            == Provider::Hosted,
        text_request_of(prompt, e, stream).backend == Backend::Ollama <==> e.provider
            == Provider::Local,
        text_request_of(prompt, e, stream).bearer is Some <==> e.provider == Provider::Hosted,
{
}

/// The type of an image by its lower-case extension; JPEG for anything
/// unknown.
pub open spec fn mime_of(ext: Seq<char>) -> Seq<char> {
    if ext == "png"@ {
        "image/png"@
    } else if ext == "heic"@ {
        "image/heic"@
    } else if ext == "webp"@ {
        "image/webp"@
    } else if ext == "tiff"@ {
        "image/tiff"@
    } else {
        "image/jpeg"@
    }
}

/// The type of an image by its lower-case extension.
pub fn mime_for(ext: &str) -> (r: &'static str)
    ensures
        r@ == mime_of(ext@),
{
    let chars = chars_of(ext);
    if is_str(&chars, "png") {
        "image/png"
    } else if is_str(&chars, "heic") {
        "image/heic"
    } else if is_str(&chars, "webp") {
        "image/webp"
    } else if is_str(&chars, "tiff") {
        "image/tiff"
    } else {
        "image/jpeg"
    }
}

/// What the `base64` crate writes for `bytes` with its standard engine: the
/// standard alphabet, with padding.
pub uninterp spec fn base64_of(bytes: Seq<u8>) -> Seq<char>;

/// `Engine::encode` of `base64::engine::general_purpose::STANDARD`. It panics
/// where the length of the output overflows, which the bound on the input
/// excludes. The output depends on the bytes alone.
#[verifier::external_body]
pub(crate) fn base64_standard(bytes: &[u8]) -> (r: String)
    requires
        bytes@.len() <= usize::MAX / 4,
    ensures
        r@ == base64_of(bytes@),
{
    base64::Engine::encode(&base64::engine::general_purpose::STANDARD, bytes)
}

/// An image as a vision request takes it: its bytes in base64, and its type.
#[derive(Debug, PartialEq, Eq)]
pub struct ImagePayload {
    pub base64: String,
    pub mime: &'static str,
}

/// The image `bytes` of the file at `path`, as a vision request takes it.
pub fn image_payload(path: &str, bytes: &[u8]) -> (r: ImagePayload)
    requires
        bytes@.len() <= usize::MAX / 4,
    ensures
        r.base64@ == base64_of(bytes@),
        r.mime@ == mime_of(lower_extension_of(path@)),
{
    let ext = lower_extension(path);
    let ext_text = string_of(&ext);
    ImagePayload { base64: base64_standard(bytes), mime: mime_for(ext_text.as_str()) }
}

/// The image `bytes` of the file at `path`, as a vision request takes it;
/// nothing for an image too large to encode.
pub fn image_payload_checked(path: &str, bytes: &[u8]) -> (r: Option<ImagePayload>)
    ensures
        r is Some <==> bytes@.len() <= usize::MAX / 4,
        r matches Some(p) ==> p.base64@ == base64_of(bytes@) && p.mime@ == mime_of(
            lower_extension_of(path@),
        ),
{
    if bytes.len() <= usize::MAX / 4 {
        Some(image_payload(path, bytes))
    } else {
        None
    }
}

/// Whether the vision model is asked first: it must be enabled, and the file
/// must be known and an image.
pub fn tries_vision(config: &AppConfig, file_path: Option<&str>) -> (r: bool)
    ensures
        r == (config.vlm_enabled && file_path is Some && image_ext(
            lower_extension_of(file_path->0@),
        )),
{
    if !config.vlm_enabled {
        return false;
    }
    match file_path {
        None => false,
        Some(path) => {
            let ext = lower_extension(path);
            is_image_ext(&ext)
        },
    }
}

/// Why a provider's answer gave no name.
#[derive(Clone, Copy, Debug, PartialEq, Eq, Structural)]
pub enum ReplyFault {
    /// The status is not a success. Detail: the status, a colon, the body.
    Rejected,
    /// The body is no document, or lacks the answer.
    BadResponse,
}

/// A provider's answer that gave no name.
#[derive(Debug, PartialEq, Eq)]
pub struct ReplyError {
    pub backend: Backend,
    pub kind: ReplyFault,
    pub detail: String,
}

impl View for ReplyError {
    type V = (Backend, ReplyFault, Seq<char>);

    open spec fn view(&self) -> (Backend, ReplyFault, Seq<char>) {
        (self.backend, self.kind, self.detail@)
    }
}

/// The name by which a backend is called in messages.
pub open spec fn backend_label(backend: Backend) -> Seq<char> {
    match backend {
        Backend::Ollama => "Ollama"@,
        Backend::Api => "API"@,
        Backend::Vlm => "VLM"@,
        Backend::OllamaVlm => "Ollama VLM"@,
    }
}

/// What a message says of a fault, after the backend's name.
pub open spec fn fault_text(kind: ReplyFault) -> Seq<char> {
    match kind {
        ReplyFault::Rejected => " 请求失败 "@,
        ReplyFault::BadResponse => " 响应格式错误"@,
    }
}

impl ReplyError {
    /// The message for a user: the backend, the fault, the detail.
    pub fn message(&self) -> (m: String)
        ensures
            m@ == backend_label(self.backend) + fault_text(self.kind) + self.detail@,
    {
        let mut out = match self.backend {
            Backend::Ollama => chars_of("Ollama"),
            Backend::Api => chars_of("API"),
            Backend::Vlm => chars_of("VLM"),
            Backend::OllamaVlm => chars_of("Ollama VLM"),
        };
        match self.kind {
            ReplyFault::Rejected => {
                push_str(&mut out, " 请求失败 ");
            },
            ReplyFault::BadResponse => {
                push_str(&mut out, " 响应格式错误");
            },
        }
        push_str(&mut out, self.detail.as_str());
        string_of(&out)
    }
}

/// Whether a status is a success.
pub open spec fn success(status: u16) -> bool {
    200 <= status <= 299
}

/// Whether `status` is a success.
pub fn is_success(status: u16) -> (r: bool)
    ensures
        r == success(status),
{
    200 <= status && status <= 299
}

/// The place of the answer in the body that a backend returns.
pub open spec fn answer_pointer(backend: Backend) -> Seq<char> {
    match backend {
        Backend::Ollama => "/message/content"@,
        Backend::OllamaVlm => "/message/content"@,
        Backend::Api => "/choices/0/message/content"@,
        Backend::Vlm => "/choices/0/message/content"@,
    }
}

/// The place of the answer in the body that `backend` returns.
pub fn answer_place(backend: Backend) -> (r: &'static str)
    ensures
        r@ == answer_pointer(backend),
{
    match backend {
        Backend::Ollama => "/message/content",
        Backend::OllamaVlm => "/message/content",
        Backend::Api => "/choices/0/message/content",
        Backend::Vlm => "/choices/0/message/content",
    }
}

/// The view of what reading an answer gave.
pub open spec fn reply_view(r: Result<String, ReplyError>) -> Result<
    Seq<char>,
    (Backend, ReplyFault, Seq<char>),
> {
    match r {
        Ok(s) => Ok(s@),
        Err(e) => Err(e@),
    }
}

/// What an answer means, given the status, the body, the string `content`
/// found at the answer's place in the body, and the string `filename` found
/// at `/filename` in that content read as a document of its own. An answer
/// whose status is no success is rejected, with status and body. A body
/// without a string at the answer's place is a bad response. The hosted
/// provider answers with an object that holds the name as `filename`; where
/// its content is no such object, the content itself is the answer, as it
/// always is for the other backends.
pub open spec fn reply_from(
    backend: Backend,
    status: u16,
    body: Seq<char>,
    content: Option<Seq<char>>,
    filename: Option<Seq<char>>,
) -> Result<Seq<char>, (Backend, ReplyFault, Seq<char>)> {
    if !success(status) {
        Err((backend, ReplyFault::Rejected, decimal(status as nat) + ": "@ + body))
    } else {
        match content {
            None => Err((backend, ReplyFault::BadResponse, Seq::empty())),
            Some(c) => if backend == Backend::Api && filename is Some {
                Ok(filename->0)
            } else {
                Ok(c)
            },
        }
    }
}

/// What an answer means, given what was found in its body: see
/// `reply_from`.
pub fn interpret_reply(
    backend: Backend,
    status: u16,
    body: &str,
    content: Option<String>,
    filename: Option<String>,
) -> (r: Result<String, ReplyError>)
    ensures
        reply_view(r) == reply_from(backend, status, body@, opt_text(content), opt_text(filename)),
{
    if !is_success(status) {
        let mut detail: Vec<char> = Vec::new();
        push_decimal(&mut detail, status as u64);
        push_str(&mut detail, ": ");
        push_str(&mut detail, body);
        return Err(ReplyError { backend, kind: ReplyFault::Rejected, detail: string_of(&detail) });
    }
    match content {
        None => Err(ReplyError { backend, kind: ReplyFault::BadResponse, detail: String::new() }),
        Some(c) => {
            match backend {
                Backend::Api => match filename {
                    Some(f) => Ok(f),
                    None => Ok(c),
                },
                _ => Ok(c),
            }
        },
    }
}

/// The refusal that an answer is, if its status is no success. A stream is
/// read only from an answer that is none.
pub fn refusal(backend: Backend, status: u16, body: &str) -> (r: Option<ReplyError>)
    ensures
        r is Some <==> !success(status),
        r matches Some(e) ==> e@ == (
            backend,
            ReplyFault::Rejected,
            decimal(status as nat) + ": "@ + body@,
        ),
{
    match interpret_reply(backend, status, body, None, None) {
        Err(e) => if is_success(status) {
            None
        } else {
            Some(e)
        },
        Ok(_) => None,
    }
}

/// The string at `/filename` in `content` read as a document, if `content`
/// is there.
pub open spec fn filename_in(content: Option<Seq<char>>) -> Option<Seq<char>> {
    match content {
        Some(c) => json_text(c, "/filename"@),
        None => None,
    }
}

/// What the answer of `backend` with the status `status` and the body `body`
/// means: the raw name that the model gave, or why there is none.
pub fn read_reply(backend: Backend, status: u16, body: &str) -> (r: Result<String, ReplyError>)
    ensures
        reply_view(r) == reply_from(
            backend,
            status,
            body@,
            json_text(body@, answer_pointer(backend)),
            filename_in(json_text(body@, answer_pointer(backend))),
        ),
{
    let content = text_at(body, answer_place(backend));
    let filename = match &content {
        Some(c) => text_at(c.as_str(), "/filename"),
        None => None,
    };
    interpret_reply(backend, status, body, content, filename)
}

} // verus!
