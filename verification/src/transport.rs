//! What a user is told when a request did not get through.
//!
//! The caller sends the requests, so it is the caller that learns of a
//! failure of the transport and of its kind. The words for it are chosen
//! here, by backend.

use vstd::prelude::*;
use crate::config::{provider_named, AppConfig, Provider};
use crate::provider::{endpoints, Backend, Endpoints};
use crate::text::{chars_of, push_all, push_str, string_of, trim_end, trim_end_of, CharClass};

verus! {

/// How a request failed to get through.
#[derive(Clone, Copy, Debug, PartialEq, Eq, Structural)]
pub enum TransportFault {
    /// No answer came in time.
    Timeout,
    /// No connection could be made.
    Connect,
    /// Anything else.
    Other,
}

/// The configured address of a backend, which messages about it name.
pub open spec fn target_of(backend: Backend, e: Endpoints) -> Seq<char> {
    match backend {
        Backend::Ollama => e.ollama_url,
        Backend::OllamaVlm => e.ollama_url,
        Backend::Api => e.openai_base_url,
        Backend::Vlm => e.vlm_base_url,
    }
}

/// The message for a request for a name that did not get through to
/// `backend` at the configured address `target`; `detail` is what the
/// transport reported.
pub open spec fn transport_text(
    backend: Backend,
    fault: TransportFault,
    target: Seq<char>,
    detail: Seq<char>,
) -> Seq<char> {
    match backend {
        Backend::Ollama => match fault {
            TransportFault::Timeout => "Ollama 请求超时（60秒），模型可能过大或服务未响应"@,
            TransportFault::Connect => "无法连接 Ollama（"@ + target + "），请确认 Ollama 已启动"@,
            TransportFault::Other => "Ollama 网络错误: "@ + detail,
        },
        Backend::Api => "无法连接 API ("@ + trim_end_of(target, CharClass::One('/')) + "): "@
            + detail,
        Backend::Vlm => "VLM 连接失败: "@ + detail,
        Backend::OllamaVlm => "Ollama VLM 连接失败: "@ + detail,
    }
}

/// The message for a request for a name that did not get through.
pub fn transport_message(
    backend: Backend,
    fault: TransportFault,
    config: &AppConfig,
    detail: &str,
) -> (r: String)
    ensures
        r@ == transport_text(backend, fault, target_of(backend, endpoints(config)), detail@),
{
    let target = match backend {
        Backend::Ollama => config.ollama_url.as_str(),
        Backend::OllamaVlm => config.ollama_url.as_str(),
        Backend::Api => config.openai_base_url.as_str(),
        Backend::Vlm => config.vlm_base_url.as_str(),
    };
    let mut out: Vec<char> = Vec::new();
    match backend {
        Backend::Ollama => match fault {
            TransportFault::Timeout => {
                push_str(&mut out, "Ollama 请求超时（60秒），模型可能过大或服务未响应");
            },
            TransportFault::Connect => {
                push_str(&mut out, "无法连接 Ollama（");
                push_str(&mut out, target);
                push_str(&mut out, "），请确认 Ollama 已启动");
            },
            TransportFault::Other => {
                push_str(&mut out, "Ollama 网络错误: ");
                push_str(&mut out, detail);
            },
        },
        Backend::Api => {
            push_str(&mut out, "无法连接 API (");
            let chars = chars_of(target);
            let base = trim_end(&chars, CharClass::One('/'));
            push_all(&mut out, &base);
            push_str(&mut out, "): ");
            push_str(&mut out, detail);
        },
        Backend::Vlm => {
            push_str(&mut out, "VLM 连接失败: ");
            push_str(&mut out, detail);
        },
        Backend::OllamaVlm => {
            push_str(&mut out, "Ollama VLM 连接失败: ");
            push_str(&mut out, detail);
        },
    }
    string_of(&out)
}

/// The message for a probe that did not get through to `provider` at the
/// configured address `target`.
pub open spec fn probe_transport_text(
    provider: Provider,
    fault: TransportFault,
    target: Seq<char>,
    detail: Seq<char>,
) -> Seq<char> {
    match provider {
        Provider::Hosted => "无法连接 API ("@ + trim_end_of(target, CharClass::One('/')) + "): "@
            + detail,
        Provider::Local => if fault == TransportFault::Connect {
            "无法连接 Ollama（"@ + target + "），请确认已启动"@
        } else {
            "Ollama 连接错误: "@ + detail
        },
    }
}

/// The message for a probe of the configured provider that did not get
/// through.
pub fn probe_transport_message(config: &AppConfig, fault: TransportFault, detail: &str) -> (r:
    String)
    ensures
        r@ == match provider_named(config.provider@) {
            Provider::Hosted => probe_transport_text(
                Provider::Hosted,
                fault,
                config.openai_base_url@,
                detail@,
            ),
            Provider::Local => probe_transport_text(
                Provider::Local,
                fault,
                config.ollama_url@,
                detail@,
            ),
        },
{
    let provider = config.provider();
    let target = match provider {
        Provider::Hosted => config.openai_base_url.as_str(),
        Provider::Local => config.ollama_url.as_str(),
    };
    let mut out: Vec<char> = Vec::new();
    match provider {
        Provider::Hosted => {
            push_str(&mut out, "无法连接 API (");
            let chars = chars_of(target);
            let base = trim_end(&chars, CharClass::One('/'));
            push_all(&mut out, &base);
            push_str(&mut out, "): ");
            push_str(&mut out, detail);
        },
        Provider::Local => match fault {
            TransportFault::Connect => {
                push_str(&mut out, "无法连接 Ollama（");
                push_str(&mut out, target);
                push_str(&mut out, "），请确认已启动");
            },
            _ => {
                push_str(&mut out, "Ollama 连接错误: ");
                push_str(&mut out, detail);
            },
        },
    }
    string_of(&out)
}

/// The message for a stream that broke off: `detail` is what the transport
/// reported.
pub fn stream_broken_message(detail: &str) -> (r: String)
    ensures
        r@ == "流读取错误: "@ + detail@,
{
    let mut out = chars_of("流读取错误: ");
    push_str(&mut out, detail);
    string_of(&out)
}

} // verus!
