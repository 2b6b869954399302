use fyla::config::{AppConfig, Provider};
use fyla::probe::{
    is_installed, list_models, probe_outcome_hosted, probe_outcome_local, probe_request,
    read_probe_reply, ProbeFault,
};
use fyla::provider::{
    answer_place, endpoint_for, hosted_request, image_payload, image_payload_checked,
    interpret_reply, is_success, local_request, mime_for, read_reply, refusal, text_request,
    tries_vision, vision_request, Backend, ChatBody, ReplyFault, NUM_PREDICT,
};
use fyla::transport::{
    probe_transport_message, stream_broken_message, transport_message, TransportFault,
};

fn hosted() -> AppConfig {
    let mut c = AppConfig::default();
    c.provider = "openai".to_string();
    c.openai_key = "SECRET-REDACTED".to_string();
    c.openai_base_url = "https://api.example.com/v1//".to_string();
    c
}

#[test]
fn addresses_lose_their_trailing_slashes() {
    assert_eq!(endpoint_for("http://localhost:11434/", "/api/chat"), "http://localhost:11434/api/chat");
    assert_eq!(endpoint_for("http://localhost:11434", "/api/chat"), "http://localhost:11434/api/chat");
    assert_eq!(endpoint_for("", "/models"), "/models");
}

#[test]
fn the_local_provider_is_asked_in_the_local_shape() {
    let r = text_request("name this", &AppConfig::default(), false);
    assert_eq!(r.backend, Backend::Ollama);
    assert_eq!(r.url, "http://localhost:11434/api/chat");
    assert_eq!(r.bearer, None);
    assert_eq!(
        r.body,
        ChatBody::LocalText {
            model: "llama3.2".to_string(),
            prompt: "name this".to_string(),
            stream: false,
            num_predict: 80,
        }
    );
    assert_eq!(NUM_PREDICT, 80);
    let s = text_request("name this", &AppConfig::default(), true);
    assert!(matches!(s.body, ChatBody::LocalText { stream: true, num_predict: 80, .. }));
}

#[test]
fn the_hosted_provider_is_asked_with_its_credential() {
    let r = text_request("p", &hosted(), false);
    assert_eq!(r.backend, Backend::Api);
    assert_eq!(r.url, "https://api.example.com/v1/chat/completions");
    assert_eq!(r.bearer, Some("SECRET-REDACTED".to_string()));
    assert_eq!(r.body, ChatBody::HostedSchema { model: "gpt-4o-mini".to_string(), prompt: "p".to_string() });
    let s = text_request("p", &hosted(), true);
    assert_eq!(s.body, ChatBody::HostedStream { model: "gpt-4o-mini".to_string(), prompt: "p".to_string() });
}

#[test]
fn a_vision_model_of_its_own_is_asked_in_the_hosted_shape() {
    let mut c = AppConfig::default();
    c.vlm_same_as_llm = false;
    c.vlm_base_url = "http://vision.local/v1/".to_string();
    c.vlm_key = "SECRET-REDACTED".to_string();
    c.vlm_model = "llava".to_string();
    let r = vision_request("look", "aGVsbG8=", "image/png", &c);
    assert_eq!(r.backend, Backend::Vlm);
    assert_eq!(r.url, "http://vision.local/v1/chat/completions");
    assert_eq!(r.bearer, Some("SECRET-REDACTED".to_string()));
    assert_eq!(
        r.body,
        ChatBody::HostedVision {
            model: "llava".to_string(),
            prompt: "look".to_string(),
            image_url: "data:image/png;base64,aGVsbG8=".to_string(),
        }
    );
}

#[test]
fn a_shared_vision_model_is_asked_as_its_provider_is() {
    let local = vision_request("look", "aGVsbG8=", "image/png", &AppConfig::default());
    assert_eq!(local.backend, Backend::OllamaVlm);
    assert_eq!(local.url, "http://localhost:11434/api/chat");
    assert_eq!(local.bearer, None);
    assert_eq!(
        local.body,
        ChatBody::LocalVision {
            model: "llama3.2".to_string(),
            prompt: "look".to_string(),
            image_base64: "aGVsbG8=".to_string(),
        }
    );
    let remote = vision_request("look", "aGVsbG8=", "image/jpeg", &hosted());
    assert_eq!(remote.backend, Backend::Vlm);
    assert_eq!(remote.url, "https://api.example.com/v1/chat/completions");
    assert_eq!(
        remote.body,
        ChatBody::HostedVision {
            model: "gpt-4o-mini".to_string(),
            prompt: "look".to_string(),
            image_url: "data:image/jpeg;base64,aGVsbG8=".to_string(),
        }
    );
}

#[test]
fn images_are_sent_in_base64_with_their_type() {
    let p = image_payload("/photos/Cat.PNG", b"hello");
    assert_eq!(p.base64, "aGVsbG8=");
    assert_eq!(p.mime, "image/png");
    assert_eq!(image_payload("a.jpg", &[0xff, 0xd8, 0xff]).base64, "/9j/");
    assert_eq!(image_payload("a.jpg", b"").base64, "");
    let checked = image_payload_checked("x.webp", b"ab").unwrap();
    assert_eq!(checked.base64, "YWI=");
    assert_eq!(checked.mime, "image/webp");
    assert_eq!(mime_for("jpg"), "image/jpeg");
    assert_eq!(mime_for("jpeg"), "image/jpeg");
    assert_eq!(mime_for("heic"), "image/heic");
    assert_eq!(mime_for("tiff"), "image/tiff");
    assert_eq!(mime_for("bmp"), "image/jpeg");
}

#[test]
fn the_vision_model_is_tried_for_images_only() {
    let mut c = AppConfig::default();
    assert!(!tries_vision(&c, Some("/p/a.png")));
    c.vlm_enabled = true;
    assert!(tries_vision(&c, Some("/p/a.png")));
    assert!(tries_vision(&c, Some("/p/a.JPEG")));
    assert!(!tries_vision(&c, Some("/p/a.pdf")));
    assert!(!tries_vision(&c, Some("/p/a.gif")));
    assert!(!tries_vision(&c, None));
}

#[test]
fn the_answer_of_the_local_provider() {
    assert_eq!(read_reply(Backend::Ollama, 200, "{\"message\":{\"role\":\"assistant\",\"content\":\"invoice-acme\"}}").unwrap(), "invoice-acme");
    assert_eq!(read_reply(Backend::OllamaVlm, 201, "{\"message\":{\"content\":\"{\\\"filename\\\":\\\"x\\\"}\"}}").unwrap(), "{\"filename\":\"x\"}");
    let bad = read_reply(Backend::Ollama, 200, "{\"message\":{\"content\":5}}").unwrap_err();
    assert_eq!(bad.kind, ReplyFault::BadResponse);
    assert_eq!(bad.message(), "Ollama 响应格式错误");
    let broken = read_reply(Backend::OllamaVlm, 200, "not json").unwrap_err();
    assert_eq!(broken.message(), "Ollama VLM 响应格式错误");
    let refused = read_reply(Backend::Ollama, 404, "model not found").unwrap_err();
    assert_eq!(refused.kind, ReplyFault::Rejected);
    assert_eq!(refused.detail, "404: model not found");
    assert_eq!(refused.message(), "Ollama 请求失败 404: model not found");
}

#[test]
fn the_answer_of_the_hosted_provider() {
    let wrapped = "{\"choices\":[{\"message\":{\"content\":\"{\\\"filename\\\":\\\"acme-invoice\\\"}\"}}]}";
    assert_eq!(read_reply(Backend::Api, 200, wrapped).unwrap(), "acme-invoice");
    assert_eq!(read_reply(Backend::Vlm, 200, wrapped).unwrap(), "{\"filename\":\"acme-invoice\"}");
    let plain = "{\"choices\":[{\"message\":{\"content\":\"acme invoice\"}}]}";
    assert_eq!(read_reply(Backend::Api, 200, plain).unwrap(), "acme invoice");
    let other = "{\"choices\":[{\"message\":{\"content\":\"{\\\"name\\\":\\\"x\\\"}\"}}]}";
    assert_eq!(read_reply(Backend::Api, 200, other).unwrap(), "{\"name\":\"x\"}");
    assert_eq!(read_reply(Backend::Api, 200, "{\"choices\":[]}").unwrap_err().message(), "API 响应格式错误");
    assert_eq!(read_reply(Backend::Vlm, 200, "{}").unwrap_err().message(), "VLM 响应格式错误");
    assert_eq!(read_reply(Backend::Api, 500, wrapped).unwrap_err().message(), format!("API 请求失败 500: {}", wrapped));
    assert_eq!(read_reply(Backend::Vlm, 199, "").unwrap_err().message(), "VLM 请求失败 199: ");
    assert_eq!(read_reply(Backend::Vlm, 300, "x").unwrap_err().message(), "VLM 请求失败 300: x");
}

#[test]
fn an_answer_is_read_from_what_was_found_in_it() {
    assert_eq!(interpret_reply(Backend::Api, 200, "b", Some("c".to_string()), Some("f".to_string())).unwrap(), "f");
    assert_eq!(interpret_reply(Backend::Api, 200, "b", Some("c".to_string()), None).unwrap(), "c");
    assert_eq!(interpret_reply(Backend::Ollama, 299, "b", Some("c".to_string()), Some("f".to_string())).unwrap(), "c");
    let e = interpret_reply(Backend::Api, 200, "b", None, Some("f".to_string())).unwrap_err();
    assert_eq!((e.backend, e.kind, e.detail.as_str()), (Backend::Api, ReplyFault::BadResponse, ""));
    let e = interpret_reply(Backend::Ollama, 503, "busy", Some("c".to_string()), None).unwrap_err();
    assert_eq!((e.backend, e.kind, e.detail.as_str()), (Backend::Ollama, ReplyFault::Rejected, "503: busy"));
    assert!(is_success(200) && is_success(299) && !is_success(199) && !is_success(300));
    assert_eq!(answer_place(Backend::Ollama), "/message/content");
    assert_eq!(answer_place(Backend::Api), "/choices/0/message/content");
}

#[test]
fn the_probe_of_each_provider() {
    let local = probe_request(&AppConfig::default());
    assert_eq!(local.url, "http://localhost:11434/api/tags");
    assert_eq!(local.bearer, None);
    let remote = probe_request(&hosted());
    assert_eq!(remote.url, "https://api.example.com/v1/models");
    assert_eq!(remote.bearer, Some("SECRET-REDACTED".to_string()));
}

#[test]
fn the_hosted_probe_tells_a_bad_credential_from_other_failures() {
    assert_eq!(probe_outcome_hosted("https://api.example.com/v1/", 200).unwrap(), "连接成功: https://api.example.com/v1");
    let e = probe_outcome_hosted("b", 401).unwrap_err();
    assert_eq!(e.kind, ProbeFault::InvalidCredential);
    assert_eq!(e.message(), "API Key 无效，请检查");
    let e = probe_outcome_hosted("b", 403).unwrap_err();
    assert_eq!(e.kind, ProbeFault::Refused);
    assert_eq!(e.message(), "API 返回错误: 403");
    assert_eq!(read_probe_reply(&hosted(), 204, "").unwrap(), "连接成功: https://api.example.com/v1");
    assert_eq!(read_probe_reply(&hosted(), 401, "{}").unwrap_err().kind, ProbeFault::InvalidCredential);
}

#[test]
fn the_local_probe_looks_for_the_model() {
    let body = "{\"models\":[{\"name\":\"llama3.2:latest\"},{\"size\":1},{\"name\":\"qwen2:7b\"},{\"name\":7}]}";
    assert_eq!(list_models(body), vec!["llama3.2:latest".to_string(), "qwen2:7b".to_string()]);
    assert_eq!(list_models("{\"models\":{}}"), Vec::<String>::new());
    assert_eq!(list_models("nonsense"), Vec::<String>::new());
    let c = AppConfig::default();
    assert_eq!(read_probe_reply(&c, 200, body).unwrap(), "Ollama 连接成功，模型 llama3.2 可用");
    let mut missing = AppConfig::default();
    missing.ollama_model = "mistral".to_string();
    let e = read_probe_reply(&missing, 200, body).unwrap_err();
    assert_eq!(e.kind, ProbeFault::ModelMissing);
    assert_eq!(e.provider, Provider::Local);
    assert_eq!(e.message(), "Ollama 已连接，但模型 mistral 未找到。可用: llama3.2:latest, qwen2:7b");
    let e = read_probe_reply(&c, 500, body).unwrap_err();
    assert_eq!(e.kind, ProbeFault::Refused);
    assert_eq!(e.message(), "Ollama 返回错误: 500");
    let e = read_probe_reply(&c, 200, "<html>").unwrap_err();
    assert_eq!(e.kind, ProbeFault::BadResponse);
    assert_eq!(e.message(), "Ollama 响应格式错误");
    let e = read_probe_reply(&c, 200, "{}").unwrap_err();
    assert_eq!(e.message(), "Ollama 已连接，但模型 llama3.2 未找到。可用: ");
}

#[test]
fn a_model_is_installed_if_a_listed_name_starts_with_it() {
    let models = vec!["llama3.2:latest".to_string(), "qwen".to_string()];
    assert!(is_installed(&models, "llama3.2"));
    assert!(is_installed(&models, "qwen"));
    assert!(is_installed(&models, ""));
    assert!(!is_installed(&models, "llama3.2:latest-extra"));
    assert!(!is_installed(&vec![], ""));
    assert_eq!(probe_outcome_local("qwen", 200, true, &models).unwrap(), "Ollama 连接成功，模型 qwen 可用");
    assert_eq!(probe_outcome_local("qwen", 200, false, &models).unwrap_err().kind, ProbeFault::BadResponse);
}

#[test]
fn the_words_for_a_request_that_did_not_get_through() {
    let mut c = AppConfig::default();
    c.ollama_url = "http://h/".to_string();
    c.openai_base_url = "http://h/v1/".to_string();
    assert_eq!(transport_message(Backend::Ollama, TransportFault::Timeout, &c, "e"), "Ollama 请求超时（60秒），模型可能过大或服务未响应");
    assert_eq!(transport_message(Backend::Ollama, TransportFault::Connect, &c, "e"), "无法连接 Ollama（http://h/），请确认 Ollama 已启动");
    assert_eq!(transport_message(Backend::Ollama, TransportFault::Other, &c, "reset"), "Ollama 网络错误: reset");
    assert_eq!(transport_message(Backend::Api, TransportFault::Connect, &c, "refused"), "无法连接 API (http://h/v1): refused");
    assert_eq!(transport_message(Backend::Vlm, TransportFault::Timeout, &c, "late"), "VLM 连接失败: late");
    assert_eq!(transport_message(Backend::OllamaVlm, TransportFault::Other, &c, "x"), "Ollama VLM 连接失败: x");
    assert_eq!(probe_transport_message(&c, TransportFault::Connect, "x"), "无法连接 Ollama（http://h/），请确认已启动");
    assert_eq!(probe_transport_message(&c, TransportFault::Timeout, "late"), "Ollama 连接错误: late");
    c.provider = "openai".to_string();
    assert_eq!(probe_transport_message(&c, TransportFault::Other, "x"), "无法连接 API (http://h/v1): x");
    assert_eq!(stream_broken_message("eof"), "流读取错误: eof");
}

#[test]
fn each_provider_can_be_asked_whatever_the_configuration_selects() {
    let c = hosted();
    let local = local_request("p", &c, true);
    assert_eq!(local.backend, Backend::Ollama);
    assert_eq!(local.url, "http://localhost:11434/api/chat");
    assert!(matches!(local.body, ChatBody::LocalText { stream: true, .. }));
    let remote = hosted_request("p", &AppConfig::default(), true);
    assert_eq!(remote.backend, Backend::Api);
    assert_eq!(remote.url, "https://api.openai.com/v1/chat/completions");
    assert_eq!(remote.bearer, Some("".to_string()));
}

#[test]
fn an_answer_that_is_no_success_is_a_refusal() {
    assert_eq!(refusal(Backend::Api, 200, "x"), None);
    assert_eq!(refusal(Backend::Api, 299, "x"), None);
    let e = refusal(Backend::Ollama, 404, "no such model").unwrap();
    assert_eq!(e.message(), "Ollama 请求失败 404: no such model");
    assert_eq!(refusal(Backend::Vlm, 100, "").unwrap().message(), "VLM 请求失败 100: ");
}
