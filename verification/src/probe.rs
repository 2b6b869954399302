//! The connectivity probe: is the provider there, and can it serve?
//!
//! The hosted provider is asked for its models, and the status tells whether
//! the credential holds. The local provider is asked for the models that are
//! installed, and the configured model must be among them, by prefix.

use vstd::prelude::*;
use crate::config::{provider_named, AppConfig, Provider};
use crate::json::{array_len_at, is_document, json_array_len, json_text, json_valid, text_at};
use crate::provider::{endpoint, endpoint_for, is_success, success};
use crate::text::{
    chars_of, decimal, join_of, join_strings, opt_text, push_all, push_decimal, push_str,
    starts_with, string_of, strings, trim_end, trim_end_of, CharClass,
};

verus! {

/// A request to get: the address, and the bearer credential if one is sent.
#[derive(Debug, PartialEq, Eq)]
pub struct ProbeRequest {
    pub url: String,
    pub bearer: Option<String>,
}

/// The probe of the provider that `config` selects.
pub fn probe_request(config: &AppConfig) -> (r: ProbeRequest)
    ensures
        match provider_named(config.provider@) {
            Provider::Hosted => r.url@ == endpoint(config.openai_base_url@, "/models"@)
                && opt_text(r.bearer) == Some(config.openai_key@),
            Provider::Local => r.url@ == endpoint(config.ollama_url@, "/api/tags"@)
                && r.bearer is None,
        },
{
    match config.provider() {
        Provider::Hosted => ProbeRequest {
            url: endpoint_for(config.openai_base_url.as_str(), "/models"),
            bearer: Some(config.openai_key.clone()),
        },
        Provider::Local => ProbeRequest {
            url: endpoint_for(config.ollama_url.as_str(), "/api/tags"),
            bearer: None,
        },
    }
}

/// Why a probe failed.
#[derive(Clone, Copy, Debug, PartialEq, Eq, Structural)]
pub enum ProbeFault {
    /// The provider could not be reached. Detail: what the caller reports.
    Unreachable,
    /// The hosted provider refused the credential (status 401).
    InvalidCredential,
    /// The provider answered with another failure. Detail: the status.
    Refused,
    /// The local provider's answer is no document.
    BadResponse,
    /// The local provider lacks the model. Detail: the model, and the models
    /// that are installed.
    ModelMissing,
}

/// A failed probe.
#[derive(Debug, PartialEq, Eq)]
pub struct ProbeError {
    pub provider: Provider,
    pub kind: ProbeFault,
    pub detail: String,
}

impl View for ProbeError {
    type V = (Provider, ProbeFault, Seq<char>);

    open spec fn view(&self) -> (Provider, ProbeFault, Seq<char>) {
        (self.provider, self.kind, self.detail@)
    }
}

/// The fixed text that the message of a failed probe starts with.
pub open spec fn probe_prefix(provider: Provider, kind: ProbeFault) -> Seq<char> {
    match kind {
        ProbeFault::Unreachable => ""@,
        ProbeFault::InvalidCredential => "API Key 无效，请检查"@,
        ProbeFault::Refused => match provider {
            Provider::Hosted => "API 返回错误: "@,
            Provider::Local => "Ollama 返回错误: "@,
        },
        ProbeFault::BadResponse => "Ollama 响应格式错误"@,
        ProbeFault::ModelMissing => "Ollama 已连接，但模型 "@,
    }
}

impl ProbeError {
    /// The message for a user: the kind's text, then the detail.
    pub fn message(&self) -> (m: String)
        ensures
            m@ == probe_prefix(self.provider, self.kind) + self.detail@,
    {
        let prefix = match self.kind {
            ProbeFault::Unreachable => "",
            ProbeFault::InvalidCredential => "API Key 无效，请检查",
            ProbeFault::Refused => match self.provider {
                Provider::Hosted => "API 返回错误: ",
                Provider::Local => "Ollama 返回错误: ",
            },
            ProbeFault::BadResponse => "Ollama 响应格式错误",
            ProbeFault::ModelMissing => "Ollama 已连接，但模型 ",
        };
        let mut out = chars_of(prefix);
        push_str(&mut out, self.detail.as_str());
        string_of(&out)
    }
}

/// The view of a probe's outcome.
pub open spec fn probe_view(r: Result<String, ProbeError>) -> Result<
    Seq<char>,
    (Provider, ProbeFault, Seq<char>),
> {
    match r {
        Ok(s) => Ok(s@),
        Err(e) => Err(e@),
    }
}

/// What the status of the hosted provider's answer means: any success means
/// that the provider at `base` is reachable, 401 that the credential is
/// invalid, anything else is passed on.
pub open spec fn hosted_outcome(base: Seq<char>, status: u16) -> Result<
    Seq<char>,
    (Provider, ProbeFault, Seq<char>),
> {
    if success(status) {
        Ok("连接成功: "@ + trim_end_of(base, CharClass::One('/')))
    } else if status == 401 {
        Err((Provider::Hosted, ProbeFault::InvalidCredential, Seq::empty()))
    } else {
        Err((Provider::Hosted, ProbeFault::Refused, decimal(status as nat)))
    }
}

/// What the status of the hosted provider's answer means.
pub fn probe_outcome_hosted(base: &str, status: u16) -> (r: Result<String, ProbeError>)
    ensures
        probe_view(r) == hosted_outcome(base@, status),
{
    if is_success(status) {
        let mut out = chars_of("连接成功: ");
        let chars = chars_of(base);
        let trimmed = trim_end(&chars, CharClass::One('/'));
        push_all(&mut out, &trimmed);
        Ok(string_of(&out))
    } else if status == 401 {
        Err(
            ProbeError {
                provider: Provider::Hosted,
                kind: ProbeFault::InvalidCredential,
                detail: String::new(),
            },
        )
    } else {
        let mut detail: Vec<char> = Vec::new();
        push_decimal(&mut detail, status as u64);
        Err(
            ProbeError {
                provider: Provider::Hosted,
                kind: ProbeFault::Refused,
                detail: string_of(&detail),
            },
        )
    }
}

/// Whether one of `models` starts with `wanted`.
pub open spec fn installed(models: Seq<Seq<char>>, wanted: Seq<char>) -> bool {
    exists|i: int| 0 <= i < models.len() && wanted.is_prefix_of(#[trigger] models[i])
}

/// Whether one of `models` starts with `wanted`.
pub fn is_installed(models: &Vec<String>, wanted: &str) -> (r: bool)
    ensures
        r == installed(strings(models@), wanted@),
{
    let want = chars_of(wanted);
    let mut i: usize = 0;
    while i < models.len()
        invariant
            i <= models.len(),
            want@ == wanted@,
            forall|k: int| 0 <= k < i ==> !wanted@.is_prefix_of(#[trigger] strings(models@)[k]),
        decreases models.len() - i,
    {
        let model = chars_of(models[i].as_str());
        assert(strings(models@)[i as int] == model@);
        if starts_with(&model, &want) {
            return true;
        }
        i += 1;
    }
    false
}

/// What the answer of the local provider means, given its status, whether
/// its body is a document, and the names of the models that the body lists.
/// A failure status is passed on. A body that is no document is a bad
/// response. Else the configured model must be installed: one of the listed
/// names must start with it.
pub open spec fn local_outcome(
    model: Seq<char>,
    status: u16,
    valid: bool,
    models: Seq<Seq<char>>,
) -> Result<Seq<char>, (Provider, ProbeFault, Seq<char>)> {
    if !success(status) {
        Err((Provider::Local, ProbeFault::Refused, decimal(status as nat)))
    } else if !valid {
        Err((Provider::Local, ProbeFault::BadResponse, Seq::empty()))
    } else if installed(models, model) {
        Ok("Ollama 连接成功，模型 "@ + model + " 可用"@)
    } else {
        Err(
            (
                Provider::Local,
                ProbeFault::ModelMissing,
                model + " 未找到。可用: "@ + join_of(models, ", "@),
            ),
        )
    }
}

/// What the answer of the local provider means, given what its body lists.
pub fn probe_outcome_local(model: &str, status: u16, valid: bool, models: &Vec<String>) -> (r:
    Result<String, ProbeError>)
    ensures
        probe_view(r) == local_outcome(model@, status, valid, strings(models@)),
{
    if !is_success(status) {
        let mut detail: Vec<char> = Vec::new();
        push_decimal(&mut detail, status as u64);
        return Err(
            ProbeError {
                provider: Provider::Local,
                kind: ProbeFault::Refused,
                detail: string_of(&detail),
            },
        );
    }
    if !valid {
        return Err(
            ProbeError {
                provider: Provider::Local,
                kind: ProbeFault::BadResponse,
                detail: String::new(),
            },
        );
    }
    if is_installed(models, model) {
        let mut out = chars_of("Ollama 连接成功，模型 ");
        push_str(&mut out, model);
        push_str(&mut out, " 可用");
        Ok(string_of(&out))
    } else {
        let mut detail = chars_of(model);
        push_str(&mut detail, " 未找到。可用: ");
        let listed = join_strings(models, ", ");
        push_all(&mut detail, &listed);
        Err(
            ProbeError {
                provider: Provider::Local,
                kind: ProbeFault::ModelMissing,
                detail: string_of(&detail),
            },
        )
    }
}

/// The place of the name of the `i`-th model in the local provider's answer.
pub open spec fn model_pointer(i: nat) -> Seq<char> {
    "/models/"@ + decimal(i) + "/name"@
}

/// The names among the first `n` entries of `models` in `body`; an entry
/// without a name that is a string is passed over.
pub open spec fn model_names(body: Seq<char>, n: nat) -> Seq<Seq<char>>
    decreases n,
{
    if n == 0 {
        Seq::empty()
    } else {
        let rest = model_names(body, (n - 1) as nat);
        match json_text(body, model_pointer((n - 1) as nat)) {
            Some(name) => rest.push(name),
            None => rest,
        }
    }
}

/// The names of the models that `body` lists; none where `models` is no
/// array.
pub open spec fn listed_models(body: Seq<char>) -> Seq<Seq<char>> {
    match json_array_len(body, "/models"@) {
        Some(n) => model_names(body, n),
        None => Seq::empty(),
    }
}

/// The names of the models that `body` lists.
pub fn list_models(body: &str) -> (r: Vec<String>)
    ensures
        strings(r@) == listed_models(body@),
{
    let mut names: Vec<String> = Vec::new();
    let n = match array_len_at(body, "/models") {
        Some(n) => n,
        None => {
            assert(strings(names@) == Seq::<Seq<char>>::empty());
            return names;
        },
    };
    let mut i: usize = 0;
    assert(strings(names@) == Seq::<Seq<char>>::empty());
    while i < n
        invariant
            i <= n,
            strings(names@) == model_names(body@, i as nat),
        decreases n - i,
    {
        let mut pointer = chars_of("/models/");
        push_decimal(&mut pointer, i as u64);
        push_str(&mut pointer, "/name");
        let place = string_of(&pointer);
        let ghost before = strings(names@);
        match text_at(body, place.as_str()) {
            Some(name) => {
                names.push(name);
                assert(strings(names@) == before.push(name@));
            },
            None => {},
        }
        i += 1;
    }
    names
}

/// What the answer to the probe of the configured provider means.
pub fn read_probe_reply(config: &AppConfig, status: u16, body: &str) -> (r: Result<
    String,
    ProbeError,
>)
    ensures
        probe_view(r) == match provider_named(config.provider@) {
            Provider::Hosted => hosted_outcome(config.openai_base_url@, status),
            Provider::Local => local_outcome(
                config.ollama_model@,
                status,
                json_valid(body@),
                listed_models(body@),
            ),
        },
{
    match config.provider() {
        Provider::Hosted => probe_outcome_hosted(config.openai_base_url.as_str(), status),
        Provider::Local => {
            let valid = is_document(body);
            let models = list_models(body);
            probe_outcome_local(config.ollama_model.as_str(), status, valid, &models)
        },
    }
}

} // verus!
