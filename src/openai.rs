//! The chat-completion backend: its configuration, and the decisions of one
//! translation call (credential rotation, admission per credential, request
//! contents, and the reading of the answer).

use crate::error::{is_success_status, TranslationError, STATUS_UNAUTHORIZED};
use crate::governor::{admission_step, release_step, Admission, RateGovernor};
use crate::pool::CredentialPool;
use crate::text::{concat, push_text};
use vstd::prelude::*;

verus! {

/// Base URL of the service when none is configured.
pub const DEFAULT_BASE_URL: &'static str = "https://api.openai.com/v1";

/// Model when none is configured.
pub const DEFAULT_MODEL: &'static str = "gpt-3.5-turbo";

/// Requests-per-minute ceiling per key when none is configured.
pub const DEFAULT_RPM_LIMIT: u32 = 60;

/// Requests in flight per key when none is configured.
pub const DEFAULT_CONCURRENT_LIMIT: usize = 10;

/// Configuration of the chat-completion backend.
#[derive(Debug, Clone)]
pub struct OpenAIConfig {
    /// Base URL of the service.
    pub base_url: String,
    /// Model name.
    pub model: String,
    /// Keys, used in turn; each has its own admission limits.
    pub api_keys: Vec<String>,
    /// Requests per minute per key; 0 means no ceiling.
    pub rpm_limit: u32,
    /// Requests in flight per key.
    pub concurrent_limit: usize,
    /// Instruction that replaces the default one, if set.
    pub system_prompt: Option<String>,
}

impl Default for OpenAIConfig {
    /// The public service, the default model, no key, 60 requests per minute,
    /// 10 in flight, and the default instruction.
    fn default() -> (r: OpenAIConfig)
        ensures
            r.base_url@ == DEFAULT_BASE_URL@,
            r.model@ == DEFAULT_MODEL@,
            r.api_keys@.len() == 0,
            r.rpm_limit == DEFAULT_RPM_LIMIT,
            r.concurrent_limit == DEFAULT_CONCURRENT_LIMIT,
            r.system_prompt.is_none(),
    {
        OpenAIConfig {
            base_url: DEFAULT_BASE_URL.to_owned(),
            model: DEFAULT_MODEL.to_owned(),
            api_keys: Vec::new(),
            rpm_limit: DEFAULT_RPM_LIMIT,
            concurrent_limit: DEFAULT_CONCURRENT_LIMIT,
            system_prompt: None,
        }
    }
}

impl OpenAIConfig {
    /// The instruction sent with each text: the configured one, or the default
    /// one naming the source language ("auto" when none) and the target.
    pub fn get_system_prompt(&self, target_lang: &str, source_lang: Option<&str>) -> (r: String)
        ensures
            r@ == prompt_for(self.system_prompt, target_lang@, opt_view(source_lang)),
    {
        match &self.system_prompt {
            Some(p) => p.clone(),
            None => {
                let mut s = PROMPT_HEAD.to_owned();
                push_text(&mut s, PROMPT_SOURCE);
                match source_lang {
                    Some(src) => push_text(&mut s, src),
                    None => push_text(&mut s, AUTO_SOURCE),
                }
                push_text(&mut s, PROMPT_LINK);
                push_text(&mut s, target_lang);
                push_text(&mut s, PROMPT_TAIL);
                s
            },
        }
    }

    /// A builder with nothing set.
    pub fn builder() -> (r: OpenAIConfigBuilder)
        ensures
            r.set_base_url().is_none(),
            r.set_model().is_none(),
            r.set_api_keys().is_none(),
            r.set_rpm_limit().is_none(),
            r.set_concurrent_limit().is_none(),
            r.set_system_prompt().is_none(),
    {
        OpenAIConfigBuilder {
            base_url: None,
            model: None,
            api_keys: None,
            rpm_limit: None,
            concurrent_limit: None,
            system_prompt: None,
        }
    }
}

/// Builds an [`OpenAIConfig`]; what is not set takes its default.
#[derive(Debug)]
pub struct OpenAIConfigBuilder {
    base_url: Option<String>,
    model: Option<String>,
    api_keys: Option<Vec<String>>,
    rpm_limit: Option<u32>,
    concurrent_limit: Option<usize>,
    system_prompt: Option<String>,
}

impl OpenAIConfigBuilder {
    /// The base URL set, if any.
    pub closed spec fn set_base_url(&self) -> Option<String> {
        self.base_url
    }

    /// The model set, if any.
    pub closed spec fn set_model(&self) -> Option<String> {
        self.model
    }

    /// The keys set, if any.
    pub closed spec fn set_api_keys(&self) -> Option<Vec<String>> {
        self.api_keys
    }

    /// The rate ceiling set, if any.
    pub closed spec fn set_rpm_limit(&self) -> Option<u32> {
        self.rpm_limit
    }

    /// The concurrency limit set, if any.
    pub closed spec fn set_concurrent_limit(&self) -> Option<usize> {
        self.concurrent_limit
    }

    /// The instruction set, if any.
    pub closed spec fn set_system_prompt(&self) -> Option<String> {
        self.system_prompt
    }

    /// Sets the base URL.
    pub fn base_url(self, base_url: &str) -> (r: OpenAIConfigBuilder)
        ensures
            r.set_base_url() matches Some(u) && u@ == base_url@,
            r.set_model() == self.set_model(),
            r.set_api_keys() == self.set_api_keys(),
            r.set_rpm_limit() == self.set_rpm_limit(),
            r.set_concurrent_limit() == self.set_concurrent_limit(),
            r.set_system_prompt() == self.set_system_prompt(),
    {
        let mut b = self;
        b.base_url = Some(base_url.to_owned());
        b
    }

    /// Sets the model.
    pub fn model(self, model: &str) -> (r: OpenAIConfigBuilder)
        ensures
            r.set_model() matches Some(m) && m@ == model@,
            r.set_base_url() == self.set_base_url(),
            r.set_api_keys() == self.set_api_keys(),
            r.set_rpm_limit() == self.set_rpm_limit(),
            r.set_concurrent_limit() == self.set_concurrent_limit(),
            r.set_system_prompt() == self.set_system_prompt(),
    {
        let mut b = self;
        b.model = Some(model.to_owned());
        b
    }

    /// Sets the keys.
    pub fn api_keys(self, api_keys: Vec<String>) -> (r: OpenAIConfigBuilder)
        ensures
            r.set_api_keys() == Some(api_keys),
            r.set_base_url() == self.set_base_url(),
            r.set_model() == self.set_model(),
            r.set_rpm_limit() == self.set_rpm_limit(),
            r.set_concurrent_limit() == self.set_concurrent_limit(),
            r.set_system_prompt() == self.set_system_prompt(),
    {
        let mut b = self;
        b.api_keys = Some(api_keys);
        b
    }

    /// Sets the requests-per-minute ceiling per key; 0 means none.
    pub fn rpm_limit(self, rpm_limit: u32) -> (r: OpenAIConfigBuilder)
        ensures
            r.set_rpm_limit() == Some(rpm_limit),
            r.set_base_url() == self.set_base_url(),
            r.set_model() == self.set_model(),
            r.set_api_keys() == self.set_api_keys(),
            r.set_concurrent_limit() == self.set_concurrent_limit(),
            r.set_system_prompt() == self.set_system_prompt(),
    {
        let mut b = self;
        b.rpm_limit = Some(rpm_limit);
        b
    }

    /// Sets the number of requests in flight per key.
    pub fn concurrent_limit(self, concurrent_limit: usize) -> (r: OpenAIConfigBuilder)
        ensures
            r.set_concurrent_limit() == Some(concurrent_limit),
            r.set_base_url() == self.set_base_url(),
            r.set_model() == self.set_model(),
            r.set_api_keys() == self.set_api_keys(),
            r.set_rpm_limit() == self.set_rpm_limit(),
            r.set_system_prompt() == self.set_system_prompt(),
    {
        let mut b = self;
        b.concurrent_limit = Some(concurrent_limit);
        b
    }

    /// Sets the instruction that replaces the default one.
    pub fn system_prompt(self, system_prompt: &str) -> (r: OpenAIConfigBuilder)
        ensures
            r.set_system_prompt() matches Some(p) && p@ == system_prompt@,
            r.set_base_url() == self.set_base_url(),
            r.set_model() == self.set_model(),
            r.set_api_keys() == self.set_api_keys(),
            r.set_rpm_limit() == self.set_rpm_limit(),
            r.set_concurrent_limit() == self.set_concurrent_limit(),
    {
        let mut b = self;
        b.system_prompt = Some(system_prompt.to_owned());
        b
    }

    /// The configuration: each setting as set, or its default.
    pub fn build(self) -> (r: OpenAIConfig)
        ensures
            r.base_url@ == match self.set_base_url() {
                Some(u) => u@,
                None => DEFAULT_BASE_URL@,
            },
            r.model@ == match self.set_model() {
                Some(m) => m@,
                None => DEFAULT_MODEL@,
            },
            r.api_keys@ == match self.set_api_keys() {
                Some(k) => k@,
                None => Seq::<String>::empty(),
            },
            r.rpm_limit == match self.set_rpm_limit() {
                Some(n) => n,
                None => DEFAULT_RPM_LIMIT,
            },
            r.concurrent_limit == match self.set_concurrent_limit() {
                Some(n) => n,
                None => DEFAULT_CONCURRENT_LIMIT,
            },
            r.system_prompt == self.set_system_prompt(),
    {
        OpenAIConfig {
            base_url: match self.base_url {
                Some(u) => u,
                None => DEFAULT_BASE_URL.to_owned(),
            },
            model: match self.model {
                Some(m) => m,
                None => DEFAULT_MODEL.to_owned(),
            },
            api_keys: match self.api_keys {
                Some(k) => k,
                None => Vec::new(),
            },
            rpm_limit: match self.rpm_limit {
                Some(n) => n,
                None => DEFAULT_RPM_LIMIT,
            },
            concurrent_limit: match self.concurrent_limit {
                Some(n) => n,
                None => DEFAULT_CONCURRENT_LIMIT,
            },
            system_prompt: self.system_prompt,
        }
    }
}

/// Opening of the default instruction, up to the naming of the languages.
pub const PROMPT_HEAD: &'static str = "You are a raw translation engine. You are not an AI assistant. Your only function is to translate the user's text. Translate";

/// Before the source language in the default instruction.
pub const PROMPT_SOURCE: &'static str = " from ";

/// Between the source and the target language in the default instruction.
pub const PROMPT_LINK: &'static str = " to ";

/// Rest of the default instruction, after the target language.
pub const PROMPT_TAIL: &'static str = ". Do not, under any circumstances, write anything other than the translated text. Do not apologize. Do not explain. Do not add any extra text. If you cannot translate the text, repeat the original text.\n\nExamples:\n\nUser: Hello\nAssistant: 你好\n\nUser: World\nAssistant: 世界\n\nUser: xyzabc\nAssistant: xyzabc";

/// Source language named in the instruction when none is given.
pub const AUTO_SOURCE: &'static str = "auto";

/// Path of the chat-completion endpoint under the base URL.
pub const COMPLETIONS_PATH: &'static str = "/chat/completions";

/// The instruction sent with each text: the configured one, or the default one
/// naming the source (or "auto") and target languages.
pub open spec fn prompt_for(custom: Option<String>, target: Seq<char>, source: Option<Seq<char>>) -> Seq<
    char,
> {
    match custom {
        Some(p) => p@,
        None => PROMPT_HEAD@ + PROMPT_SOURCE@ + match source {
            Some(s) => s,
            None => AUTO_SOURCE@,
        } + PROMPT_LINK@ + target + PROMPT_TAIL@,
    }
}

/// The view of an optional text.
pub open spec fn opt_view(s: Option<&str>) -> Option<Seq<char>> {
    match s {
        Some(t) => Some(t@),
        None => None,
    }
}

/// A copy of a list of texts.
fn copy_texts(v: &Vec<String>) -> (r: Vec<String>)
    ensures
        r@ == v@,
{
    let mut r: Vec<String> = Vec::new();
    let mut i: usize = 0;
    while i < v.len()
        invariant
            i <= v.len(),
            r@ == v@.subrange(0, i as int),
        decreases v.len() - i,
    {
        r.push(v[i].clone());
        i = i + 1;
        proof {
            assert(r@ =~= v@.subrange(0, i as int));
        }
    }
    proof {
        assert(r@ =~= v@);
    }
    r
}

/// The authorization header for `key`.
pub fn bearer_header(key: &str) -> (r: String)
    ensures
        r@ == "Bearer "@ + key@,
{
    concat("Bearer ", key)
}

/// The error for a response whose status is not a success: a refused
/// credential is an authentication error, any other status an HTTP error with
/// the body.
pub fn error_for_status(status: u16, body: String) -> (r: TranslationError)
    ensures
        status == STATUS_UNAUTHORIZED ==> r == TranslationError::AuthenticationError(body),
        status != STATUS_UNAUTHORIZED ==> r == (TranslationError::HttpError { status, body }),
{
    if status == STATUS_UNAUTHORIZED {
        TranslationError::AuthenticationError(body)
    } else {
        TranslationError::HttpError { status, body }
    }
}

/// The body of a successful response, or the error for its status.
pub fn check_status(status: u16, body: String) -> (r: Result<String, TranslationError>)
    ensures
        is_success_status(status) ==> r == Ok::<String, TranslationError>(body),
        !is_success_status(status) && status == STATUS_UNAUTHORIZED ==> r == Err::<
            String,
            TranslationError,
        >(TranslationError::AuthenticationError(body)),
        !is_success_status(status) && status != STATUS_UNAUTHORIZED ==> r == Err::<
            String,
            TranslationError,
        >(TranslationError::HttpError { status, body }),
{
    if 200 <= status && status <= 299 {
        Ok(body)
    } else {
        Err(error_for_status(status, body))
    }
}

/// The translation in a completion: the content of its first choice; no
/// choice at all is a service error.
pub fn first_choice(contents: Vec<String>) -> (r: Result<String, TranslationError>)
    ensures
        contents@.len() > 0 ==> r == Ok::<String, TranslationError>(contents@[0]),
        contents@.len() == 0 ==> (r matches Err(TranslationError::ServiceError(m)) && m@
            == "No translation results returned"@),
{
    if contents.len() == 0 {
        Err(TranslationError::ServiceError("No translation results returned".to_owned()))
    } else {
        Ok(contents[0].clone())
    }
}

/// The outcome of a batch whose items were translated independently: all the
/// translations in input order, or the error of the first item that failed.
pub fn collect_batch(results: Vec<Result<String, TranslationError>>) -> (r: Result<
    Vec<String>,
    TranslationError,
>)
    ensures
        (forall|i: int| 0 <= i < results@.len() ==> (#[trigger] results@[i]) is Ok) ==> (r matches Ok(
            v,
        ) && v@.len() == results@.len() && forall|i: int|
            0 <= i < results@.len() ==> results@[i] == Ok::<String, TranslationError>(
                #[trigger] v@[i],
            )),
        (exists|i: int| 0 <= i < results@.len() && (#[trigger] results@[i]) is Err) ==> r is Err,
        r matches Err(e) ==> exists|i: int|
            0 <= i < results@.len() && results@[i] == Err::<String, TranslationError>(e) && forall|
                j: int,
            | 0 <= j < i ==> (#[trigger] results@[j]) is Ok,
{
    let ghost all = results@;
    let mut out: Vec<String> = Vec::new();
    let mut rest = results;
    let ghost mut i: int = 0;
    while rest.len() > 0
        invariant
            0 <= i <= all.len(),
            all == results@,
            rest@ == all.subrange(i, all.len() as int),
            out@.len() == i,
            forall|j: int| 0 <= j < i ==> all[j] == Ok::<String, TranslationError>(#[trigger] out@[j]),
        decreases rest@.len(),
    {
        let item = rest.remove(0);
        proof {
            assert(item == all[i]);
        }
        match item {
            Ok(t) => {
                out.push(t);
                proof {
                    i = i + 1;
                    assert(rest@ =~= all.subrange(i, all.len() as int));
                }
            },
            Err(e) => {
                proof {
                    assert forall|j: int| 0 <= j < i implies (#[trigger] all[j]) is Ok by {
                        assert(all[j] == Ok::<String, TranslationError>(out@[j]));
                    }
                    assert(!(all[i] is Ok));
                    assert(all[i] == Err::<String, TranslationError>(e));
                }
                return Err(e);
            },
        }
    }
    proof {
        assert forall|j: int| 0 <= j < all.len() implies (#[trigger] all[j]) is Ok by {
            assert(all[j] == Ok::<String, TranslationError>(out@[j]));
        }
    }
    Ok(out)
}


/// The shared state of the chat-completion backend: its configuration, the
/// rotation over its keys, and one governor per key.
pub struct OpenAITranslator {
    config: OpenAIConfig,
    pool: CredentialPool,
    governors: Vec<RateGovernor>,
}

impl OpenAITranslator {
    /// The configuration.
    pub closed spec fn settings(&self) -> OpenAIConfig {
        self.config
    }

    /// The key rotation.
    pub closed spec fn rotation(&self) -> CredentialPool {
        self.pool
    }

    /// The governor of each key, in key order.
    pub closed spec fn governors(&self) -> Seq<RateGovernor> {
        self.governors@
    }

    /// The number of keys.
    pub open spec fn key_count(&self) -> nat {
        self.governors().len()
    }

    /// The rotation covers the configured keys, with one consistent governor
    /// per key, each with the configured limits.
    pub open spec fn wf(&self) -> bool {
        &&& self.rotation().wf()
        &&& self.rotation().keys() == self.settings().api_keys@
        &&& self.key_count() == self.settings().api_keys@.len()
        &&& forall|i: int|
            0 <= i < self.key_count() ==> (#[trigger] self.governors()[i]).wf()
                && self.governors()[i].limit() == self.settings().concurrent_limit
                && self.governors()[i].rpm() == self.settings().rpm_limit
    }

    /// A backend over `config`: the rotation starts at the first key, and each
    /// key has a governor with no admission yet. Without any key this is a
    /// configuration error, found here once rather than on each call.
    pub fn new(config: OpenAIConfig) -> (r: Result<OpenAITranslator, TranslationError>)
        ensures
            (r is Err) <==> config.api_keys@.len() == 0,
            r matches Err(e) ==> (e matches TranslationError::ConfigurationError(m) && m@
                == "No API keys configured"@),
            r matches Ok(t) ==> {
                &&& t.wf()
                &&& t.settings() == config
                &&& t.rotation().position() == 0
                &&& forall|i: int|
                    0 <= i < t.key_count() ==> (#[trigger] t.governors()[i]).in_flight() == 0
                        && t.governors()[i].admissions().len() == 0
            },
    {
        let mut governors: Vec<RateGovernor> = Vec::new();
        let mut i: usize = 0;
        while i < config.api_keys.len()
            invariant
                i <= config.api_keys.len(),
                governors@.len() == i,
                forall|j: int|
                    0 <= j < i ==> (#[trigger] governors@[j]).wf() && governors@[j].limit()
                        == config.concurrent_limit && governors@[j].rpm() == config.rpm_limit
                        && governors@[j].in_flight() == 0 && governors@[j].admissions().len() == 0,
            decreases config.api_keys.len() - i,
        {
            governors.push(RateGovernor::new(config.concurrent_limit, config.rpm_limit));
            i = i + 1;
        }
        match CredentialPool::new(copy_texts(&config.api_keys)) {
            Ok(pool) => Ok(OpenAITranslator { config, pool, governors }),
            Err(e) => Err(e),
        }
    }

    /// The configuration.
    pub fn config(&self) -> (r: &OpenAIConfig)
        ensures
            *r == self.settings(),
    {
        &self.config
    }

    /// The instruction sent with each text; see [`OpenAIConfig::get_system_prompt`].
    pub fn get_system_prompt(&self, target_lang: &str, source_lang: Option<&str>) -> (r: String)
        ensures
            r@ == prompt_for(self.settings().system_prompt, target_lang@, opt_view(source_lang)),
    {
        self.config.get_system_prompt(target_lang, source_lang)
    }

    /// The messages of one request: the instruction, then the text, each with
    /// its role.
    pub fn chat_messages(&self, text: &str, target_lang: &str, source_lang: Option<&str>) -> (r: Vec<
        (String, String),
    >)
        ensures
            r@.len() == 2,
            r@[0].0@ == "system"@,
            r@[0].1@ == prompt_for(self.settings().system_prompt, target_lang@, opt_view(source_lang)),
            r@[1].0@ == "user"@,
            r@[1].1@ == text@,
    {
        let mut v: Vec<(String, String)> = Vec::new();
        v.push(("system".to_owned(), self.get_system_prompt(target_lang, source_lang)));
        v.push(("user".to_owned(), text.to_owned()));
        v
    }

    /// The URL requests are sent to.
    pub fn completions_url(&self) -> (r: String)
        ensures
            r@ == self.settings().base_url@ + COMPLETIONS_PATH@,
    {
        concat(self.config.base_url.as_str(), COMPLETIONS_PATH)
    }

    /// Picks the key for one attempt, in turn: its index and the key.
    pub fn next_key(&mut self) -> (r: (usize, String))
        requires
            old(self).wf(),
        ensures
            final(self).wf(),
            final(self).settings() == old(self).settings(),
            final(self).governors() == old(self).governors(),
            final(self).rotation().keys() == old(self).rotation().keys(),
            r.0 == old(self).rotation().position(),
            r.1 == old(self).rotation().keys()[r.0 as int],
            final(self).rotation().position() == crate::pool::advance(
                old(self).rotation().position(),
                old(self).rotation().keys().len(),
            ),
    {
        self.pool.next()
    }

    /// Asks the governor of key `key_index` for an admission at `now_ms`.
    pub fn request_admission(&mut self, key_index: usize, now_ms: u64) -> (r: Admission)
        requires
            old(self).wf(),
            key_index < old(self).key_count(),
        ensures
            final(self).wf(),
            final(self).settings() == old(self).settings(),
            final(self).rotation() == old(self).rotation(),
            final(self).key_count() == old(self).key_count(),
            admission_step(
                old(self).governors()[key_index as int],
                now_ms,
                r,
                final(self).governors()[key_index as int],
            ),
            forall|j: int|
                0 <= j < old(self).key_count() && j != key_index ==> final(self).governors()[j]
                    == old(self).governors()[j],
    {
        self.governors[key_index].try_admit(now_ms)
    }

    /// Ends an admission of key `key_index`.
    pub fn release(&mut self, key_index: usize)
        requires
            old(self).wf(),
            key_index < old(self).key_count(),
        ensures
            final(self).wf(),
            final(self).settings() == old(self).settings(),
            final(self).rotation() == old(self).rotation(),
            final(self).key_count() == old(self).key_count(),
            release_step(old(self).governors()[key_index as int], final(self).governors()[key_index as int]),
            forall|j: int|
                0 <= j < old(self).key_count() && j != key_index ==> final(self).governors()[j]
                    == old(self).governors()[j],
    {
        self.governors[key_index].release();
    }
}

} // verus!
