//! The dedicated translation backend: its configuration, and the decisions of
//! one batch call (admission, credential from the token cache, request
//! contents, and the reading of the answer).

use crate::error::{is_success_status, TranslationError, STATUS_UNAUTHORIZED};
use crate::governor::{admission_step, release_step, Admission, RateGovernor};
use crate::text::{concat, decimal, decimal_text, push_text};
use crate::token::{auth_outcome, AuthReply, AuthStep, TokenCache};
use vstd::prelude::*;

verus! {

/// Service endpoint when none is configured.
pub const DEFAULT_ENDPOINT: &'static str = "https://api-edge.cognitive.microsofttranslator.com";

/// Where tokens are fetched from when no key is configured.
pub const AUTH_URL: &'static str = "https://edge.microsoft.com/translate/auth";

/// Browser identification sent with token requests.
pub const AUTH_USER_AGENT: &'static str = "Mozilla/5.0 (Windows NT 10.0; Win64; x64) AppleWebKit/537.36 (KHTML, like Gecko) Chrome/91.0.4472.124 Safari/537.36";

/// Requests in flight when none is configured.
pub const DEFAULT_CONCURRENT_LIMIT: usize = 10;

/// Path of the translation call under the endpoint.
pub const TRANSLATE_PATH: &'static str = "/translate";

/// Scheme of the authorization header with a configured key.
pub const KEY_SCHEME: &'static str = "Ocp-Apim-Subscription-Key ";

/// Scheme of the authorization header with a fetched token.
pub const BEARER_SCHEME: &'static str = "Bearer ";

/// Configuration of the dedicated translation backend.
#[derive(Debug, Clone)]
pub struct MicrosoftConfig {
    /// Service endpoint; `None` means the default one.
    pub endpoint: Option<String>,
    /// Key; `None` means a token is fetched and cached.
    pub api_key: Option<String>,
    /// Requests in flight.
    pub concurrent_limit: usize,
}

impl Default for MicrosoftConfig {
    /// The default endpoint, fetched tokens, and 10 requests in flight.
    fn default() -> (r: MicrosoftConfig)
        ensures
            r.endpoint.is_none(),
            r.api_key.is_none(),
            r.concurrent_limit == DEFAULT_CONCURRENT_LIMIT,
    {
        MicrosoftConfig { endpoint: None, api_key: None, concurrent_limit: DEFAULT_CONCURRENT_LIMIT }
    }
}

impl MicrosoftConfig {
    /// A builder with nothing set.
    pub fn builder() -> (r: MicrosoftConfigBuilder)
        ensures
            r.set_endpoint().is_none(),
            r.set_api_key().is_none(),
            r.set_concurrent_limit().is_none(),
    {
        MicrosoftConfigBuilder { endpoint: None, api_key: None, concurrent_limit: None }
    }
}

/// Builds a [`MicrosoftConfig`]; what is not set takes its default.
#[derive(Debug)]
pub struct MicrosoftConfigBuilder {
    endpoint: Option<String>,
    api_key: Option<String>,
    concurrent_limit: Option<usize>,
}

impl MicrosoftConfigBuilder {
    /// The endpoint set, if any.
    pub closed spec fn set_endpoint(&self) -> Option<String> {
        self.endpoint
    }

    /// The key set, if any.
    pub closed spec fn set_api_key(&self) -> Option<String> {
        self.api_key
    }

    /// The concurrency limit set, if any.
    pub closed spec fn set_concurrent_limit(&self) -> Option<usize> {
        self.concurrent_limit
    }

    /// Sets the endpoint.
    pub fn endpoint(self, endpoint: &str) -> (r: MicrosoftConfigBuilder)
        ensures
            r.set_endpoint() matches Some(e) && e@ == endpoint@,
            r.set_api_key() == self.set_api_key(),
            r.set_concurrent_limit() == self.set_concurrent_limit(),
    {
        let mut b = self;
        b.endpoint = Some(endpoint.to_owned());
        b
    }

    /// Sets the key, or clears it so that tokens are fetched.
    pub fn api_key(self, api_key: Option<String>) -> (r: MicrosoftConfigBuilder)
        ensures
            r.set_api_key() == api_key,
            r.set_endpoint() == self.set_endpoint(),
            r.set_concurrent_limit() == self.set_concurrent_limit(),
    {
        let mut b = self;
        b.api_key = api_key;
        b
    }

    /// Sets the number of requests in flight.
    pub fn concurrent_limit(self, concurrent_limit: usize) -> (r: MicrosoftConfigBuilder)
        ensures
            r.set_concurrent_limit() == Some(concurrent_limit),
            r.set_endpoint() == self.set_endpoint(),
            r.set_api_key() == self.set_api_key(),
    {
        let mut b = self;
        b.concurrent_limit = Some(concurrent_limit);
        b
    }

    /// The configuration: each setting as set, or its default.
    pub fn build(self) -> (r: MicrosoftConfig)
        ensures
            r.endpoint == self.set_endpoint(),
            r.api_key == self.set_api_key(),
            r.concurrent_limit == match self.set_concurrent_limit() {
                Some(n) => n,
                None => DEFAULT_CONCURRENT_LIMIT,
            },
    {
        MicrosoftConfig {
            endpoint: self.endpoint,
            api_key: self.api_key,
            concurrent_limit: match self.concurrent_limit {
                Some(n) => n,
                None => DEFAULT_CONCURRENT_LIMIT,
            },
        }
    }
}

/// One translation of one text.
#[derive(Debug, Clone, PartialEq, Eq)]
pub struct TranslationResult {
    /// The translated text.
    pub text: String,
    /// The language it is in.
    pub to: String,
}

/// The text of a single-text call: the first translation of the first item;
/// an answer without one is a service error.
pub fn first_translation(results: Vec<Vec<TranslationResult>>) -> (r: Result<String, TranslationError>)
    ensures
        results@.len() > 0 && results@[0]@.len() > 0 ==> r == Ok::<String, TranslationError>(
            results@[0]@[0].text,
        ),
        !(results@.len() > 0 && results@[0]@.len() > 0) ==> (r matches Err(
            TranslationError::ServiceError(m),
        ) && m@ == "No translation results returned"@),
{
    if results.len() == 0 || results[0].len() == 0 {
        Err(TranslationError::ServiceError("No translation results returned".to_owned()))
    } else {
        Ok(results[0][0].text.clone())
    }
}

/// The texts of the items that have a translation, in order.
pub open spec fn first_texts(results: Seq<Vec<TranslationResult>>) -> Seq<String>
    decreases results.len(),
{
    if results.len() == 0 {
        Seq::empty()
    } else {
        let rest = first_texts(results.drop_last());
        let last = results.last();
        if last@.len() > 0 {
            rest.push(last@[0].text)
        } else {
            rest
        }
    }
}

/// The first translation of each item of a batch, in order, leaving out the
/// items that have none.
pub fn batch_texts(results: &Vec<Vec<TranslationResult>>) -> (r: Vec<String>)
    ensures
        r@ == first_texts(results@),
{
    let mut out: Vec<String> = Vec::new();
    let mut i: usize = 0;
    while i < results.len()
        invariant
            i <= results.len(),
            out@ == first_texts(results@.subrange(0, i as int)),
        decreases results.len() - i,
    {
        proof {
            assert(results@.subrange(0, i as int + 1).drop_last() =~= results@.subrange(0, i as int));
        }
        if results[i].len() > 0 {
            out.push(results[i][0].text.clone());
        }
        i = i + 1;
    }
    proof {
        assert(results@.subrange(0, results@.len() as int) =~= results@);
    }
    out
}

/// The query of a translation call: the API version, the target, sentence
/// lengths, and the source when one is given.
pub fn query_params(target_lang: &str, source_lang: Option<&str>) -> (r: Vec<(String, String)>)
    ensures
        r@.len() == if source_lang.is_some() {
            4nat
        } else {
            3nat
        },
        r@[0].0@ == "api-version"@ && r@[0].1@ == "3.0"@,
        r@[1].0@ == "to"@ && r@[1].1@ == target_lang@,
        r@[2].0@ == "includeSentenceLength"@ && r@[2].1@ == "true"@,
        source_lang matches Some(s) ==> r@[3].0@ == "from"@ && r@[3].1@ == s@,
{
    let mut v: Vec<(String, String)> = Vec::new();
    v.push(("api-version".to_owned(), "3.0".to_owned()));
    v.push(("to".to_owned(), target_lang.to_owned()));
    v.push(("includeSentenceLength".to_owned(), "true".to_owned()));
    if let Some(s) = source_lang {
        v.push(("from".to_owned(), s.to_owned()));
    }
    v
}

/// The body of an error answer: the service's own code and message when it
/// gave them, else the raw body.
pub open spec fn error_text(body: Seq<char>, detail: Option<(u32, String)>) -> Seq<char> {
    match detail {
        Some((code, message)) => "Error "@ + decimal(code as nat) + ": "@ + message@,
        None => body,
    }
}

/// The shared state of the dedicated backend: its configuration, one governor,
/// and the token cache.
pub struct MicrosoftTranslator {
    config: MicrosoftConfig,
    governor: RateGovernor,
    tokens: TokenCache,
}

impl MicrosoftTranslator {
    /// The configuration.
    pub closed spec fn settings(&self) -> MicrosoftConfig {
        self.config
    }

    /// The admission state.
    pub closed spec fn admissions(&self) -> RateGovernor {
        self.governor
    }

    /// The credential state.
    pub closed spec fn credentials(&self) -> TokenCache {
        self.tokens
    }

    /// The governor is consistent, bounds requests in flight by the
    /// configured limit, has no rate ceiling, and the cache serves the
    /// configured key if there is one.
    pub open spec fn wf(&self) -> bool {
        &&& self.admissions().wf()
        &&& self.admissions().limit() == self.settings().concurrent_limit
        &&& self.admissions().rpm() == 0
        &&& self.credentials().static_key == self.settings().api_key
    }

    /// A backend over `config`, with no admission and no token yet.
    pub fn new(config: MicrosoftConfig) -> (r: MicrosoftTranslator)
        ensures
            r.wf(),
            r.settings() == config,
            r.admissions().in_flight() == 0,
            r.credentials().cached.is_none(),
    {
        let governor = RateGovernor::new(config.concurrent_limit, 0);
        let tokens = TokenCache::new(config.api_key.clone());
        MicrosoftTranslator { config, governor, tokens }
    }

    /// The configuration.
    pub fn config(&self) -> (r: &MicrosoftConfig)
        ensures
            *r == self.settings(),
    {
        &self.config
    }

    /// The endpoint calls go to.
    pub fn endpoint(&self) -> (r: String)
        ensures
            r@ == match self.settings().endpoint {
                Some(e) => e@,
                None => DEFAULT_ENDPOINT@,
            },
    {
        match &self.config.endpoint {
            Some(e) => e.clone(),
            None => DEFAULT_ENDPOINT.to_owned(),
        }
    }

    /// The URL of the translation call.
    pub fn translate_url(&self) -> (r: String)
        ensures
            r@ == match self.settings().endpoint {
                Some(e) => e@,
                None => DEFAULT_ENDPOINT@,
            } + TRANSLATE_PATH@,
    {
        let mut s = self.endpoint();
        push_text(&mut s, TRANSLATE_PATH);
        s
    }

    /// The authorization header for `token`: the key scheme with a configured
    /// key, the bearer scheme with a fetched token.
    pub fn auth_header(&self, token: &str) -> (r: String)
        ensures
            r@ == if self.settings().api_key.is_some() {
                KEY_SCHEME@
            } else {
                BEARER_SCHEME@
            } + token@,
    {
        if self.config.api_key.is_some() {
            concat(KEY_SCHEME, token)
        } else {
            concat(BEARER_SCHEME, token)
        }
    }

    /// The credential to use at `now_ms`, if one is at hand: the configured
    /// key, or a cached token not yet due for refresh.
    pub fn cached_token(&self, now_ms: u64) -> (r: Option<String>)
        ensures
            r == self.credentials().answer(now_ms),
    {
        self.tokens.lookup(now_ms)
    }

    /// Handles the outcome of authentication call number `attempt`, made at
    /// `now_ms`; see [`TokenCache::on_auth_reply`].
    pub fn on_auth_reply(&mut self, attempt: u32, reply: AuthReply, now_ms: u64) -> (r: AuthStep)
        requires
            old(self).wf(),
        ensures
            final(self).wf(),
            final(self).settings() == old(self).settings(),
            final(self).admissions() == old(self).admissions(),
            auth_outcome(old(self).credentials(), attempt, reply, now_ms, r, final(self).credentials()),
    {
        self.tokens.on_auth_reply(attempt, reply, now_ms)
    }

    /// Drops the cached token, so that the next call fetches a new one.
    pub fn clear_cached_token(&mut self)
        requires
            old(self).wf(),
        ensures
            final(self).wf(),
            final(self).settings() == old(self).settings(),
            final(self).admissions() == old(self).admissions(),
            final(self).credentials() == old(self).credentials().without_token(),
    {
        self.tokens.invalidate();
    }

    /// Asks for an admission at `now_ms`.
    pub fn request_admission(&mut self, now_ms: u64) -> (r: Admission)
        requires
            old(self).wf(),
        ensures
            final(self).wf(),
            final(self).settings() == old(self).settings(),
            final(self).credentials() == old(self).credentials(),
            admission_step(old(self).admissions(), now_ms, r, final(self).admissions()),
    {
        self.governor.try_admit(now_ms)
    }

    /// Ends an admission.
    pub fn release(&mut self)
        requires
            old(self).wf(),
        ensures
            final(self).wf(),
            final(self).settings() == old(self).settings(),
            final(self).credentials() == old(self).credentials(),
            release_step(old(self).admissions(), final(self).admissions()),
    {
        self.governor.release();
    }

    /// Reads the status of an answer. A success gives the body back. Any other
    /// status is an error whose text is the service's code and message when it
    /// gave them (`detail`), else the body; a refused credential also drops the
    /// cached token and is an authentication error.
    pub fn check_response(&mut self, status: u16, body: String, detail: Option<(u32, String)>) -> (r:
        Result<String, TranslationError>)
        requires
            old(self).wf(),
        ensures
            final(self).wf(),
            final(self).settings() == old(self).settings(),
            final(self).admissions() == old(self).admissions(),
            is_success_status(status) ==> r == Ok::<String, TranslationError>(body),
            !is_success_status(status) && status == STATUS_UNAUTHORIZED ==> (r matches Err(
                TranslationError::AuthenticationError(m),
            ) && m@ == error_text(body@, detail)),
            !is_success_status(status) && status != STATUS_UNAUTHORIZED ==> (r matches Err(
                TranslationError::HttpError { status: s, body: m },
            ) && s == status && m@ == error_text(body@, detail)),
            !is_success_status(status) && status == STATUS_UNAUTHORIZED ==> final(self).credentials()
                == old(self).credentials().without_token(),
            is_success_status(status) || status != STATUS_UNAUTHORIZED ==> final(self).credentials()
                == old(self).credentials(),
    {
        if 200 <= status && status <= 299 {
            return Ok(body);
        }
        let text = match detail {
            Some((code, message)) => {
                let mut s = "Error ".to_owned();
                let digits = decimal_text(code as u64);
                push_text(&mut s, digits.as_str());
                push_text(&mut s, ": ");
                push_text(&mut s, message.as_str());
                s
            },
            None => body,
        };
        if status == STATUS_UNAUTHORIZED {
            self.tokens.invalidate();
            Err(TranslationError::AuthenticationError(text))
        } else {
            Err(TranslationError::HttpError { status, body: text })
        }
    }
}

} // verus!
