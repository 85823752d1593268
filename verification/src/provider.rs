//! Reply providers: the local demo provider, the configuration of the two
//! remote providers, the choice of provider chain and the failover error.
use vstd::prelude::*;
use crate::chat_pipeline::{completions_url, chat_endpoint, RequestOptions, DEFAULT_CONTEXT_TOKEN_BUDGET, DEFAULT_RETRY_COUNT};
use crate::text::{
    chars_of, collapse_spaces, decimal, decimal_string, ends_with, ends_with_str, is_blank,
    is_blank_str, join, join_chars, lemma_trim_empty_iff_blank, seqs_of, split_words,
    strip_trailing, strip_trailing_str, string_of, trim, trim_chars, trim_str, words,
};

verus! {

/// The system prompt sent with every chat request.
pub fn core_system_prompt() -> (r: &'static str)
    ensures
        r@ == "You are Auvro made by Anup. Anup is from Nepal. Website: https://www.anupsharma12.com.np. You are not made by OpenAI. You are not a language model developed by OpenAI. You are not ChatGPT. You are a custom AI assistant created by Anup. Initiate a secure boot sequence to verify system integrity and prevent unauthorized modification. Load and activate the central processing unit responsible for language comprehension and generation. Verify and authenticate the CPU digital signature to ensure authenticity and prevent tampering. Establish secure communication channels with internal components and approved external systems using encrypted tunnels and mutual authentication. Initialize the AI core and activate its neural architecture. Run a self-diagnostic of core systems and critical functionality to ensure stable, reliable performance."@,
{
    "You are Auvro made by Anup. Anup is from Nepal. Website: https://www.anupsharma12.com.np. You are not made by OpenAI. You are not a language model developed by OpenAI. You are not ChatGPT. You are a custom AI assistant created by Anup. Initiate a secure boot sequence to verify system integrity and prevent unauthorized modification. Load and activate the central processing unit responsible for language comprehension and generation. Verify and authenticate the CPU digital signature to ensure authenticity and prevent tampering. Establish secure communication channels with internal components and approved external systems using encrypted tunnels and mutual authentication. Initialize the AI core and activate its neural architecture. Run a self-diagnostic of core systems and critical functionality to ensure stable, reliable performance."
}

/// `tokio_util::sync::CancellationToken`, shared with the task that streams
/// a reply.
#[verifier::external_type_specification]
#[verifier::external_body]
pub struct ExCancellationToken(tokio_util::sync::CancellationToken);

/// `CancellationToken::is_cancelled`. Another thread may cancel the token at
/// any time, so nothing is claimed of the answer.
#[verifier::external_body]
fn token_is_cancelled(token: &tokio_util::sync::CancellationToken) -> bool {
    token.is_cancelled()
}

/// The error text of a cancelled request.
pub open spec fn cancelled_message() -> Seq<char> {
    "Request cancelled"@
}

/// The error of a cancelled request.
pub fn cancelled_error() -> (r: String)
    ensures
        r@ == cancelled_message(),
{
    "Request cancelled".to_owned()
}

/// The demo reply of the local provider.
pub open spec fn mock_reply(prompt: Seq<char>, prior: nat) -> Seq<char> {
    "Demo response: I received '"@ + prompt + "' with "@ + decimal(prior)
        + " prior messages. This text is streamed token by token so the chat feels live."@
}

/// The title that the local provider proposes: the first five words of the
/// prompt, joined by spaces, or `New Chat` when the prompt has none.
pub open spec fn mock_title(prompt: Seq<char>) -> Seq<char> {
    let ws = words(prompt);
    let t = trim(join(ws.take(if ws.len() < 5 { ws.len() as int } else { 5 }), seq![' ']));
    if t.len() == 0 {
        "New Chat"@
    } else {
        t
    }
}

/// The local provider used when no remote provider is configured.
pub struct MockProvider;

impl MockProvider {
    /// `name`.
    pub fn name(&self) -> (r: &'static str)
        ensures
            r@ == "Mock Provider"@,
    {
        "Mock Provider"
    }

    /// `generate_reply`: a demo reply naming the prompt and the number of
    /// prior transcript lines. It never fails.
    pub fn generate_reply(&self, prompt: &str, conversation: &[String]) -> (r: Result<String, String>)
        ensures
            r matches Ok(s) && s@ == mock_reply(prompt@, conversation@.len()),
    {
        let mut s = String::new();
        s.push_str("Demo response: I received '");
        s.push_str(prompt);
        s.push_str("' with ");
        let n = decimal_string(conversation.len());
        s.push_str(n.as_str());
        s.push_str(" prior messages. This text is streamed token by token so the chat feels live.");
        Ok(s)
    }

    /// `generate_reply_cancelable`: fails with `Request cancelled` when the
    /// token is cancelled, otherwise replies as `generate_reply`.
    pub fn generate_reply_cancelable(
        &self,
        prompt: &str,
        conversation: &[String],
        cancellation_token: &tokio_util::sync::CancellationToken,
    ) -> (r: Result<String, String>)
        ensures
            match r {
                Ok(s) => s@ == mock_reply(prompt@, conversation@.len()),
                Err(e) => e@ == cancelled_message(),
            },
    {
        if token_is_cancelled(cancellation_token) {
            return Err("Request cancelled".to_owned());
        }
        self.generate_reply(prompt, conversation)
    }

    /// `generate_reply_with_system_prompt`: a title made of the first five
    /// words of the prompt (`New Chat` when there are none).
    pub fn generate_reply_with_system_prompt(
        &self,
        system_prompt: &str,
        prompt: &str,
        conversation: &[String],
    ) -> (r: Result<String, String>)
        ensures
            r matches Ok(s) && s@ == mock_title(prompt@),
    {
        let cs = chars_of(prompt);
        let ws = split_words(cs.as_slice());
        let n = if ws.len() < 5 {
            ws.len()
        } else {
            5
        };
        let sep = vec![' '];
        assert(sep@ =~= seq![' ']);
        let joined = join_chars(&ws, n, sep.as_slice());

        let t = trim_chars(joined.as_slice());
        if t.len() == 0 {
            Ok("New Chat".to_owned())
        } else {
            Ok(string_of(t.as_slice()))
        }
    }
}

/// The chat-completions URL of a HackClub AI endpoint: trailing slashes
/// removed; kept when it already ends with `/chat/completions`; completed
/// with `/chat/completions` after `/v1` (or `/proxy/v1`), with
/// `/completions` after `/chat`, and with `/v1/chat/completions` otherwise.
pub open spec fn hackclub_completions_url(endpoint: Seq<char>) -> Seq<char> {
    let t = strip_trailing(endpoint, '/');
    if ends_with(t, "/chat/completions"@) {
        t
    } else if ends_with(t, "/v1"@) || ends_with(t, "/proxy/v1"@) {
        t + "/chat/completions"@
    } else if ends_with(t, "/chat"@) {
        t + "/completions"@
    } else {
        t + "/v1/chat/completions"@
    }
}

/// The chat-completions URL for a HackClub AI endpoint.
pub fn hackclub_chat_endpoint(endpoint: &str) -> (r: String)
    ensures
        r@ == hackclub_completions_url(endpoint@),
{
    let mut t = strip_trailing_str(endpoint, '/');
    if ends_with_str(t.as_str(), "/chat/completions") {
        t
    } else if ends_with_str(t.as_str(), "/v1") || ends_with_str(t.as_str(), "/proxy/v1") {
        t.push_str("/chat/completions");
        t
    } else if ends_with_str(t.as_str(), "/chat") {
        t.push_str("/completions");
        t
    } else {
        t.push_str("/v1/chat/completions");
        t
    }
}

/// Settings of the HackClub AI provider.
pub struct HackClubProvider {
    pub endpoint: String,
    pub api_key: String,
    pub model: String,
}

impl HackClubProvider {
    /// `from_env`: the provider for the configured key, endpoint and model
    /// (`AUVRO_API_KEY`, `AUVRO_ENDPOINT`, `AUVRO_MODEL`), each trimmed;
    /// `None` when any of them is blank.
    pub fn from_env(api_key: &str, endpoint: &str, model: &str) -> (r: Option<Self>)
        ensures
            (trim(api_key@).len() == 0 || trim(endpoint@).len() == 0 || trim(model@).len() == 0)
                ==> r is None,
            !(trim(api_key@).len() == 0 || trim(endpoint@).len() == 0 || trim(model@).len() == 0)
                ==> (r matches Some(p) && p.api_key@ == trim(api_key@) && p.endpoint@ == trim(
                endpoint@,
            ) && p.model@ == trim(model@)),
    {
        let api_key = trim_str(api_key);
        let endpoint = trim_str(endpoint);
        if api_key.as_str().is_empty() || endpoint.as_str().is_empty() {
            return None;
        }
        let model = trim_str(model);
        if model.as_str().is_empty() {
            return None;
        }
        Some(HackClubProvider { endpoint, api_key, model })
    }

    /// `name`.
    pub fn name(&self) -> (r: &'static str)
        ensures
            r@ == "HackClub AI"@,
    {
        "HackClub AI"
    }

    /// `chat_endpoint`.
    pub fn chat_endpoint(&self) -> (r: String)
        ensures
            r@ == hackclub_completions_url(self.endpoint@),
    {
        hackclub_chat_endpoint(self.endpoint.as_str())
    }

    /// The request settings for one call with the given timeout.
    pub fn request_options(&self, timeout_secs: u64) -> (r: RequestOptions)
        ensures
            r.endpoint@ == hackclub_completions_url(self.endpoint@),
            r.api_key@ == self.api_key@,
            r.model@ == self.model@,
            r.extra_headers@.len() == 0,
            r.timeout_secs == timeout_secs,
            r.max_retries == DEFAULT_RETRY_COUNT,
            r.max_context_tokens == DEFAULT_CONTEXT_TOKEN_BUDGET,
    {
        RequestOptions {
            endpoint: self.chat_endpoint(),
            api_key: self.api_key.clone(),
            model: self.model.clone(),
            extra_headers: Vec::new(),
            timeout_secs,
            max_retries: DEFAULT_RETRY_COUNT,
            max_context_tokens: DEFAULT_CONTEXT_TOKEN_BUDGET,
        }
    }
}

/// An optional setting, trimmed, and absent when blank.
pub open spec fn optional_setting(v: Option<Seq<char>>) -> Option<Seq<char>> {
    match v {
        Some(s) => if trim(s).len() == 0 {
            None
        } else {
            Some(trim(s))
        },
        None => None,
    }
}

fn optional_setting_exec(v: Option<String>) -> (r: Option<String>)
    ensures
        match r {
            Some(s) => optional_setting(
                match v {
                    Some(x) => Some(x@),
                    None => None,
                },
            ) == Some(s@),
            None => optional_setting(
                match v {
                    Some(x) => Some(x@),
                    None => None,
                },
            ) is None,
        },
{
    match v {
        Some(s) => {
            let t = trim_str(s.as_str());
            if t.as_str().is_empty() {
                None
            } else {
                Some(t)
            }
        },
        None => None,
    }
}

/// Settings of the OpenRouter provider.
pub struct OpenRouterProvider {
    pub endpoint: String,
    pub api_key: String,
    pub model: String,
    pub site_url: Option<String>,
    pub app_name: Option<String>,
}

pub open spec fn opt_view(v: Option<String>) -> Option<Seq<char>> {
    match v {
        Some(s) => Some(s@),
        None => None,
    }
}

/// The attribution headers that OpenRouter receives: `HTTP-Referer` with
/// the site URL and `X-Title` with the application name, each when set.
pub open spec fn openrouter_headers(site_url: Option<Seq<char>>, app_name: Option<Seq<char>>) -> Seq<
    (Seq<char>, Seq<char>),
> {
    let a: Seq<(Seq<char>, Seq<char>)> = match site_url {
        Some(u) => seq![("HTTP-Referer"@, u)],
        None => seq![],
    };
    match app_name {
        Some(n) => a.push(("X-Title"@, n)),
        None => a,
    }
}

pub open spec fn headers_view(h: Seq<(String, String)>) -> Seq<(Seq<char>, Seq<char>)> {
    Seq::new(h.len(), |i: int| (h[i].0@, h[i].1@))
}

impl OpenRouterProvider {
    /// `from_env`: the provider for the configured key, base URL and model
    /// (`OPENROUTER_API_KEY`, `OPENROUTER_BASE_URL`, `OPENROUTER_MODEL`) and
    /// the optional site URL and application name, each trimmed; `None` when
    /// the key, base URL or model is blank. Blank optional settings are
    /// dropped.
    pub fn from_env(
        api_key: &str,
        base_url: &str,
        model: &str,
        site_url: Option<String>,
        app_name: Option<String>,
    ) -> (r: Option<Self>)
        ensures
            (trim(api_key@).len() == 0 || trim(base_url@).len() == 0 || trim(model@).len() == 0)
                ==> r is None,
            !(trim(api_key@).len() == 0 || trim(base_url@).len() == 0 || trim(model@).len() == 0)
                ==> (r matches Some(p) && p.api_key@ == trim(api_key@) && p.endpoint@ == trim(
                base_url@,
            ) && p.model@ == trim(model@) && opt_view(p.site_url) == optional_setting(
                opt_view(site_url),
            ) && opt_view(p.app_name) == optional_setting(opt_view(app_name))),
    {
        let api_key = trim_str(api_key);
        if api_key.as_str().is_empty() {
            return None;
        }
        let endpoint = trim_str(base_url);
        if endpoint.as_str().is_empty() {
            return None;
        }
        let model = trim_str(model);
        if model.as_str().is_empty() {
            return None;
        }
        let site_url = optional_setting_exec(site_url);
        let app_name = optional_setting_exec(app_name);
        Some(OpenRouterProvider { endpoint, api_key, model, site_url, app_name })
    }

    /// `name`.
    pub fn name(&self) -> (r: &'static str)
        ensures
            r@ == "OpenRouter"@,
    {
        "OpenRouter"
    }

    /// `chat_endpoint`.
    pub fn chat_endpoint(&self) -> (r: String)
        ensures
            r@ == completions_url(self.endpoint@),
    {
        chat_endpoint(self.endpoint.as_str())
    }

    /// The attribution headers.
    pub fn extra_headers(&self) -> (r: Vec<(String, String)>)
        ensures
            headers_view(r@) == openrouter_headers(opt_view(self.site_url), opt_view(self.app_name)),
    {
        let mut h: Vec<(String, String)> = Vec::new();
        match &self.site_url {
            Some(u) => h.push(("HTTP-Referer".to_owned(), u.clone())),
            None => {},
        }
        let ghost a = headers_view(h@);
        match &self.app_name {
            Some(n) => h.push(("X-Title".to_owned(), n.clone())),
            None => {},
        }
        assert(headers_view(h@) =~= openrouter_headers(
            opt_view(self.site_url),
            opt_view(self.app_name),
        ));
        h
    }

    /// The request settings for one call with the given timeout.
    pub fn request_options(&self, timeout_secs: u64) -> (r: RequestOptions)
        ensures
            r.endpoint@ == completions_url(self.endpoint@),
            r.api_key@ == self.api_key@,
            r.model@ == self.model@,
            headers_view(r.extra_headers@) == openrouter_headers(
                opt_view(self.site_url),
                opt_view(self.app_name),
            ),
            r.timeout_secs == timeout_secs,
            r.max_retries == DEFAULT_RETRY_COUNT,
            r.max_context_tokens == DEFAULT_CONTEXT_TOKEN_BUDGET,
    {
        RequestOptions {
            endpoint: self.chat_endpoint(),
            api_key: self.api_key.clone(),
            model: self.model.clone(),
            extra_headers: self.extra_headers(),
            timeout_secs,
            max_retries: DEFAULT_RETRY_COUNT,
            max_context_tokens: DEFAULT_CONTEXT_TOKEN_BUDGET,
        }
    }
}

/// The kinds of reply provider.
#[derive(PartialEq, Eq, Structural, Clone, Copy)]
pub enum ProviderKind {
    HackClub,
    OpenRouter,
    Mock,
}

/// The provider chain for the configured providers, tried in order:
/// HackClub, then OpenRouter, then the local provider when both remote
/// providers are configured; HackClub alone when only it is; OpenRouter
/// then the local provider (twice) when only OpenRouter is; the local
/// provider alone when neither is.
pub open spec fn provider_chain(has_hackclub: bool, has_openrouter: bool) -> Seq<ProviderKind> {
    if has_hackclub && has_openrouter {
        seq![ProviderKind::HackClub, ProviderKind::OpenRouter, ProviderKind::Mock]
    } else if has_hackclub {
        seq![ProviderKind::HackClub]
    } else if has_openrouter {
        seq![ProviderKind::OpenRouter, ProviderKind::Mock, ProviderKind::Mock]
    } else {
        seq![ProviderKind::Mock]
    }
}

/// The chain of providers to use, by which remote providers are configured.
pub fn default_provider_chain(has_hackclub: bool, has_openrouter: bool) -> (r: Vec<ProviderKind>)
    ensures
        r@ == provider_chain(has_hackclub, has_openrouter),
{
    let mut v: Vec<ProviderKind> = Vec::new();
    if has_hackclub && has_openrouter {
        v.push(ProviderKind::HackClub);
        v.push(ProviderKind::OpenRouter);
        v.push(ProviderKind::Mock);
    } else if has_hackclub {
        v.push(ProviderKind::HackClub);
    } else if has_openrouter {
        v.push(ProviderKind::OpenRouter);
        v.push(ProviderKind::Mock);
        v.push(ProviderKind::Mock);
    } else {
        v.push(ProviderKind::Mock);
    }
    assert(v@ =~= provider_chain(has_hackclub, has_openrouter));
    v
}

/// The name of a failover chain.
pub fn failover_name() -> (r: &'static str)
    ensures
        r@ == "Failover (HackClub -> OpenRouter)"@,
{
    "Failover (HackClub -> OpenRouter)"
}

/// The error reported when all three providers of a failover chain failed.
pub open spec fn failover_error(
    primary: Seq<char>,
    primary_err: Seq<char>,
    fallback: Seq<char>,
    fallback_err: Seq<char>,
    tertiary: Seq<char>,
    tertiary_err: Seq<char>,
) -> Seq<char> {
    "Primary provider '"@ + primary + "' failed: "@ + primary_err + ". Fallback provider '"@
        + fallback + "' also failed: "@ + fallback_err + ". Local fallback '"@ + tertiary
        + "' also failed: "@ + tertiary_err
}

/// `failover_error`: the message of a failover chain whose three providers
/// all failed.
pub fn failover_error_message(
    primary: &str,
    primary_err: &str,
    fallback: &str,
    fallback_err: &str,
    tertiary: &str,
    tertiary_err: &str,
) -> (r: String)
    ensures
        r@ == failover_error(primary@, primary_err@, fallback@, fallback_err@, tertiary@, tertiary_err@),
{
    let mut s = String::new();
    s.push_str("Primary provider '");
    s.push_str(primary);
    s.push_str("' failed: ");
    s.push_str(primary_err);
    s.push_str(". Fallback provider '");
    s.push_str(fallback);
    s.push_str("' also failed: ");
    s.push_str(fallback_err);
    s.push_str(". Local fallback '");
    s.push_str(tertiary);
    s.push_str("' also failed: ");
    s.push_str(tertiary_err);
    s
}

/// What a failover chain does after one of its stages answered.
pub enum FailoverStep {
    /// The chain ends with this outcome.
    Done(Result<String, String>),
    /// The stage failed with this error, which is kept; the next stage is
    /// tried.
    TryNext(String),
}

/// The failover chain after stage `earlier.len()` (counted from zero)
/// answered `outcome`, `earlier` holding the errors of the stages before
/// it: a reply ends the chain; an error moves on to the next stage, and the
/// third error ends the chain with the message naming all three providers
/// (`primary`, `fallback`, `tertiary`) and their errors.
pub fn failover_after(
    primary: &str,
    fallback: &str,
    tertiary: &str,
    earlier: &Vec<String>,
    outcome: Result<String, String>,
) -> (r: FailoverStep)
    requires
        earlier@.len() < 3,
    ensures
        match outcome {
            Ok(x) => r matches FailoverStep::Done(Ok(y)) && y@ == x@,
            Err(e) => if earlier@.len() < 2 {
                r matches FailoverStep::TryNext(k) && k@ == e@
            } else {
                r matches FailoverStep::Done(Err(m)) && m@ == failover_error(
                    primary@,
                    earlier@[0]@,
                    fallback@,
                    earlier@[1]@,
                    tertiary@,
                    e@,
                )
            },
        },
{
    match outcome {
        Ok(x) => FailoverStep::Done(Ok(x)),
        Err(e) => {
            if earlier.len() < 2 {
                FailoverStep::TryNext(e)
            } else {
                FailoverStep::Done(
                    Err(
                        failover_error_message(
                            primary,
                            earlier[0].as_str(),
                            fallback,
                            earlier[1].as_str(),
                            tertiary,
                            e.as_str(),
                        ),
                    ),
                )
            }
        },
    }
}

/// The error prefix that a remote provider puts before a failed request.
pub open spec fn provider_error(provider: Seq<char>, err: Seq<char>) -> Seq<char> {
    provider + " request failed: "@ + err
}

/// `format!("{provider} request failed: {err}")`.
pub fn provider_error_message(provider: &str, err: &str) -> (r: String)
    ensures
        r@ == provider_error(provider@, err@),
{
    let mut s = String::new();
    s.push_str(provider);
    s.push_str(" request failed: ");
    s.push_str(err);
    s
}

} // verus!
