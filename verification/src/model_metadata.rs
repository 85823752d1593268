//! Model metadata shown in the settings: reading model lists from the
//! providers' replies, and the lazy, time-limited cache of the result.
use vstd::prelude::*;
use crate::json::{
    get_spec, json_get, json_str, json_u64, opt_str, opt_u64, str_spec, u64_spec, JsonNumber,
    JsonValue,
};
use crate::text::{ends_with, ends_with_str, is_blank, is_blank_str, strip_trailing, strip_trailing_str, trim, trim_str};

verus! {

/// The message shown when no provider could list its models.
pub open spec fn all_providers_unavailable() -> Seq<char> {
    "Could not load models \u{2014} HackClub AI and OpenRouter both unavailable. Check your connection or add an OpenRouter key in Settings."@
}

pub fn all_providers_unavailable_message() -> (r: String)
    ensures
        r@ == all_providers_unavailable(),
{
    "Could not load models \u{2014} HackClub AI and OpenRouter both unavailable. Check your connection or add an OpenRouter key in Settings.".to_owned()
}

/// Which provider a model was listed by.
#[derive(Clone, Copy, PartialEq, Eq, Structural)]
pub enum ModelProvider {
    HackClub,
    OpenRouter,
}

/// A listed model. Prices are kept as the text of the reply's value (a
/// number or a string), to be read as decimal numbers by the display.
pub struct ModelInfo {
    pub id: String,
    pub name: String,
    pub provider: ModelProvider,
    pub context_length: u32,
    pub prompt_price: Option<String>,
    pub completion_price: Option<String>,
}

/// A listed model, as the specification sees it.
pub struct ModelView {
    pub id: Seq<char>,
    pub name: Seq<char>,
    pub provider: ModelProvider,
    pub context_length: u32,
    pub prompt_price: Option<Seq<char>>,
    pub completion_price: Option<Seq<char>>,
}

pub open spec fn model_view(m: ModelInfo) -> ModelView {
    ModelView {
        id: m.id@,
        name: m.name@,
        provider: m.provider,
        context_length: m.context_length,
        prompt_price: match m.prompt_price {
            Some(p) => Some(p@),
            None => None,
        },
        completion_price: match m.completion_price {
            Some(p) => Some(p@),
            None => None,
        },
    }
}

pub open spec fn models_view(ms: Seq<ModelInfo>) -> Seq<ModelView> {
    Seq::new(ms.len(), |i: int| model_view(ms[i]))
}

/// The text of a price value: a number's text or a string; nothing for
/// other values.
pub open spec fn price_text(v: Option<JsonValue>) -> Option<Seq<char>> {
    match v {
        Some(JsonValue::Number(n)) => Some(n.text@),
        Some(JsonValue::Str(s)) => Some(s@),
        _ => None,
    }
}

/// The model described by one entry of a model list, if it has an id: its
/// `name` when not blank (else the id), its `context_length` as a `u32`
/// (0 when absent), and its `pricing.prompt` and `pricing.completion`.
pub open spec fn model_entry(item: JsonValue, provider: ModelProvider) -> Option<ModelView> {
    let id = match opt_str(get_spec(item, "id"@)) {
        Some(s) => s,
        None => seq![],
    };
    if id.len() == 0 {
        None
    } else {
        let name = match opt_str(get_spec(item, "name"@)) {
            Some(n) => if is_blank(n) {
                id
            } else {
                n
            },
            None => id,
        };
        let pricing = get_spec(item, "pricing"@);
        Some(
            ModelView {
                id,
                name,
                provider,
                context_length: (match opt_u64(get_spec(item, "context_length"@)) {
                    Some(c) => c,
                    None => 0,
                }) as u32,
                prompt_price: price_text(
                    match pricing {
                        Some(p) => get_spec(p, "prompt"@),
                        None => None,
                    },
                ),
                completion_price: price_text(
                    match pricing {
                        Some(p) => get_spec(p, "completion"@),
                        None => None,
                    },
                ),
            },
        )
    }
}

/// The models of a list of entries, in order, entries without an id left
/// out.
pub open spec fn models_of(items: Seq<JsonValue>, provider: ModelProvider) -> Seq<ModelView>
    decreases items.len(),
{
    if items.len() == 0 {
        seq![]
    } else {
        let rest = models_of(items.drop_last(), provider);
        match model_entry(items.last(), provider) {
            Some(m) => rest.push(m),
            None => rest,
        }
    }
}

/// The entries of a model-list reply: the reply itself when it is an array,
/// else its `data` member when that is an array.
pub open spec fn model_list_items(body: JsonValue) -> Option<Seq<JsonValue>> {
    match body {
        JsonValue::Array(items) => Some(items@),
        _ => match get_spec(body, "data"@) {
            Some(JsonValue::Array(items)) => Some(items@),
            _ => None,
        },
    }
}

fn price_of(v: Option<&JsonValue>) -> (r: Option<String>)
    ensures
        match r {
            Some(s) => price_text(
                match v {
                    Some(x) => Some(*x),
                    None => None,
                },
            ) == Some(s@),
            None => price_text(
                match v {
                    Some(x) => Some(*x),
                    None => None,
                },
            ) is None,
        },
{
    match v {
        Some(JsonValue::Number(n)) => Some(n.text.clone()),
        Some(JsonValue::Str(s)) => Some(s.clone()),
        _ => None,
    }
}

fn parse_model(item: &JsonValue, provider: ModelProvider) -> (r: Option<ModelInfo>)
    ensures
        match r {
            Some(m) => model_entry(*item, provider) == Some(model_view(m)),
            None => model_entry(*item, provider) is None,
        },
{
    let id_key = "id".to_owned();
    let id = match json_get(item, &id_key) {
        Some(v) => match json_str(v) {
            Some(s) => s.clone(),
            None => String::new(),
        },
        None => String::new(),
    };
    if id.as_str().is_empty() {
        return None;
    }
    let name_key = "name".to_owned();
    let name = match json_get(item, &name_key) {
        Some(v) => match json_str(v) {
            Some(n) => if is_blank_str(n.as_str()) {
                id.clone()
            } else {
                n.clone()
            },
            None => id.clone(),
        },
        None => id.clone(),
    };
    let ctx_key = "context_length".to_owned();
    let ctx = match json_get(item, &ctx_key) {
        Some(v) => match json_u64(v) {
            Some(c) => c,
            None => 0,
        },
        None => 0,
    };
    let pricing_key = "pricing".to_owned();
    let prompt_key = "prompt".to_owned();
    let completion_key = "completion".to_owned();
    let pricing = json_get(item, &pricing_key);
    let prompt_price = price_of(
        match pricing {
            Some(p) => json_get(p, &prompt_key),
            None => None,
        },
    );
    let completion_price = price_of(
        match pricing {
            Some(p) => json_get(p, &completion_key),
            None => None,
        },
    );
    Some(
        ModelInfo {
            id,
            name,
            provider,
            context_length: ctx as u32,
            prompt_price,
            completion_price,
        },
    )
}

/// `parse_models`: the models of a model-list reply, or the given error
/// label when the reply is not a list.
pub fn parse_models(body: &JsonValue, provider: ModelProvider, parse_error_label: &str) -> (r: Result<
    Vec<ModelInfo>,
    String,
>)
    ensures
        match model_list_items(*body) {
            None => r matches Err(e) && e@ == parse_error_label@,
            Some(items) => r matches Ok(ms) && models_view(ms@) == models_of(items, provider),
        },
{
    let data_key = "data".to_owned();
    let items = match body {
        JsonValue::Array(items) => items,
        _ => match json_get(body, &data_key) {
            Some(JsonValue::Array(items)) => items,
            _ => return Err(parse_error_label.to_owned()),
        },
    };
    let mut models: Vec<ModelInfo> = Vec::new();
    let mut i: usize = 0;
    while i < items.len()
        invariant
            i <= items@.len(),
            model_list_items(*body) == Some(items@),
            models_view(models@) == models_of(items@.take(i as int), provider),
        decreases items.len() - i,
    {
        proof {
            assert(items@.take(i + 1).drop_last() =~= items@.take(i as int));
            assert(items@.take(i + 1).last() == items@[i as int]);
        }
        let ghost before = models_view(models@);
        match parse_model(&items[i], provider) {
            Some(m) => {
                models.push(m);
                assert(models_view(models@) =~= before.push(model_view(models@.last())));
            },
            None => {},
        }
        i += 1;
    }
    assert(items@.take(items@.len() as int) =~= items@);
    Ok(models)
}

/// Law (one entry): an entry whose `id` is a non-empty string is listed
/// under that id, for the provider asked; its name is its `name` when that
/// is a string that is not blank, else the id; its context length is its
/// `context_length` when that is a whole number (0 otherwise); its prompt
/// price is the text of its own `pricing.prompt` member and its completion
/// price that of its own `pricing.completion` member (a string as it is, a
/// number as its written form), and a price whose member is missing or of
/// another kind is absent. An entry without such an id is left out.
pub proof fn law_model_entry_fields(item: JsonValue, provider: ModelProvider)
    ensures
        !(get_spec(item, "id"@) matches Some(JsonValue::Str(id)) && id@.len() > 0) ==> model_entry(
            item,
            provider,
        ) is None,
        (get_spec(item, "id"@) matches Some(JsonValue::Str(id)) && id@.len() > 0) ==> (model_entry(item, provider) matches Some(m) && {
            &&& get_spec(item, "id"@) matches Some(JsonValue::Str(id)) && m.id == id@ && match get_spec(item, "name"@) {
                Some(JsonValue::Str(n)) => m.name == if is_blank(n@) { id@ } else { n@ },
                _ => m.name == id@,
            }
            &&& m.provider == provider
            &&& match get_spec(item, "context_length"@) {
                Some(JsonValue::Number(n)) => match n.as_u64 {
                    Some(c) => m.context_length == c as u32,
                    None => m.context_length == 0,
                },
                _ => m.context_length == 0,
            }
            &&& match get_spec(item, "pricing"@) {
                Some(pricing) => {
                    &&& match get_spec(pricing, "prompt"@) {
                        Some(JsonValue::Str(t)) => m.prompt_price == Some(t@),
                        Some(JsonValue::Number(n)) => m.prompt_price == Some(n.text@),
                        _ => m.prompt_price is None,
                    }
                    &&& match get_spec(pricing, "completion"@) {
                        Some(JsonValue::Str(t)) => m.completion_price == Some(t@),
                        Some(JsonValue::Number(n)) => m.completion_price == Some(n.text@),
                        _ => m.completion_price is None,
                    }
                },
                None => m.prompt_price is None && m.completion_price is None,
            }
        }),
{
}

/// Law (the list): when every entry has an id, the list has one model per
/// entry, in the entries' order, each the model of its own entry.
pub proof fn law_models_follow_entries(items: Seq<JsonValue>, provider: ModelProvider)
    requires
        forall|i: int| 0 <= i < items.len() ==> (#[trigger] model_entry(items[i], provider)) is Some,
    ensures
        models_of(items, provider).len() == items.len(),
        forall|i: int| 0 <= i < items.len() ==> Some(#[trigger] models_of(items, provider)[i]) == model_entry(items[i], provider),
    decreases items.len(),
{
    if items.len() > 0 {
        let rest = items.drop_last();
        assert forall|i: int| 0 <= i < rest.len() implies (#[trigger] model_entry(rest[i], provider)) is Some by {
            assert(rest[i] == items[i]);
        }
        law_models_follow_entries(rest, provider);
        assert(model_entry(items[items.len() - 1], provider) is Some);
        assert forall|i: int| 0 <= i < items.len() implies Some(#[trigger] models_of(items, provider)[i]) == model_entry(items[i], provider) by {
            if i < items.len() - 1 {
                assert(rest[i] == items[i]);
            }
        }
    }
}

/// The model-list URL of an API base: trimmed, trailing slashes removed,
/// `/models` appended unless already there; `None` when the base is blank.
pub open spec fn models_url(base: Seq<char>) -> Option<Seq<char>> {
    let b = strip_trailing(trim(base), '/');
    if b.len() == 0 {
        None
    } else if ends_with(b, "/models"@) {
        Some(b)
    } else {
        Some(b + "/models"@)
    }
}

/// The model-list URL of a provider base URL.
pub fn models_endpoint(base: &str) -> (r: Option<String>)
    ensures
        match r {
            Some(u) => models_url(base@) == Some(u@),
            None => models_url(base@) is None,
        },
{
    let t = trim_str(base);
    let mut b = strip_trailing_str(t.as_str(), '/');
    if b.as_str().is_empty() {
        return None;
    }
    if !ends_with_str(b.as_str(), "/models") {
        b.push_str("/models");
    }
    Some(b)
}

/// What the model listing does after asking HackClub.
pub enum FallbackStep {
    /// The listing is final.
    Done(Result<Vec<ModelInfo>, String>),
    /// Ask OpenRouter.
    AskOpenRouter,
}

/// The model listing after asking HackClub: a non-empty
/// list is kept; otherwise OpenRouter is asked when a key is set, and the
/// combined failure is reported when none is.
pub fn after_hackclub_listing(hackclub: Result<Vec<ModelInfo>, String>, openrouter_api_key: &str) -> (r: FallbackStep)
    ensures
        match hackclub {
            Ok(ms) if ms@.len() > 0 => r matches FallbackStep::Done(Ok(rs)) && rs == ms,
            _ => if is_blank(openrouter_api_key@) {
                r matches FallbackStep::Done(Err(e)) && e@ == all_providers_unavailable()
            } else {
                r is AskOpenRouter
            },
        },
{
    match hackclub {
        Ok(ms) => {
            if ms.len() > 0 {
                return FallbackStep::Done(Ok(ms));
            }
        },
        Err(_) => {},
    }
    if is_blank_str(openrouter_api_key) {
        FallbackStep::Done(Err(all_providers_unavailable_message()))
    } else {
        FallbackStep::AskOpenRouter
    }
}

/// The model listing after asking OpenRouter: a non-empty
/// list, or the combined failure.
pub fn after_openrouter_listing(openrouter: Result<Vec<ModelInfo>, String>) -> (r: Result<
    Vec<ModelInfo>,
    String,
>)
    ensures
        match openrouter {
            Ok(ms) if ms@.len() > 0 => r matches Ok(rs) && rs == ms,
            _ => r matches Err(e) && e@ == all_providers_unavailable(),
        },
{
    match openrouter {
        Ok(ms) => {
            if ms.len() > 0 {
                Ok(ms)
            } else {
                Err(all_providers_unavailable_message())
            }
        },
        Err(_) => Err(all_providers_unavailable_message()),
    }
}

/// The state of the lazy model-metadata cache. Times are nanoseconds on
/// the caller's clock.
pub enum CacheState {
    Empty,
    Loading,
    Loaded { models: Vec<ModelInfo>, fetched_at_ns: u64 },
    Failed(String),
}

/// What a request for the model list does.
#[derive(PartialEq, Eq, Structural)]
pub enum EnsureStep {
    /// Mark the cache loading and start a fetch; not ready yet.
    StartFetch,
    /// Nothing to do; not ready.
    NotReady,
    /// The cached list is ready.
    Ready,
}

/// The decision of a request for the model list at time `now_ns`: fetch when the cache is
/// empty or its list is at least `ttl_ns` old; wait while loading or after
/// a failure; otherwise the list is ready when it is no older than `ttl_ns`.
pub open spec fn ensure_step(state: CacheState, now_ns: u64, ttl_ns: u64) -> EnsureStep {
    match state {
        CacheState::Empty => EnsureStep::StartFetch,
        CacheState::Loading => EnsureStep::NotReady,
        CacheState::Failed(_) => EnsureStep::NotReady,
        CacheState::Loaded { fetched_at_ns, .. } => {
            let age = if now_ns >= fetched_at_ns {
                now_ns - fetched_at_ns
            } else {
                0
            };
            if age >= ttl_ns {
                EnsureStep::StartFetch
            } else {
                EnsureStep::Ready
            }
        },
    }
}

/// A list fetched at `fetched_at_ns` is served while it is younger than
/// `ttl_ns`, and fetched again from then on; while a fetch runs, or after
/// one failed, nothing is fetched.
pub proof fn law_list_served_until_stale(models: Vec<ModelInfo>, fetched_at_ns: u64, now_ns: u64, ttl_ns: u64)
    requires
        fetched_at_ns <= now_ns,
    ensures
        now_ns - fetched_at_ns < ttl_ns ==> ensure_step(CacheState::Loaded { models, fetched_at_ns }, now_ns, ttl_ns)
            == EnsureStep::Ready,
        now_ns - fetched_at_ns >= ttl_ns ==> ensure_step(CacheState::Loaded { models, fetched_at_ns }, now_ns, ttl_ns)
            == EnsureStep::StartFetch,
        ensure_step(CacheState::Loading, now_ns, ttl_ns) == EnsureStep::NotReady,
        forall|e: String| #[trigger] ensure_step(CacheState::Failed(e), now_ns, ttl_ns) == EnsureStep::NotReady,
{
}

/// The decision of a request for the model list ([`ensure_step`]).
pub fn ensure_loaded_step(state: &CacheState, now_ns: u64, ttl_ns: u64) -> (r: EnsureStep)
    ensures
        r == ensure_step(*state, now_ns, ttl_ns),
{
    match state {
        CacheState::Empty => EnsureStep::StartFetch,
        CacheState::Loading => EnsureStep::NotReady,
        CacheState::Failed(_) => EnsureStep::NotReady,
        CacheState::Loaded { fetched_at_ns, .. } => {
            if now_ns.saturating_sub(*fetched_at_ns) >= ttl_ns {
                EnsureStep::StartFetch
            } else {
                EnsureStep::Ready
            }
        },
    }
}

/// The cached list while it is no older than `ttl_ns`.
pub fn fresh_models<'a>(state: &'a CacheState, now_ns: u64, ttl_ns: u64) -> (r: Option<
    &'a Vec<ModelInfo>,
>)
    ensures
        match *state {
            CacheState::Loaded { models, fetched_at_ns } => if (if now_ns >= fetched_at_ns {
                now_ns - fetched_at_ns
            } else {
                0
            }) <= ttl_ns {
                r matches Some(ms) && *ms == models
            } else {
                r is None
            },
            _ => r is None,
        },
{
    match state {
        CacheState::Loaded { models, fetched_at_ns } => {
            if now_ns.saturating_sub(*fetched_at_ns) <= ttl_ns {
                Some(models)
            } else {
                None
            }
        },
        _ => None,
    }
}

/// The state after a fetch finished at time `now_ns`.
pub fn fetch_finished(result: Result<Vec<ModelInfo>, String>, now_ns: u64) -> (r: CacheState)
    ensures
        match result {
            Ok(ms) => r == (CacheState::Loaded { models: ms, fetched_at_ns: now_ns }),
            Err(e) => r == CacheState::Failed(e),
        },
{
    match result {
        Ok(models) => CacheState::Loaded { models, fetched_at_ns: now_ns },
        Err(err) => CacheState::Failed(err),
    }
}

} // verus!
