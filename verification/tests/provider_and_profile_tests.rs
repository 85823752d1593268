use auvro::backend::{
    conversation_url, map_profile_error, messages_list_url, signin_url, signup_url, EnvConfig, Profile,
};
use auvro::json::{JsonNumber, JsonValue};
use auvro::model_metadata::{
    after_hackclub_listing, after_openrouter_listing, ensure_loaded_step, fetch_finished, fresh_models, models_endpoint,
    parse_models, CacheState, EnsureStep, FallbackStep, ModelProvider,
};
use auvro::provider::{
    default_provider_chain, failover_after, failover_error_message, hackclub_chat_endpoint, FailoverStep, HackClubProvider, MockProvider,
    OpenRouterProvider, ProviderKind,
};
use auvro::session::{
    avatar_mime, normalize_ai_text, profile_initials, sidebar_title, SettingsStatus, ThemePreference,
};

fn s(x: &str) -> String {
    x.to_owned()
}

fn obj(entries: Vec<(&str, JsonValue)>) -> JsonValue {
    JsonValue::Object(entries.into_iter().map(|(k, v)| (k.to_owned(), v)).collect())
}

#[test]
fn theme_names_round_trip() {
    assert_eq!(ThemePreference::Light.as_str(), "light");
    assert_eq!(ThemePreference::from_profile(Some("Dark")), ThemePreference::Dark);
    assert_eq!(ThemePreference::from_profile(Some("LIGHT")), ThemePreference::Light);
    assert_eq!(ThemePreference::from_profile(Some("sepia")), ThemePreference::System);
    assert_eq!(ThemePreference::from_profile(None), ThemePreference::System);
    for t in [ThemePreference::System, ThemePreference::Light, ThemePreference::Dark] {
        assert_eq!(ThemePreference::from_profile(Some(t.as_str())), t);
    }
}

#[test]
fn settings_statuses() {
    let ok = SettingsStatus::success("Saved");
    assert!(!ok.is_error && ok.expires_at_ms.is_none());
    let timed = SettingsStatus::success_for("Saved", 2000, 500);
    assert_eq!(timed.expires_at_ms, Some(2500));
    let err = SettingsStatus::error("bad");
    assert!(err.is_error);
    assert_eq!(err.message, "bad");
}

#[test]
fn sidebar_titles_are_cut_at_28_characters() {
    assert_eq!(sidebar_title("Short title"), "Short title");
    let exactly = "a".repeat(28);
    assert_eq!(sidebar_title(&exactly), exactly);
    let long = "ñ".repeat(30);
    assert_eq!(sidebar_title(&long), format!("{}...", "ñ".repeat(25)));
}

#[test]
fn odd_spaces_become_plain() {
    assert_eq!(normalize_ai_text("a\u{00A0}b\u{2007}c\u{202F}d\u{2060}e\u{FEFF}f"), "a b c d e f");
    assert_eq!(normalize_ai_text("plain"), "plain");
}

#[test]
fn initials_and_avatar_types() {
    assert_eq!(profile_initials(&Some(s("ana@x.io"))), "A");
    assert_eq!(profile_initials(&Some(s("ßen@x.io"))), "ß");
    assert_eq!(profile_initials(&None), "U");
    assert_eq!(profile_initials(&Some(s(""))), "U");
    assert_eq!(avatar_mime(Some("PNG")), "image/png");
    assert_eq!(avatar_mime(Some("jpeg")), "image/jpeg");
    assert_eq!(avatar_mime(None), "image/jpeg");
}

#[test]
fn supabase_urls() {
    let env = EnvConfig {
        supabase_url: s("https://p.supabase.co//"),
        supabase_publishable_key: s("k"),
        auvro_api_key: s(""),
        auvro_endpoint: s(""),
        auvro_model: s(""),
        openrouter_api_key: s(""),
        openrouter_base_url: s(""),
        openrouter_model: s(""),
    };
    assert_eq!(env.supabase_rest_url(), "https://p.supabase.co/rest/v1");
    assert_eq!(env.supabase_auth_url(), "https://p.supabase.co/auth/v1");
    assert_eq!(signup_url("https://p"), "https://p/auth/v1/signup");
    assert_eq!(signin_url("https://p"), "https://p/auth/v1/token?grant_type=password");
    assert_eq!(conversation_url("r", "c1"), "r/conversations?id=eq.c1");
    assert_eq!(messages_list_url("r", "c1"), "r/messages?conversation_id=eq.c1&order=created_at.desc&limit=50&select=*");
}

#[test]
fn profile_errors_are_explained() {
    assert_eq!(
        map_profile_error(404, "404 Not Found", "{\"code\":\"PGRST205\"}", "load profile"),
        "Database not set up: profiles table is missing. Run the SQL setup for the profiles table first."
    );
    assert!(map_profile_error(403, "403 Forbidden", "code 42501", "update profile").starts_with("Profile write blocked"));
    assert_eq!(map_profile_error(500, "500 Internal Server Error", "oops", "update theme"), "Could not update theme (500 Internal Server Error): oops");
    let p = Profile::new(s("u"));
    assert_eq!(p.theme.as_deref(), Some("system"));
    assert!(p.display_name.is_none() && p.avatar_url.is_none());
}

#[test]
fn mock_provider_replies() {
    let mock = MockProvider;
    assert_eq!(mock.name(), "Mock Provider");
    let reply = mock.generate_reply("hi", &[s("You: a"), s("Auvro: b")]).unwrap();
    assert_eq!(reply, "Demo response: I received 'hi' with 2 prior messages. This text is streamed token by token so the chat feels live.");
    let token = tokio_util::sync::CancellationToken::new();
    assert!(mock.generate_reply_cancelable("hi", &[], &token).is_ok());
    token.cancel();
    assert_eq!(mock.generate_reply_cancelable("hi", &[], &token), Err(s("Request cancelled")));
    assert_eq!(mock.generate_reply_with_system_prompt("sys", "  one two three four five six ", &[]), Ok(s("one two three four five")));
    assert_eq!(mock.generate_reply_with_system_prompt("sys", "   ", &[]), Ok(s("New Chat")));
}

#[test]
fn provider_configuration() {
    assert!(HackClubProvider::from_env(" key ", "https://ai.hackclub.com", "  ").is_none());
    let hc = HackClubProvider::from_env(" key ", " https://ai.hackclub.com/proxy/v1/ ", " m ").unwrap();
    assert_eq!(hc.api_key, "key");
    assert_eq!(hc.chat_endpoint(), "https://ai.hackclub.com/proxy/v1/chat/completions");
    assert_eq!(hackclub_chat_endpoint("https://x/chat"), "https://x/chat/completions");
    assert_eq!(hackclub_chat_endpoint("https://x"), "https://x/v1/chat/completions");
    let options = hc.request_options(90);
    assert_eq!(options.timeout_secs, 90);
    assert_eq!(options.max_retries, 3);
    let or = OpenRouterProvider::from_env("k", "https://openrouter.ai/api/v1", "m", Some(s(" https://site ")), Some(s("  "))).unwrap();
    assert_eq!(or.chat_endpoint(), "https://openrouter.ai/api/v1/chat/completions");
    assert_eq!(or.extra_headers(), vec![(s("HTTP-Referer"), s("https://site"))]);
    assert!(matches!(default_provider_chain(true, true).as_slice(), [ProviderKind::HackClub, ProviderKind::OpenRouter, ProviderKind::Mock]));
    assert!(matches!(default_provider_chain(false, false).as_slice(), [ProviderKind::Mock]));
    assert_eq!(
        failover_error_message("A", "e1", "B", "e2", "C", "e3"),
        "Primary provider 'A' failed: e1. Fallback provider 'B' also failed: e2. Local fallback 'C' also failed: e3"
    );
}

#[test]
fn failover_chain_steps() {
    let none: Vec<String> = Vec::new();
    assert!(matches!(failover_after("A", "B", "C", &none, Ok(s("hi"))), FailoverStep::Done(Ok(r)) if r == "hi"));
    assert!(matches!(failover_after("A", "B", "C", &none, Err(s("e1"))), FailoverStep::TryNext(e) if e == "e1"));
    let one = vec![s("e1")];
    assert!(matches!(failover_after("A", "B", "C", &one, Err(s("e2"))), FailoverStep::TryNext(e) if e == "e2"));
    let two = vec![s("e1"), s("e2")];
    assert!(matches!(failover_after("A", "B", "C", &two, Ok(s("late"))), FailoverStep::Done(Ok(r)) if r == "late"));
    match failover_after("A", "B", "C", &two, Err(s("e3"))) {
        FailoverStep::Done(Err(m)) => assert_eq!(
            m,
            "Primary provider 'A' failed: e1. Fallback provider 'B' also failed: e2. Local fallback 'C' also failed: e3"
        ),
        _ => panic!("the third error ends the chain"),
    }
}

#[test]
fn models_are_parsed_and_cached() {
    let body = obj(vec![(
        "data",
        JsonValue::Array(vec![
            obj(vec![
                ("id", JsonValue::Str(s("m1"))),
                ("name", JsonValue::Str(s("Model One"))),
                ("context_length", JsonValue::Number(JsonNumber { text: s("8192"), as_u64: Some(8192) })),
                ("pricing", obj(vec![("prompt", JsonValue::Str(s("0.001")))])),
            ]),
            obj(vec![("name", JsonValue::Str(s("no id")))]),
            obj(vec![("id", JsonValue::Str(s("m2")))]),
        ]),
    )]);
    let models = parse_models(&body, ModelProvider::OpenRouter, "bad").unwrap();
    assert_eq!(models.len(), 2);
    assert_eq!(models[0].name, "Model One");
    assert_eq!(models[0].context_length, 8192);
    assert_eq!(models[0].prompt_price.as_deref(), Some("0.001"));
    assert_eq!(models[1].name, "m2");
    assert_eq!(parse_models(&obj(vec![]), ModelProvider::HackClub, "bad").err(), Some(s("bad")));
    assert_eq!(models_endpoint(" https://x/v1// "), Some(s("https://x/v1/models")));
    assert_eq!(models_endpoint("  "), None);
    assert!(matches!(after_hackclub_listing(Ok(vec![]), " "), FallbackStep::Done(Err(_))));
    assert!(matches!(after_hackclub_listing(Err(s("x")), "key"), FallbackStep::AskOpenRouter));
    assert!(after_openrouter_listing(Ok(vec![])).is_err());
    let state = fetch_finished(Ok(models), 1000);
    assert!(ensure_loaded_step(&state, 1500, 600) == EnsureStep::Ready);
    assert!(ensure_loaded_step(&state, 1600, 600) == EnsureStep::StartFetch);
    assert!(fresh_models(&state, 1600, 600).is_some());
    assert!(fresh_models(&state, 1601, 600).is_none());
    assert!(ensure_loaded_step(&CacheState::Empty, 0, 600) == EnsureStep::StartFetch);
    assert!(ensure_loaded_step(&CacheState::Loading, 0, 600) == EnsureStep::NotReady);
}

#[test]
fn normalizing_twice_changes_nothing() {
    let raw = "a\u{00A0}b\u{2007}c\u{FEFF}";
    let once = normalize_ai_text(raw);
    assert_eq!(once, "a b c ");
    assert_eq!(normalize_ai_text(&once), once);
    assert_eq!(once.chars().count(), raw.chars().count());
}

#[test]
fn sidebar_titles_fit_the_sidebar() {
    let long = "abcdefghijklmnopqrstuvwxyz0123456789";
    let shown = sidebar_title(long);
    assert_eq!(shown, "abcdefghijklmnopqrstuvwxy...");
    assert_eq!(shown.chars().count(), 28);
    assert_eq!(sidebar_title("exactly twenty-eight chars!!"), "exactly twenty-eight chars!!");
}
