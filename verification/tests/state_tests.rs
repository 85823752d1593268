use auvro::backend::{Conversation, Message, Profile};
use auvro::chat_state::{AppState, Effect};
use auvro::events::SupabaseEvent;
use auvro::json::JsonValue;
use auvro::auth::AuthReply;
use auvro::session::ThemePreference;
use auvro::startup::{missing_env_message, restore_auth_session, should_restore_session, user_from_fetch, RestoredSession, UserFetch};
use auvro::streaming::{fresh_message_ids, Fresh, ReplyPoll};

const USER: &str = "123e4567-e89b-12d3-a456-426614174000";

fn s(x: &str) -> String {
    x.to_owned()
}

fn signed_in() -> AppState {
    let restored = RestoredSession {
        is_authenticated: true,
        user_id: Some(s(USER)),
        user_email: Some(s("ana@example.com")),
        user_full_name: Some(s("Ana")),
        auth_notice: None,
    };
    let (mut state, effects) = AppState::initial(None, restored, Some(s("tok")), 0);
    assert!(effects.is_empty());
    assert_eq!(state.load_history_on_first_action(&None).len(), 2);
    state
}

fn conversation(id: &str, title: &str, updated: i64) -> Conversation {
    Conversation { id: s(id), user_id: s(USER), title: s(title), created_at_us: 0, updated_at_us: updated }
}

fn fresh() -> Fresh {
    Fresh { user_message_id: s("m-user"), assistant_message_id: s("m-reply"), now_us: 77 }
}

fn obj(entries: Vec<(&str, JsonValue)>) -> JsonValue {
    JsonValue::Object(entries.into_iter().map(|(k, v)| (k.to_owned(), v)).collect())
}

#[test]
fn initial_state_for_a_restored_session_waits_for_the_first_action() {
    let restored = RestoredSession {
        is_authenticated: true,
        user_id: Some(s(USER)),
        user_email: Some(s("ana@example.com")),
        user_full_name: None,
        auth_notice: Some(s("Session restored. Redirecting to chat.")),
    };
    let (mut state, startup) = AppState::initial(None, restored, Some(s("tok")), 5);
    assert!(startup.is_empty());
    assert!(state.history_pending);
    assert!(state.is_authenticated);
    assert_eq!(state.settings_email_draft, "ana@example.com");
    assert_eq!(state.settings_name_draft, "");
    assert!(state.show_sidebar);
    assert_eq!(state.theme_preference, ThemePreference::System);
    let effects = state.load_history_on_first_action(&None);
    assert!(matches!(&effects[0], Effect::ListConversations { token } if token == "tok"));
    assert!(matches!(&effects[1], Effect::LoadProfile { token, user_id } if token == "tok" && user_id == USER));
    assert!(!state.history_pending);
    assert!(state.load_history_on_first_action(&None).is_empty());
}

#[test]
fn initial_state_without_session_asks_nothing() {
    let restored = RestoredSession { is_authenticated: false, user_id: None, user_email: None, user_full_name: None, auth_notice: None };
    let (state, effects) = AppState::initial(Some(s("Missing required environment variables: SUPABASE_URL")), restored, Some(s("tok")), 0);
    assert!(!state.is_authenticated);
    assert_eq!(state.session_access_token, None);
    assert!(effects.is_empty());
}

#[test]
fn missing_environment_is_reported() {
    assert_eq!(missing_env_message("https://x", "key"), None);
    assert_eq!(
        missing_env_message(" ", ""),
        Some(s("Missing required environment variables: SUPABASE_URL, SUPABASE_PUBLISHABLE_KEY"))
    );
    assert_eq!(missing_env_message("https://x", " "), Some(s("Missing required environment variables: SUPABASE_PUBLISHABLE_KEY")));
    assert!(should_restore_session("https://x", "k"));
    assert!(!should_restore_session("", "k"));
}

#[test]
fn restoring_a_session() {
    let (none, e0) = restore_auth_session(None);
    assert!(!none.is_authenticated && e0.is_empty() && none.auth_notice.is_none());
    let (ok, e1) = restore_auth_session(Some(Ok((s("id"), s("a@b.c"), Some(s("Ana"))))));
    assert!(ok.is_authenticated && e1.is_empty());
    assert_eq!(ok.auth_notice, Some(s("Session restored. Redirecting to chat.")));
    let (expired, e2) = restore_auth_session(Some(Err(s("HTTP 401"))));
    assert!(!expired.is_authenticated);
    assert_eq!(expired.auth_notice, Some(s("Previous session expired. Please log in again.")));
    assert!(matches!(e2[0], Effect::DeleteToken));
}

#[test]
fn user_from_fetch_reads_id_email_and_name() {
    let body = obj(vec![
        ("id", JsonValue::Str(s("u1"))),
        ("email", JsonValue::Str(s("a@b.c"))),
        ("user_metadata", obj(vec![("full_name", JsonValue::Str(s("  Ana Lee ")))])),
    ]);
    assert_eq!(user_from_fetch(UserFetch::Body(body)), Ok((s("u1"), s("a@b.c"), Some(s("Ana Lee")))));
    assert_eq!(user_from_fetch(UserFetch::Body(obj(vec![]))), Err(s("User id missing in Supabase response")));
    assert_eq!(
        user_from_fetch(UserFetch::Body(obj(vec![("id", JsonValue::Str(s("u1")))]))),
        Err(s("User email missing in Supabase response"))
    );
    assert_eq!(user_from_fetch(UserFetch::HttpError(s("401 Unauthorized"))), Err(s("HTTP 401 Unauthorized")));
}

#[test]
fn access_token_falls_back_to_the_stored_one() {
    let mut state = signed_in();
    assert_eq!(state.access_token(&Some(s("stored"))), Ok(s("tok")));
    state.session_access_token = Some(s("   "));
    assert!(state.needs_stored_token());
    assert_eq!(state.access_token(&Some(s("stored"))), Ok(s("stored")));
    assert_eq!(state.access_token(&None), Err(s("Missing auth session token. Please log in again.")));
}

#[test]
fn user_uuid_is_parsed_and_errors_are_reported() {
    let mut state = signed_in();
    assert_eq!(state.current_user_uuid(), Ok(s(USER)));
    state.user_id = Some(s("not-a-uuid"));
    let err = state.current_user_uuid().unwrap_err();
    assert!(err.starts_with("Invalid user id 'not-a-uuid': "));
    state.user_id = None;
    assert_eq!(state.current_user_uuid(), Err(s("Missing user id. Please log in again.")));
}

#[test]
fn created_conversation_goes_first_once_and_gets_the_waiting_prompt() {
    let mut state = signed_in();
    state.conversations = vec![conversation("c1", "Old", 10), conversation("new", "Stale copy", 5)];
    state.pending_prompt_after_create = Some(s("Hello"));
    let effects = state.handle_event_with(SupabaseEvent::ConversationCreated(Ok(conversation("new", "New Chat", 20))), &None, fresh(), 100);
    let ids: Vec<&str> = state.conversations.iter().map(|c| c.id.as_str()).collect();
    assert_eq!(ids, vec!["new", "c1"]);
    assert_eq!(state.active_conversation_id, Some(s("new")));
    assert_eq!(state.pending_prompt_after_create, None);
    assert_eq!(state.messages.len(), 2);
    assert_eq!(state.messages[0].content, "Hello");
    assert_eq!(state.messages[0].id, "m-user");
    assert_eq!(state.messages[1].role, "assistant");
    assert!(state.is_loading);
    assert!(state.pending_title_generation.is_some());
    assert!(matches!(&effects[0], Effect::AppendMessage { role, content, .. } if role == "user" && content == "Hello"));
    assert!(matches!(&effects[1], Effect::BumpConversation { conversation_id, .. } if conversation_id == "new"));
    match &effects[2] {
        Effect::StartReply { prompt, conversation } => {
            assert_eq!(prompt, "Hello");
            assert_eq!(conversation, &vec![s("You: Hello"), s("Auvro: ")]);
        },
        _ => panic!("expected the provider to start"),
    }
}

#[test]
fn failed_creation_stops_waiting() {
    let mut state = signed_in();
    state.creating_new_chat = true;
    state.pending_prompt_after_create = Some(s("Hello"));
    let effects = state.handle_event_with(SupabaseEvent::ConversationCreated(Err(s("boom"))), &None, fresh(), 0);
    assert!(effects.is_empty());
    assert!(!state.creating_new_chat);
    assert_eq!(state.pending_prompt_after_create, None);
    assert_eq!(state.error_message, Some(s("boom")));
}

#[test]
fn loaded_conversations_are_newest_first_and_stable() {
    let mut state = signed_in();
    let loaded = vec![conversation("a", "A", 1), conversation("b", "B", 3), conversation("c", "C", 1), conversation("d", "D", 2)];
    state.handle_event_with(SupabaseEvent::ConversationsLoaded(Ok(loaded)), &None, fresh(), 0);
    let ids: Vec<&str> = state.conversations.iter().map(|c| c.id.as_str()).collect();
    assert_eq!(ids, vec!["b", "d", "a", "c"]);
}

#[test]
fn bump_and_retitle_move_the_conversation_up() {
    let mut state = signed_in();
    state.conversations = vec![conversation("a", "A", 9), conversation("b", "B", 5)];
    state.handle_event_with(SupabaseEvent::ConversationBumped { conversation_id: s("b"), result: Ok(()) }, &None, fresh(), 0);
    assert_eq!(state.conversations[0].id, "b");
    assert_eq!(state.conversations[0].updated_at_us, 77);
    state.handle_event_with(SupabaseEvent::ConversationRetitled { conversation_id: s("a"), title: s("Trip") }, &None, Fresh { user_message_id: s("x"), assistant_message_id: s("y"), now_us: 99 }, 0);
    assert_eq!(state.conversations[0].id, "a");
    assert_eq!(state.conversations[0].title, "Trip");
    state.handle_event_with(SupabaseEvent::ConversationRetitled { conversation_id: s("zzz"), title: s("T") }, &None, fresh(), 0);
    assert_eq!(state.conversations.len(), 2);
}

#[test]
fn deleted_conversation_disappears() {
    let mut state = signed_in();
    state.conversations = vec![conversation("a", "A", 9), conversation("b", "B", 5)];
    state.active_conversation_id = Some(s("a"));
    state.handle_event_with(SupabaseEvent::ConversationDeleted { conversation_id: s("a"), result: Ok(()) }, &None, fresh(), 0);
    assert_eq!(state.conversations.len(), 1);
    assert_eq!(state.conversations[0].id, "b");
    assert_eq!(state.active_conversation_id, None);
}

#[test]
fn stale_messages_are_ignored() {
    let mut state = signed_in();
    state.active_conversation_id = Some(s("a"));
    state.messages_loading = true;
    let msg = Message { id: s("m"), conversation_id: s("b"), role: s("user"), content: s("hi"), created_at_us: 0 };
    state.handle_event_with(SupabaseEvent::MessagesLoaded { conversation_id: s("b"), result: Ok(vec![msg]) }, &None, fresh(), 0);
    assert!(state.messages.is_empty());
    assert!(state.messages_loading);
}

#[test]
fn first_reply_asks_for_a_title() {
    let mut state = signed_in();
    state.pending_title_generation = Some(auvro::chat_state::PendingTitle { conversation_id: s("c"), first_user_message: s("Plan a trip") });
    let reply = Message { id: s("m"), conversation_id: s("c"), role: s("assistant"), content: s("Sure"), created_at_us: 0 };
    let effects = state.handle_event_with(SupabaseEvent::MessageAppended(Ok(reply)), &None, fresh(), 0);
    assert!(state.pending_title_generation.is_none());
    assert!(matches!(&effects[0], Effect::GenerateTitle { conversation_id, first_user_message, .. } if conversation_id == "c" && first_user_message == "Plan a trip"));
}

#[test]
fn profile_loaded_applies_name_theme_and_avatar() {
    let mut state = signed_in();
    state.profile_loading = true;
    let profile = Profile { id: s(USER), display_name: Some(s("Ana B")), avatar_url: Some(s("https://x/a.jpg")), theme: Some(s("DARK")), updated_at_us: None };
    let effects = state.handle_event_with(SupabaseEvent::ProfileLoaded(Ok(profile)), &None, fresh(), 0);
    assert!(!state.profile_loading);
    assert_eq!(state.user_full_name, Some(s("Ana B")));
    assert_eq!(state.settings_name_draft, "Ana B");
    assert_eq!(state.theme_preference, ThemePreference::Dark);
    assert!(matches!(&effects[0], Effect::DownloadAvatar { url } if url == "https://x/a.jpg"));
    let bare = Profile { id: s(USER), display_name: Some(s("  ")), avatar_url: None, theme: None, updated_at_us: None };
    let effects = state.handle_event_with(SupabaseEvent::ProfileLoaded(Ok(bare)), &None, fresh(), 0);
    assert_eq!(state.user_full_name, Some(s("Ana B")));
    assert_eq!(state.theme_preference, ThemePreference::System);
    assert!(matches!(effects[0], Effect::ClearAvatar));
}

#[test]
fn saved_name_note_expires() {
    let mut state = signed_in();
    let profile = Profile { id: s(USER), display_name: Some(s("New")), avatar_url: None, theme: None, updated_at_us: None };
    state.handle_event_with(SupabaseEvent::DisplayNameUpdated(Ok(profile)), &None, fresh(), 1000);
    let status = state.settings_name_status.as_ref().unwrap();
    assert_eq!(status.message, "Saved");
    assert_eq!(status.expires_at_ms, Some(3000));
    state.expire_settings_statuses(2999);
    assert!(state.settings_name_status.is_some());
    state.expire_settings_statuses(3000);
    assert!(state.settings_name_status.is_none());
}

#[test]
fn stale_avatar_download_is_not_shown() {
    let mut state = signed_in();
    state.profile = Some(Profile { id: s(USER), display_name: None, avatar_url: Some(s("new.jpg")), theme: None, updated_at_us: None });
    let stale = state.handle_event_with(SupabaseEvent::AvatarDownloaded(Ok((s("old.jpg"), vec![1, 2]))), &None, fresh(), 0);
    assert!(stale.is_empty());
    let current = state.handle_event_with(SupabaseEvent::AvatarDownloaded(Ok((s("new.jpg"), vec![1, 2]))), &None, fresh(), 0);
    assert!(matches!(&current[0], Effect::ShowAvatar { url, bytes } if url == "new.jpg" && bytes == &vec![1u8, 2]));
}

#[test]
fn uploaded_avatar_url_is_saved_next() {
    let mut state = signed_in();
    let effects = state.handle_event_with(SupabaseEvent::AvatarUploaded(Ok(s("https://x/p.jpg"))), &None, fresh(), 0);
    assert!(state.profile_loading);
    assert!(matches!(&effects[0], Effect::UpdateAvatarUrl { avatar_url, user_id, .. } if avatar_url == "https://x/p.jpg" && user_id == USER));
}

#[test]
fn deleted_account_signs_out() {
    let mut state = signed_in();
    let effects = state.handle_event_with(SupabaseEvent::AccountDeleted(Ok(())), &None, fresh(), 0);
    assert!(!state.is_authenticated);
    assert_eq!(state.auth_notice, Some(s("Account deleted.")));
    assert!(matches!(effects[0], Effect::DeleteToken));
}

#[test]
fn logout_forgets_the_session() {
    let mut state = signed_in();
    state.conversations = vec![conversation("a", "A", 1)];
    let effects = state.logout();
    assert!(!state.is_authenticated);
    assert_eq!(state.session_access_token, None);
    assert_eq!(state.user_id, None);
    assert!(state.conversations.is_empty());
    assert_eq!(state.auth_notice, Some(s("Logged out.")));
    assert!(matches!(effects[0], Effect::DeleteToken));
    assert!(matches!(effects[1], Effect::ClearAvatar));
}

#[test]
fn send_message_without_chat_creates_one() {
    let mut state = signed_in();
    state.draft_message = s("  Hi  ");
    let effects = state.send_message_with(&None, fresh(), 0);
    assert_eq!(state.draft_message, "");
    assert_eq!(state.pending_prompt_after_create, Some(s("Hi")));
    assert!(state.creating_new_chat);
    assert!(matches!(&effects[0], Effect::CreateConversation { title, .. } if title == "New Chat"));
    state.draft_message = s("   ");
    assert!(state.send_message_with(&None, fresh(), 0).is_empty());
}

#[test]
fn streaming_shows_three_characters_per_frame_and_stores_the_reply() {
    let mut state = signed_in();
    state.conversations = vec![conversation("c", "Topic", 1)];
    state.active_conversation_id = Some(s("c"));
    state.draft_message = s("Question");
    let started = state.send_message_with(&None, fresh(), 1000);
    assert_eq!(started.len(), 3);
    assert!(state.pending_title_generation.is_none());
    let line = state.stream_line_index.unwrap();
    assert!(state.tick_streaming(Some(ReplyPoll::Empty), &None, 1010).is_empty());
    state.tick_streaming(Some(ReplyPoll::Ready(s("Hello\u{00A0}there"))), &None, 1020);
    assert_eq!(state.pending_response, Some(s("Hello there")));
    assert_eq!(state.streaming_buffer, "");
    state.tick_streaming(None, &None, 1030);
    assert_eq!(state.streaming_buffer, "");
    state.tick_streaming(None, &None, 1044);
    assert_eq!(state.streaming_buffer, "Hel");
    assert_eq!(state.messages[line].content, "Hel");
    let mut now = 1044;
    let mut stored = Vec::new();
    while state.is_loading {
        now += 24;
        stored = state.tick_streaming(None, &None, now);
    }
    assert_eq!(state.messages[line].content, "Hello there");
    assert!(matches!(&stored[0], Effect::AppendMessage { role, content, .. } if role == "assistant" && content == "Hello there"));
    assert!(matches!(&stored[1], Effect::BumpConversation { .. }));
}

#[test]
fn provider_failure_removes_the_empty_reply() {
    let mut state = signed_in();
    state.active_conversation_id = Some(s("c"));
    state.draft_message = s("Q");
    state.send_message_with(&None, fresh(), 0);
    assert_eq!(state.messages.len(), 2);
    state.tick_streaming(Some(ReplyPoll::Failed(s("HTTP 500"))), &None, 10);
    assert_eq!(state.messages.len(), 1);
    assert!(!state.is_loading);
    assert_eq!(state.error_message, Some(s("Provider error: HTTP 500")));
    state.draft_message = s("Q2");
    state.send_message_with(&None, fresh(), 20);
    state.error_message = None;
    state.tick_streaming(Some(ReplyPoll::Failed(s("Request Cancelled"))), &None, 30);
    assert_eq!(state.error_message, None);
    state.draft_message = s("Q3");
    state.send_message_with(&None, fresh(), 40);
    state.tick_streaming(Some(ReplyPoll::Disconnected), &None, 50);
    assert_eq!(state.error_message, Some(s("Provider task disconnected unexpectedly.")));
}

#[test]
fn stopping_keeps_the_partial_reply() {
    let mut state = signed_in();
    state.active_conversation_id = Some(s("c"));
    state.draft_message = s("Q");
    state.send_message_with(&None, fresh(), 0);
    state.tick_streaming(Some(ReplyPoll::Ready(s("Partial answer"))), &None, 0);
    state.tick_streaming(None, &None, 100);
    let effects = state.stop_streaming(&None, 200);
    assert!(!state.is_loading);
    assert_eq!(state.messages[1].content, "Par");
    assert!(matches!(&effects[0], Effect::AppendMessage { content, .. } if content == "Par"));
    state.draft_message = s("Q2");
    state.send_message_with(&None, fresh(), 300);
    let effects = state.stop_streaming(&None, 400);
    assert!(matches!(effects[0], Effect::CancelReply));
    assert_eq!(effects.len(), 1);
    assert_eq!(state.messages.len(), 3);
}

#[test]
fn settings_forms_validate() {
    let mut state = signed_in();
    state.settings_name_draft = s("   ");
    state.save_profile_name(&None);
    assert_eq!(state.settings_name_status.as_ref().unwrap().message, "Display name cannot be empty.");
    state.settings_email_draft = s("no-at-sign");
    state.change_account_email(&None);
    assert_eq!(state.settings_email_status.as_ref().unwrap().message, "Enter a valid email address.");
    state.settings_email_draft = s(" new@example.com ");
    let effects = state.change_account_email(&None);
    assert!(matches!(&effects[0], Effect::UpdateEmail { email, .. } if email == "new@example.com"));
    state.settings_password_draft = s(" short ");
    state.change_account_password(&None);
    assert_eq!(state.settings_password_status.as_ref().unwrap().message, "Password must be at least 8 characters.");
    state.settings_password_draft = s("long enough");
    state.settings_password_confirm_draft = s("different!");
    state.change_account_password(&None);
    assert_eq!(state.settings_password_status.as_ref().unwrap().message, "Passwords do not match.");
    state.settings_password_confirm_draft = s("long enough");
    state.profile_loading = false;
    assert!(state.can_save_password());
    let effects = state.change_account_password(&None);
    assert!(matches!(&effects[0], Effect::UpdatePassword { password, .. } if password == "long enough"));
    state.delete_account_confirmation = s(" DELETE ");
    assert!(!state.can_delete_account());
    state.profile_loading = false;
    assert!(state.can_delete_account());
}

#[test]
fn login_flow() {
    let restored = RestoredSession { is_authenticated: false, user_id: None, user_email: None, user_full_name: None, auth_notice: None };
    let (mut state, _) = AppState::initial(None, restored, None, 0);
    assert!(state.begin_login().is_none());
    assert_eq!(state.auth_notice, Some(s("Email and password are required.")));
    state.auth_email = s(" ana@example.com ");
    state.auth_password = s("pw");
    assert_eq!(state.begin_login(), Some((s("ana@example.com"), s("pw"))));
    state.finish_login(AuthReply::Rejected { status: s("400 Bad Request"), body: s("nope") }, &None);
    assert_eq!(state.auth_notice, Some(s("Login failed (400 Bad Request): nope")));
    state.finish_login(AuthReply::Payload(obj(vec![])), &None);
    assert_eq!(state.auth_notice, Some(s("Login succeeded but no access token was returned.")));
    let payload = obj(vec![
        ("access_token", JsonValue::Str(s("T1"))),
        ("user", obj(vec![("id", JsonValue::Str(s(USER))), ("email", JsonValue::Str(s("ana@example.com")))])),
    ]);
    let effects = state.finish_login(AuthReply::Payload(payload), &None);
    assert!(state.is_authenticated);
    assert_eq!(state.auth_password, "");
    assert_eq!(state.auth_notice, Some(s("Logged in as ana@example.com")));
    assert!(matches!(&effects[0], Effect::StoreToken { token } if token == "T1"));
    assert!(matches!(&effects[2], Effect::ListConversations { token } if token == "T1"));
    assert!(matches!(&effects[3], Effect::LoadProfile { .. }));
}

#[test]
fn signup_flow() {
    let restored = RestoredSession { is_authenticated: false, user_id: None, user_email: None, user_full_name: None, auth_notice: None };
    let (mut state, _) = AppState::initial(None, restored, None, 0);
    state.auth_full_name = s(" Ana ");
    state.auth_email = s("ana@example.com");
    state.auth_password = s("secret1");
    state.auth_confirm_password = s("secret2");
    assert!(state.begin_signup().is_none());
    assert_eq!(state.auth_notice, Some(s("Passwords do not match.")));
    state.auth_confirm_password = s("secret1");
    let form = state.begin_signup().unwrap();
    assert_eq!(form.full_name, "Ana");
    state.finish_signup(&form.full_name, AuthReply::Payload(obj(vec![])), &None);
    assert_eq!(state.auth_notice, Some(s("Signup successful. Please verify your email, then log in.")));
    state.finish_signup(&form.full_name, AuthReply::SendFailed(s("offline")), &None);
    assert_eq!(state.auth_notice, Some(s("Signup request failed: offline")));
    let payload = obj(vec![("access_token", JsonValue::Str(s("T2")))]);
    state.finish_signup(&form.full_name, AuthReply::Payload(payload), &None);
    assert!(state.is_authenticated);
    assert!(state.creating_new_chat);
    assert_eq!(state.user_full_name, Some(s("Ana")));
    assert_eq!(state.auth_notice, Some(s("Signup successful. Logged in as ana@example.com")));
}

#[test]
fn no_token_means_no_request() {
    let mut state = signed_in();
    state.session_access_token = None;
    let effects = state.request_list_conversations(&None);
    assert!(effects.is_empty());
    assert_eq!(state.error_message.as_deref(), Some("Missing auth session token. Please log in again."));
    let effects = state.request_load_profile(&None);
    assert!(effects.is_empty());
    state.creating_new_chat = true;
    let effects = state.request_create_conversation(&None, "New Chat");
    assert!(effects.is_empty());
    assert!(!state.creating_new_chat);
    assert!(state.request_append_message(&None, s("c1"), "user", s("hi")).is_empty());
    let with_stored = state.request_list_conversations(&Some(s("kept")));
    assert!(matches!(&with_stored[0], Effect::ListConversations { token } if token == "kept"));
}

#[test]
fn fresh_ids_are_hyphenated_v4_uuids() {
    let f = fresh_message_ids();
    for id in [&f.user_message_id, &f.assistant_message_id] {
        let cs: Vec<char> = id.chars().collect();
        assert_eq!(cs.len(), 36);
        for (i, c) in cs.iter().enumerate() {
            if i == 8 || i == 13 || i == 18 || i == 23 {
                assert_eq!(*c, '-');
            } else {
                assert!(c.is_ascii_digit() || ('a'..='f').contains(c));
            }
        }
        assert_eq!(cs[14], '4');
        assert!(['8', '9', 'a', 'b'].contains(&cs[19]));
    }
    assert_ne!(f.user_message_id, f.assistant_message_id);
}

#[test]
fn submit_is_refused_without_configuration() {
    let restored = RestoredSession { is_authenticated: false, user_id: None, user_email: None, user_full_name: None, auth_notice: None };
    let (mut state, _) = AppState::initial(None, restored, None, 0);
    assert!(state.submit_ready("https://x.supabase.co", "key"));
    assert!(!state.submit_ready("", "key"));
    assert_eq!(
        state.auth_notice.as_deref(),
        Some("Supabase is not configured. Set SUPABASE_URL and SUPABASE_PUBLISHABLE_KEY in .env.")
    );
    state.auth_error = Some(s("Missing required environment variables: SUPABASE_URL"));
    assert!(!state.submit_ready("https://x.supabase.co", "key"));
    assert_eq!(state.auth_notice.as_deref(), Some("Missing required environment variables: SUPABASE_URL"));
}
