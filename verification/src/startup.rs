//! The client's first state: the configuration check and the session kept
//! from the last run.
use vstd::prelude::*;
use crate::auth::{extract_full_name, full_name_of, load_user_data, or_default, str_at};
use crate::backend::opt_view;
use crate::chat_state::{effects_view, uuid_parse, AppState, AppView, AuthMode, Effect, EffectView};
use crate::json::{get_spec, str_spec, JsonValue};
use crate::requests::{none, req_list_conversations, req_load_profile};
use crate::session::ThemePreference;
use crate::text::{is_blank, is_blank_str};

verus! {

/// The message for missing build settings, if any are missing.
pub open spec fn missing_env_spec(url: Seq<char>, key: Seq<char>) -> Option<Seq<char>> {
    if !is_blank(url) && !is_blank(key) {
        None
    } else {
        Some(
            "Missing required environment variables: "@ + if is_blank(url) && is_blank(key) {
                "SUPABASE_URL, SUPABASE_PUBLISHABLE_KEY"@
            } else if is_blank(url) {
                "SUPABASE_URL"@
            } else {
                "SUPABASE_PUBLISHABLE_KEY"@
            },
        )
    }
}

/// The error shown when the backend's address or key is blank.
pub fn missing_env_message(url: &str, key: &str) -> (r: Option<String>)
    ensures
        opt_view(r) == missing_env_spec(url@, key@),
{
    let no_url = is_blank_str(url);
    let no_key = is_blank_str(key);
    if !no_url && !no_key {
        return None;
    }
    let mut s = String::new();
    s.push_str("Missing required environment variables: ");
    if no_url && no_key {
        s.push_str("SUPABASE_URL, SUPABASE_PUBLISHABLE_KEY");
    } else if no_url {
        s.push_str("SUPABASE_URL");
    } else {
        s.push_str("SUPABASE_PUBLISHABLE_KEY");
    }
    Some(s)
}

/// Whether the last session is worth restoring: the backend is configured.
pub fn should_restore_session(url: &str, key: &str) -> (r: bool)
    ensures
        r == (missing_env_spec(url@, key@) is None),
{
    !is_blank_str(url) && !is_blank_str(key)
}

/// What asking the backend for the signed-in user gave.
pub enum UserFetch {
    /// The request failed.
    Failed(String),
    /// The backend answered with an error status, shown as given.
    HttpError(String),
    /// The answer.
    Body(JsonValue),
}

/// The user's id, e-mail and name from the backend's answer for the
/// signed-in user, or why they are unknown.
pub open spec fn user_from_fetch_spec(f: UserFetch) -> Result<(Seq<char>, Seq<char>, Option<Seq<char>>), Seq<char>> {
    match f {
        UserFetch::Failed(e) => Err(e@),
        UserFetch::HttpError(s) => Err("HTTP "@ + s@),
        UserFetch::Body(b) => match get_spec(b, "id"@) {
            Some(i) if str_spec(i) is Some => match get_spec(b, "email"@) {
                Some(e) if str_spec(e) is Some => Ok((str_spec(i)->0, str_spec(e)->0, full_name_of(Some(b)))),
                _ => Err("User email missing in Supabase response"@),
            },
            _ => Err("User id missing in Supabase response"@),
        },
    }
}

/// The user in the backend's answer for the signed-in user.
pub fn user_from_fetch(f: UserFetch) -> (r: Result<(String, String, Option<String>), String>)
    ensures
        match r {
            Ok(u) => user_from_fetch_spec(f) == Ok::<(Seq<char>, Seq<char>, Option<Seq<char>>), Seq<char>>(
                (u.0@, u.1@, opt_view(u.2)),
            ),
            Err(e) => user_from_fetch_spec(f) == Err::<(Seq<char>, Seq<char>, Option<Seq<char>>), Seq<char>>(e@),
        },
{
    match f {
        UserFetch::Failed(e) => Err(e),
        UserFetch::HttpError(s) => {
            let mut m = String::new();
            m.push_str("HTTP ");
            m.push_str(s.as_str());
            Err(m)
        },
        UserFetch::Body(b) => {
            let id = match str_at(Some(&b), "id") {
                Some(i) => i,
                None => {
                    return Err("User id missing in Supabase response".to_owned());
                },
            };
            let email = match str_at(Some(&b), "email") {
                Some(e) => e,
                None => {
                    return Err("User email missing in Supabase response".to_owned());
                },
            };
            let name = extract_full_name(Some(&b));
            Ok((id, email, name))
        },
    }
}

/// The session found at start-up (`restore_auth_session`).
pub struct RestoredSession {
    pub is_authenticated: bool,
    pub user_id: Option<String>,
    pub user_email: Option<String>,
    pub user_full_name: Option<String>,
    pub auth_notice: Option<String>,
}

pub open spec fn restored_view(r: RestoredSession) -> (bool, Option<Seq<char>>, Option<Seq<char>>, Option<
    Seq<char>,
>, Option<Seq<char>>) {
    (r.is_authenticated, opt_view(r.user_id), opt_view(r.user_email), opt_view(r.user_full_name), opt_view(r.auth_notice))
}

/// `restore_auth_session`: with no stored token nobody is signed in; with
/// one, the user the backend names is signed in again, or, if it names
/// none, the token is removed and the user asked to log in.
pub open spec fn restore_spec(probe: Option<Result<(Seq<char>, Seq<char>, Option<Seq<char>>), Seq<char>>>) -> (
    (bool, Option<Seq<char>>, Option<Seq<char>>, Option<Seq<char>>, Option<Seq<char>>),
    Seq<EffectView>,
) {
    match probe {
        None => ((false, None, None, None, None), none()),
        Some(Ok(u)) => (
            (true, Some(u.0), Some(u.1), u.2, Some("Session restored. Redirecting to chat."@)),
            none(),
        ),
        Some(Err(_)) => (
            (false, None, None, None, Some("Previous session expired. Please log in again."@)),
            seq![EffectView::DeleteToken],
        ),
    }
}

/// [`restore_spec`]: `probe` is `None` when no token was stored, else what
/// asking the backend for its user gave.
pub fn restore_auth_session(probe: Option<Result<(String, String, Option<String>), String>>) -> (r: (
    RestoredSession,
    Vec<Effect>,
))
    ensures
        (restored_view(r.0), effects_view(r.1@)) == restore_spec(
            match probe {
                None => None,
                Some(Ok(u)) => Some(Ok((u.0@, u.1@, opt_view(u.2)))),
                Some(Err(e)) => Some(Err(e@)),
            },
        ),
{
    let mut out: Vec<Effect> = Vec::new();
    let session = match probe {
        None => RestoredSession {
            is_authenticated: false,
            user_id: None,
            user_email: None,
            user_full_name: None,
            auth_notice: None,
        },
        Some(Ok((id, email, name))) => RestoredSession {
            is_authenticated: true,
            user_id: Some(id),
            user_email: Some(email),
            user_full_name: name,
            auth_notice: Some("Session restored. Redirecting to chat.".to_owned()),
        },
        Some(Err(_)) => {
            out.push(Effect::DeleteToken);
            RestoredSession {
                is_authenticated: false,
                user_id: None,
                user_email: None,
                user_full_name: None,
                auth_notice: Some("Previous session expired. Please log in again.".to_owned()),
            }
        },
    };
    assert(effects_view(out@) =~= restore_spec(
        match probe {
            None => None,
            Some(Ok(u)) => Some(Ok((u.0@, u.1@, opt_view(u.2)))),
            Some(Err(e)) => Some(Err(e@)),
        },
    ).1);
    (session, out)
}

/// The first state of the client, before any data is asked for. A restored
/// session waits for the user's first action to ask for its history.
pub open spec fn fresh_state(
    auth_error: Option<Seq<char>>,
    s: (bool, Option<Seq<char>>, Option<Seq<char>>, Option<Seq<char>>, Option<Seq<char>>),
    session_token: Option<Seq<char>>,
    now_ms: u64,
) -> AppView {
    AppView {
        draft_message: Seq::empty(),
        conversations: Seq::empty(),
        active_conversation_id: None,
        messages: Seq::empty(),
        messages_loading: false,
        pending_delete_conversation_id: None,
        creating_new_chat: false,
        auth_mode: AuthMode::Login,
        auth_full_name: Seq::empty(),
        auth_email: Seq::empty(),
        auth_password: Seq::empty(),
        auth_confirm_password: Seq::empty(),
        auth_notice: s.4,
        is_authenticated: s.0,
        session_access_token: if s.0 {
            session_token
        } else {
            None
        },
        user_id: s.1,
        user_email: s.2,
        user_full_name: s.3,
        auth_error: auth_error,
        profile_menu_open: false,
        show_settings: false,
        show_sidebar: true,
        name_status: None,
        email_status: None,
        password_status: None,
        photo_status: None,
        theme_status: None,
        account_status: None,
        name_draft: or_default(s.3, Seq::empty()),
        email_draft: or_default(s.2, Seq::empty()),
        password_draft: Seq::empty(),
        password_confirm_draft: Seq::empty(),
        delete_confirmation: Seq::empty(),
        theme_preference: ThemePreference::System,
        profile: None,
        is_loading: false,
        profile_loading: false,
        error_message: None,
        pending_response: None,
        streaming_buffer: Seq::empty(),
        streamed_chars: 0,
        stream_conversation_id: None,
        stream_line_index: None,
        pending_prompt_after_create: None,
        last_stream_tick_ms: now_ms,
        reply_in_flight: false,
        cancel_armed: false,
        pending_title: None,
        history_pending: s.0,
    }
}

/// The first state. Nothing is asked for at start-up: the history of a
/// restored session is loaded behind the user's first action
/// ([`first_action_spec`]).
pub open spec fn initial_spec(
    auth_error: Option<Seq<char>>,
    s: (bool, Option<Seq<char>>, Option<Seq<char>>, Option<Seq<char>>, Option<Seq<char>>),
    session_token: Option<Seq<char>>,
    now_ms: u64,
) -> (AppView, Seq<EffectView>) {
    (fresh_state(auth_error, s, session_token, now_ms), none())
}

/// The user's first action on a restored session asks for its chat list and
/// profile, once; any later action, or one without a waiting session, asks
/// for nothing.
pub open spec fn first_action_spec(v: AppView, stored: Option<Seq<char>>) -> (AppView, Seq<EffectView>) {
    if v.history_pending {
        load_user_data(AppView { history_pending: false, ..v }, stored)
    } else {
        (v, none())
    }
}

/// Start-up asks for nothing, and a restored session's history waits for
/// the first action, which asks for the chat list before the profile when a
/// token is at hand.
pub proof fn law_history_behind_first_action(
    auth_error: Option<Seq<char>>,
    s: (bool, Option<Seq<char>>, Option<Seq<char>>, Option<Seq<char>>, Option<Seq<char>>),
    session_token: Option<Seq<char>>,
    stored: Option<Seq<char>>,
    now_ms: u64,
    token: Seq<char>,
)
    requires
        s.0,
        session_token == Some(token),
        !is_blank(token),
        s.1 matches Some(u) && uuid_parse(u) is Ok,
    ensures
        ({
            let (v, e) = initial_spec(auth_error, s, session_token, now_ms);
            let (w, f) = first_action_spec(v, stored);
            let (x, g) = first_action_spec(w, stored);
            &&& e.len() == 0
            &&& v.history_pending
            &&& f.len() == 2
            &&& f[0] == EffectView::ListConversations { token: token }
            &&& f[1] is LoadProfile
            &&& !w.history_pending
            &&& g.len() == 0
        }),
{
    let v = fresh_state(auth_error, s, session_token, now_ms);
    let v0 = AppView { history_pending: false, ..v };
    let (a, ea) = req_list_conversations(v0, stored);
    let (b, eb) = req_load_profile(a, stored);
    assert(ea == seq![EffectView::ListConversations { token: token }]);
    assert(a == v0);
    assert((ea + eb).len() == 2);
    assert((ea + eb)[0] == EffectView::ListConversations { token: token });
}

impl AppState {
    fn fresh(
        auth_error: Option<String>,
        restored: RestoredSession,
        session_token: Option<String>,
        now_ms: u64,
    ) -> (r: AppState)
        ensures
            r@ == fresh_state(opt_view(auth_error), restored_view(restored), opt_view(session_token), now_ms),
    {
        let ghost rv = restored_view(restored);
        let name_draft = match &restored.user_full_name {
            Some(n) => n.clone(),
            None => String::new(),
        };
        let email_draft = match &restored.user_email {
            Some(e) => e.clone(),
            None => String::new(),
        };
        let authed = restored.is_authenticated;
        let token = if restored.is_authenticated {
            session_token
        } else {
            None
        };
        let r = AppState {
            draft_message: String::new(),
            conversations: Vec::new(),
            active_conversation_id: None,
            messages: Vec::new(),
            messages_loading: false,
            pending_delete_conversation_id: None,
            creating_new_chat: false,
            auth_mode: AuthMode::Login,
            auth_full_name: String::new(),
            auth_email: String::new(),
            auth_password: String::new(),
            auth_confirm_password: String::new(),
            auth_notice: restored.auth_notice,
            is_authenticated: restored.is_authenticated,
            session_access_token: token,
            user_id: restored.user_id,
            user_email: restored.user_email,
            user_full_name: restored.user_full_name,
            auth_error,
            profile_menu_open: false,
            show_settings: false,
            show_sidebar: true,
            settings_name_status: None,
            settings_email_status: None,
            settings_password_status: None,
            settings_photo_status: None,
            settings_theme_status: None,
            settings_account_status: None,
            settings_name_draft: name_draft,
            settings_email_draft: email_draft,
            settings_password_draft: String::new(),
            settings_password_confirm_draft: String::new(),
            delete_account_confirmation: String::new(),
            theme_preference: ThemePreference::System,
            profile: None,
            is_loading: false,
            profile_loading: false,
            error_message: None,
            pending_response: None,
            streaming_buffer: String::new(),
            streamed_chars: 0,
            stream_conversation_id: None,
            stream_line_index: None,
            pending_prompt_after_create: None,
            last_stream_tick_ms: now_ms,
            reply_in_flight: false,
            cancel_armed: false,
            pending_title_generation: None,
            history_pending: authed,
        };
        let ghost w = fresh_state(opt_view(auth_error), rv, opt_view(session_token), now_ms);
        assert(r@.conversations == w.conversations);
        assert(r@.messages == w.messages);
        assert(r@.draft_message == w.draft_message);
        assert(r@.streaming_buffer == w.streaming_buffer);
        r
    }

    /// The first state of the client. `auth_error` is the configuration
    /// error, `restored` the session found, `session_token` the token read
    /// again from the secret store for it, and `now_ms` the clock. Nothing
    /// is asked for yet.
    pub fn initial(
        auth_error: Option<String>,
        restored: RestoredSession,
        session_token: Option<String>,
        now_ms: u64,
    ) -> (r: (AppState, Vec<Effect>))
        ensures
            (r.0@, effects_view(r.1@)) == initial_spec(
                opt_view(auth_error),
                restored_view(restored),
                opt_view(session_token),
                now_ms,
            ),
    {
        let state = AppState::fresh(auth_error, restored, session_token, now_ms);
        let out: Vec<Effect> = Vec::new();
        assert(effects_view(out@) =~= none());
        (state, out)
    }

    /// A user action: on a restored session waiting for its history, the
    /// chat list and profile are asked for, once.
    pub fn load_history_on_first_action(&mut self, stored: &Option<String>) -> (r: Vec<Effect>)
        ensures
            (final(self)@, effects_view(r@)) == first_action_spec(old(self)@, opt_view(*stored)),
    {
        if self.history_pending {
            self.history_pending = false;
            self.load_user_data(stored)
        } else {
            let out: Vec<Effect> = Vec::new();
            assert(effects_view(out@) =~= none());
            out
        }
    }
}

} // verus!
