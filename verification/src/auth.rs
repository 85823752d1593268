//! Signing in, signing up and restoring the previous session.
use vstd::prelude::*;
use crate::backend::opt_view;
use crate::chat_state::{effects_view, AppState, AppView, AuthMode, Effect, EffectView};
use crate::json::{get_spec, json_get, json_str, opt_get, opt_str, str_spec, JsonValue};
use crate::requests::{concat_effects, none, req_list_conversations, req_load_profile};
use crate::session::{same_str, ThemePreference};
use crate::text::{chars_of, is_blank, is_blank_str, trim, trim_str};

verus! {

/// What came back from a sign-in or sign-up request.
pub enum AuthReply {
    /// The HTTP client could not be set up.
    SetupFailed(String),
    /// The request did not go through.
    SendFailed(String),
    /// The server refused it; `status` is the HTTP status as shown.
    Rejected { status: String, body: String },
    /// The answer was not JSON.
    Unparsable(String),
    /// The answer.
    Payload(JsonValue),
}

/// `extract_full_name`: `user_metadata.full_name`, trimmed, when not empty.
pub open spec fn full_name_of(body: Option<JsonValue>) -> Option<Seq<char>> {
    match opt_str(opt_get(opt_get(body, "user_metadata"@), "full_name"@)) {
        Some(n) => if trim(n).len() > 0 {
            Some(trim(n))
        } else {
            None
        },
        None => None,
    }
}

/// The text at `key` of an optional JSON value.
pub fn str_at(v: Option<&JsonValue>, key: &str) -> (r: Option<String>)
    ensures
        opt_view(r) == opt_str(
            opt_get(
                match v {
                    Some(x) => Some(*x),
                    None => None,
                },
                key@,
            ),
        ),
{
    let k = key.to_owned();
    match v {
        Some(x) => match json_get(x, &k) {
            Some(y) => match json_str(y) {
                Some(s) => Some(s.clone()),
                None => None,
            },
            None => None,
        },
        None => None,
    }
}

/// `extract_full_name`.
pub fn extract_full_name(body: Option<&JsonValue>) -> (r: Option<String>)
    ensures
        opt_view(r) == full_name_of(
            match body {
                Some(x) => Some(*x),
                None => None,
            },
        ),
{
    let k = "user_metadata".to_owned();
    let meta = match body {
        Some(b) => json_get(b, &k),
        None => None,
    };
    match str_at(meta, "full_name") {
        Some(n) => {
            let t = trim_str(n.as_str());
            if chars_of(t.as_str()).len() > 0 {
                Some(t)
            } else {
                None
            }
        },
        None => None,
    }
}

pub open spec fn or_default(o: Option<Seq<char>>, d: Seq<char>) -> Seq<char> {
    match o {
        Some(s) => s,
        None => d,
    }
}

/// The session a successful sign-in installs: the user, an empty chat
/// list, the system theme, closed menus and cleared forms.
pub open spec fn session_installed(
    v: AppView,
    token: Seq<char>,
    user_id: Option<Seq<char>>,
    email: Seq<char>,
    full_name: Option<Seq<char>>,
) -> AppView {
    AppView {
        is_authenticated: true,
        session_access_token: Some(token),
        user_id: user_id,
        user_email: Some(email),
        user_full_name: full_name,
        email_draft: email,
        name_draft: or_default(full_name, Seq::empty()),
        password_confirm_draft: Seq::empty(),
        delete_confirmation: Seq::empty(),
        theme_preference: ThemePreference::System,
        profile: None,
        profile_loading: false,
        profile_menu_open: false,
        show_settings: false,
        name_status: None,
        email_status: None,
        password_status: None,
        photo_status: None,
        theme_status: None,
        account_status: None,
        conversations: Seq::empty(),
        active_conversation_id: None,
        messages: Seq::empty(),
        messages_loading: false,
        history_pending: false,
        ..v
    }
}

/// The chat list and the profile asked for, in that order.
pub open spec fn load_user_data(v: AppView, stored: Option<Seq<char>>) -> (AppView, Seq<EffectView>) {
    let (v1, e1) = req_list_conversations(v, stored);
    let (v2, e2) = req_load_profile(v1, stored);
    (v2, e1 + e2)
}

/// The user object of a sign-in answer.
pub open spec fn user_of(j: JsonValue) -> Option<JsonValue> {
    get_spec(j, "user"@)
}

/// The access token of a sign-in answer, or nothing.
pub open spec fn token_of(j: JsonValue) -> Seq<char> {
    or_default(opt_str(get_spec(j, "access_token"@)), Seq::empty())
}

/// The user's e-mail in a sign-in answer, or the one typed.
pub open spec fn email_of(v: AppView, j: JsonValue) -> Seq<char> {
    or_default(opt_str(opt_get(user_of(j), "email"@)), trim(v.auth_email))
}

/// The user's id in a sign-in answer.
pub open spec fn user_id_of(j: JsonValue) -> Option<Seq<char>> {
    opt_str(opt_get(user_of(j), "id"@))
}

/// The user's name in a sign-in answer, or the one typed if any.
pub open spec fn login_name_of(v: AppView, j: JsonValue) -> Option<Seq<char>> {
    match full_name_of(user_of(j)) {
        Some(n) => Some(n),
        None => if trim(v.auth_full_name).len() > 0 {
            Some(trim(v.auth_full_name))
        } else {
            None
        },
    }
}

/// Signed in after a login: the session installed, its data asked for when
/// the user is known, the token stored.
pub open spec fn login_signed_in(
    v: AppView,
    token: Seq<char>,
    user_id: Option<Seq<char>>,
    email: Seq<char>,
    full_name: Option<Seq<char>>,
    stored: Option<Seq<char>>,
) -> (AppView, Seq<EffectView>) {
    let v1 = session_installed(v, token, user_id, email, full_name);
    let (v2, e2) = if user_id is Some {
        load_user_data(v1, stored)
    } else {
        (v1, none())
    };
    (
        AppView { auth_password: Seq::empty(), auth_notice: Some("Logged in as "@ + email), ..v2 },
        seq![EffectView::StoreToken { token: token }, EffectView::ClearAvatar] + e2,
    )
}

/// Signed in after a sign-up: as after a login, with a first chat to make.
pub open spec fn signup_signed_in(
    v: AppView,
    token: Seq<char>,
    user_id: Option<Seq<char>>,
    email: Seq<char>,
    full_name: Option<Seq<char>>,
    stored: Option<Seq<char>>,
) -> (AppView, Seq<EffectView>) {
    let v1 = AppView {
        creating_new_chat: true,
        auth_password: Seq::empty(),
        auth_confirm_password: Seq::empty(),
        ..session_installed(v, token, user_id, email, full_name)
    };
    let (v2, e2) = load_user_data(v1, stored);
    (
        AppView { auth_notice: Some("Signup successful. Logged in as "@ + email), ..v2 },
        seq![EffectView::StoreToken { token: token }, EffectView::ClearAvatar] + e2,
    )
}

/// The answer to a sign-in request: errors go to the notice; a token signs
/// the user in (falling back to the typed e-mail and name), and the chat
/// list and profile are asked for when the answer names the user.
pub open spec fn login_reply_spec(v: AppView, reply: AuthReply, stored: Option<Seq<char>>) -> (
    AppView,
    Seq<EffectView>,
) {
    match reply {
        AuthReply::SetupFailed(e) => (AppView { auth_notice: Some("Login setup failed: "@ + e@), ..v }, none()),
        AuthReply::SendFailed(e) => (AppView { auth_notice: Some("Login request failed: "@ + e@), ..v }, none()),
        AuthReply::Rejected { status, body } => (
            AppView { auth_notice: Some("Login failed ("@ + status@ + "): "@ + body@), ..v },
            none(),
        ),
        AuthReply::Unparsable(e) => (
            AppView { auth_notice: Some("Could not parse login response: "@ + e@), ..v },
            none(),
        ),
        AuthReply::Payload(j) => {
            let token = token_of(j);
            if token.len() == 0 {
                (AppView { auth_notice: Some("Login succeeded but no access token was returned."@), ..v }, none())
            } else {
                login_signed_in(v, token, user_id_of(j), email_of(v, j), login_name_of(v, j), stored)
            }
        },
    }
}

/// The answer to a sign-up request. Without a token the user is asked to
/// confirm the address; with one the user is signed in as with a login, and
/// a first chat is made once the list comes in.
pub open spec fn signup_reply_spec(
    v: AppView,
    full_name: Seq<char>,
    reply: AuthReply,
    stored: Option<Seq<char>>,
) -> (AppView, Seq<EffectView>) {
    match reply {
        AuthReply::SetupFailed(e) => (AppView { auth_notice: Some("Signup setup failed: "@ + e@), ..v }, none()),
        AuthReply::SendFailed(e) => (AppView { auth_notice: Some("Signup request failed: "@ + e@), ..v }, none()),
        AuthReply::Rejected { status, body } => (
            AppView { auth_notice: Some("Signup failed ("@ + status@ + "): "@ + body@), ..v },
            none(),
        ),
        AuthReply::Unparsable(e) => (
            AppView { auth_notice: Some("Could not parse signup response: "@ + e@), ..v },
            none(),
        ),
        AuthReply::Payload(j) => {
            let token = token_of(j);
            if token.len() == 0 {
                (
                    AppView { auth_notice: Some("Signup successful. Please verify your email, then log in."@), ..v },
                    none(),
                )
            } else {
                let name = match full_name_of(user_of(j)) {
                    Some(n) => Some(n),
                    None => Some(full_name),
                };
                signup_signed_in(v, token, user_id_of(j), email_of(v, j), name, stored)
            }
        },
    }
}

/// A login answered with an access token signs the user in with that
/// token, keeps it in the secret store first of all, and forgets the typed
/// password.
pub proof fn law_login_keeps_token(v: AppView, j: JsonValue, stored: Option<Seq<char>>)
    requires
        token_of(j).len() > 0,
    ensures
        ({
            let (w, e) = login_reply_spec(v, AuthReply::Payload(j), stored);
            &&& w.is_authenticated
            &&& w.session_access_token == Some(token_of(j))
            &&& w.auth_password.len() == 0
            &&& e.len() >= 2
            &&& e[0] == EffectView::StoreToken { token: token_of(j) }
            &&& e[1] == EffectView::ClearAvatar
        }),
{
    let token = token_of(j);
    let v1 = session_installed(v, token, user_id_of(j), email_of(v, j), login_name_of(v, j));
    if user_id_of(j) is Some {
        let (a, ea) = req_list_conversations(v1, stored);
        let (b, eb) = req_load_profile(a, stored);
        assert(a.is_authenticated && a.session_access_token == Some(token));
        assert(b.is_authenticated && b.session_access_token == Some(token));
    }
}

impl AppState {
    fn install_session(
        &mut self,
        token: String,
        user_id: Option<String>,
        email: String,
        full_name: Option<String>,
    )
        ensures
            final(self)@ == session_installed(old(self)@, token@, opt_view(user_id), email@, opt_view(full_name)),
    {
        self.is_authenticated = true;
        self.session_access_token = Some(token);
        self.user_id = user_id;
        self.user_email = Some(email.clone());
        self.settings_name_draft = match &full_name {
            Some(n) => n.clone(),
            None => String::new(),
        };
        self.user_full_name = full_name;
        self.settings_email_draft = email;
        self.settings_password_confirm_draft = String::new();
        self.delete_account_confirmation = String::new();
        self.theme_preference = ThemePreference::System;
        self.profile = None;
        self.profile_loading = false;
        self.profile_menu_open = false;
        self.show_settings = false;
        self.settings_name_status = None;
        self.settings_email_status = None;
        self.settings_password_status = None;
        self.settings_photo_status = None;
        self.settings_theme_status = None;
        self.settings_account_status = None;
        self.conversations = Vec::new();
        self.active_conversation_id = None;
        self.messages = Vec::new();
        self.messages_loading = false;
        self.history_pending = false;
        let ghost w = session_installed(old(self)@, token@, opt_view(user_id), email@, opt_view(full_name));
        assert(self@.conversations == w.conversations);
        assert(self@.messages == w.messages);
        assert(self@.name_draft == w.name_draft);
    }

    /// The chat list and the profile asked for.
    pub fn load_user_data(&mut self, stored: &Option<String>) -> (r: Vec<Effect>)
        ensures
            (final(self)@, effects_view(r@)) == load_user_data(old(self)@, opt_view(*stored)),
    {
        let a = self.request_list_conversations(stored);
        let b = self.request_load_profile(stored);
        concat_effects(a, b)
    }

    fn signed_in_effects(token: &String) -> (r: Vec<Effect>)
        ensures
            effects_view(r@) == seq![EffectView::StoreToken { token: token@ }, EffectView::ClearAvatar],
    {
        let mut out: Vec<Effect> = Vec::new();
        out.push(Effect::StoreToken { token: token.clone() });
        out.push(Effect::ClearAvatar);
        assert(effects_view(out@) =~= seq![EffectView::StoreToken { token: token@ }, EffectView::ClearAvatar]);
        out
    }

    fn identity(&self, j: &JsonValue) -> (r: (Option<String>, String))
        ensures
            opt_view(r.0) == user_id_of(*j),
            r.1@ == email_of(self@, *j),
    {
        let user_key = "user".to_owned();
        let user = json_get(j, &user_key);
        let email = match str_at(user, "email") {
            Some(e) => e,
            None => trim_str(self.auth_email.as_str()),
        };
        (str_at(user, "id"), email)
    }

    fn login_name(&self, j: &JsonValue) -> (r: Option<String>)
        ensures
            opt_view(r) == login_name_of(self@, *j),
    {
        let user_key = "user".to_owned();
        let user = json_get(j, &user_key);
        match extract_full_name(user) {
            Some(n) => Some(n),
            None => {
                let typed = trim_str(self.auth_full_name.as_str());
                if chars_of(typed.as_str()).len() == 0 {
                    None
                } else {
                    Some(typed)
                }
            },
        }
    }

    fn login_signed_in(
        &mut self,
        token: String,
        user_id: Option<String>,
        email: String,
        full_name: Option<String>,
        stored: &Option<String>,
    ) -> (r: Vec<Effect>)
        ensures
            (final(self)@, effects_view(r@)) == login_signed_in(
                old(self)@,
                token@,
                opt_view(user_id),
                email@,
                opt_view(full_name),
                opt_view(*stored),
            ),
    {
        let has_user_id = user_id.is_some();
        let first = Self::signed_in_effects(&token);
        let mut notice = String::new();
        notice.push_str("Logged in as ");
        notice.push_str(email.as_str());
        self.install_session(token, user_id, email, full_name);
        let more = if has_user_id {
            self.load_user_data(stored)
        } else {
            let e: Vec<Effect> = Vec::new();
            assert(effects_view(e@) =~= none());
            e
        };
        self.auth_password = String::new();
        self.auth_notice = Some(notice);
        concat_effects(first, more)
    }

    fn login_payload(&mut self, j: &JsonValue, stored: &Option<String>) -> (r: Vec<Effect>)
        ensures
            (final(self)@, effects_view(r@)) == login_reply_spec(old(self)@, AuthReply::Payload(*j), opt_view(*stored)),
    {
        let token = match str_at(Some(j), "access_token") {
            Some(t) => t,
            None => String::new(),
        };
        if chars_of(token.as_str()).len() == 0 {
            self.auth_notice = Some("Login succeeded but no access token was returned.".to_owned());
            let out: Vec<Effect> = Vec::new();
            assert(effects_view(out@) =~= none());
            return out;
        }
        let (user_id, email) = self.identity(j);
        let name = self.login_name(j);
        self.login_signed_in(token, user_id, email, name, stored)
    }

    /// A sign-in, once its request has answered.
    #[verifier::rlimit(50)]
    pub fn finish_login(&mut self, reply: AuthReply, stored: &Option<String>) -> (r: Vec<Effect>)
        ensures
            (final(self)@, effects_view(r@)) == login_reply_spec(old(self)@, reply, opt_view(*stored)),
    {
        let mut out: Vec<Effect> = Vec::new();
        let mut notice = String::new();
        match reply {
            AuthReply::SetupFailed(e) => {
                notice.push_str("Login setup failed: ");
                notice.push_str(e.as_str());
            },
            AuthReply::SendFailed(e) => {
                notice.push_str("Login request failed: ");
                notice.push_str(e.as_str());
            },
            AuthReply::Rejected { status, body } => {
                notice.push_str("Login failed (");
                notice.push_str(status.as_str());
                notice.push_str("): ");
                notice.push_str(body.as_str());
            },
            AuthReply::Unparsable(e) => {
                notice.push_str("Could not parse login response: ");
                notice.push_str(e.as_str());
            },
            AuthReply::Payload(j) => {
                return self.login_payload(&j, stored);
            },
        }
        self.auth_notice = Some(notice);
        assert(effects_view(out@) =~= none());
        out
    }

    fn signup_signed_in(
        &mut self,
        token: String,
        user_id: Option<String>,
        email: String,
        full_name: Option<String>,
        stored: &Option<String>,
    ) -> (r: Vec<Effect>)
        ensures
            (final(self)@, effects_view(r@)) == signup_signed_in(
                old(self)@,
                token@,
                opt_view(user_id),
                email@,
                opt_view(full_name),
                opt_view(*stored),
            ),
    {
        let first = Self::signed_in_effects(&token);
        let mut notice = String::new();
        notice.push_str("Signup successful. Logged in as ");
        notice.push_str(email.as_str());
        self.install_session(token, user_id, email, full_name);
        self.creating_new_chat = true;
        self.auth_password = String::new();
        self.auth_confirm_password = String::new();
        let more = self.load_user_data(stored);
        self.auth_notice = Some(notice);
        concat_effects(first, more)
    }

    fn signup_payload(&mut self, full_name: &str, j: &JsonValue, stored: &Option<String>) -> (r: Vec<Effect>)
        ensures
            (final(self)@, effects_view(r@)) == signup_reply_spec(
                old(self)@,
                full_name@,
                AuthReply::Payload(*j),
                opt_view(*stored),
            ),
    {
        let token = match str_at(Some(j), "access_token") {
            Some(t) => t,
            None => String::new(),
        };
        if chars_of(token.as_str()).len() == 0 {
            self.auth_notice = Some("Signup successful. Please verify your email, then log in.".to_owned());
            let out: Vec<Effect> = Vec::new();
            assert(effects_view(out@) =~= none());
            return out;
        }
        let (user_id, email) = self.identity(j);
        let user_key = "user".to_owned();
        let name = match extract_full_name(json_get(j, &user_key)) {
            Some(n) => Some(n),
            None => Some(full_name.to_owned()),
        };
        self.signup_signed_in(token, user_id, email, name, stored)
    }

    /// A sign-up, once its request has answered.
    #[verifier::rlimit(50)]
    pub fn finish_signup(&mut self, full_name: &str, reply: AuthReply, stored: &Option<String>) -> (r: Vec<Effect>)
        ensures
            (final(self)@, effects_view(r@)) == signup_reply_spec(old(self)@, full_name@, reply, opt_view(*stored)),
    {
        let mut out: Vec<Effect> = Vec::new();
        let mut notice = String::new();
        match reply {
            AuthReply::SetupFailed(e) => {
                notice.push_str("Signup setup failed: ");
                notice.push_str(e.as_str());
            },
            AuthReply::SendFailed(e) => {
                notice.push_str("Signup request failed: ");
                notice.push_str(e.as_str());
            },
            AuthReply::Rejected { status, body } => {
                notice.push_str("Signup failed (");
                notice.push_str(status.as_str());
                notice.push_str("): ");
                notice.push_str(body.as_str());
            },
            AuthReply::Unparsable(e) => {
                notice.push_str("Could not parse signup response: ");
                notice.push_str(e.as_str());
            },
            AuthReply::Payload(j) => {
                return self.signup_payload(full_name, &j, stored);
            },
        }
        self.auth_notice = Some(notice);
        assert(effects_view(out@) =~= none());
        out
    }
}

} // verus!
