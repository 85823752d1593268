//! The state of the chat client and the backend requests it asks for.
//!
//! The client's screens read and edit an [`AppState`]; every decision that
//! changes it is a method here or in the neighbouring modules, and the work
//! that leaves the process (HTTP calls, the provider thread, the keychain) is
//! handed back as a list of [`Effect`]s for the shell to carry out.
use vstd::prelude::*;
use crate::backend::{
    opt_view, Conversation, ConversationView, Message, MessageView, Profile, ProfileView,
};
use crate::session::{SettingsStatus, StatusView, ThemePreference};
use crate::text::{is_blank, is_blank_str};

verus! {

/// Which form the sign-in screen shows.
#[derive(Clone, Copy, PartialEq, Eq, Structural, Debug)]
pub enum AuthMode {
    Login,
    SignUp,
}

/// A title to ask for once the first exchange of a new conversation is
/// stored.
pub struct PendingTitle {
    pub conversation_id: String,
    pub first_user_message: String,
}

/// What the client has in hand, apart from widgets and connections.
pub struct AppState {
    pub draft_message: String,
    pub conversations: Vec<Conversation>,
    pub active_conversation_id: Option<String>,
    pub messages: Vec<Message>,
    pub messages_loading: bool,
    pub pending_delete_conversation_id: Option<String>,
    pub creating_new_chat: bool,
    pub auth_mode: AuthMode,
    pub auth_full_name: String,
    pub auth_email: String,
    pub auth_password: String,
    pub auth_confirm_password: String,
    pub auth_notice: Option<String>,
    pub is_authenticated: bool,
    pub session_access_token: Option<String>,
    pub user_id: Option<String>,
    pub user_email: Option<String>,
    pub user_full_name: Option<String>,
    pub auth_error: Option<String>,
    pub profile_menu_open: bool,
    pub show_settings: bool,
    pub show_sidebar: bool,
    pub settings_name_status: Option<SettingsStatus>,
    pub settings_email_status: Option<SettingsStatus>,
    pub settings_password_status: Option<SettingsStatus>,
    pub settings_photo_status: Option<SettingsStatus>,
    pub settings_theme_status: Option<SettingsStatus>,
    pub settings_account_status: Option<SettingsStatus>,
    pub settings_name_draft: String,
    pub settings_email_draft: String,
    pub settings_password_draft: String,
    pub settings_password_confirm_draft: String,
    pub delete_account_confirmation: String,
    pub theme_preference: ThemePreference,
    pub profile: Option<Profile>,
    pub is_loading: bool,
    pub profile_loading: bool,
    pub error_message: Option<String>,
    pub pending_response: Option<String>,
    pub streaming_buffer: String,
    pub streamed_chars: usize,
    pub stream_conversation_id: Option<String>,
    pub stream_line_index: Option<usize>,
    pub pending_prompt_after_create: Option<String>,
    pub last_stream_tick_ms: u64,
    /// A reply is being produced by the provider thread.
    pub reply_in_flight: bool,
    /// A cancellation token for that reply is held.
    pub cancel_armed: bool,
    pub pending_title_generation: Option<PendingTitle>,
    /// A restored session waits for the user's first action before its chat
    /// list and profile are asked for.
    pub history_pending: bool,
}

/// The state as the specification sees it.
pub struct AppView {
    pub draft_message: Seq<char>,
    pub conversations: Seq<ConversationView>,
    pub active_conversation_id: Option<Seq<char>>,
    pub messages: Seq<MessageView>,
    pub messages_loading: bool,
    pub pending_delete_conversation_id: Option<Seq<char>>,
    pub creating_new_chat: bool,
    pub auth_mode: AuthMode,
    pub auth_full_name: Seq<char>,
    pub auth_email: Seq<char>,
    pub auth_password: Seq<char>,
    pub auth_confirm_password: Seq<char>,
    pub auth_notice: Option<Seq<char>>,
    pub is_authenticated: bool,
    pub session_access_token: Option<Seq<char>>,
    pub user_id: Option<Seq<char>>,
    pub user_email: Option<Seq<char>>,
    pub user_full_name: Option<Seq<char>>,
    pub auth_error: Option<Seq<char>>,
    pub profile_menu_open: bool,
    pub show_settings: bool,
    pub show_sidebar: bool,
    pub name_status: Option<StatusView>,
    pub email_status: Option<StatusView>,
    pub password_status: Option<StatusView>,
    pub photo_status: Option<StatusView>,
    pub theme_status: Option<StatusView>,
    pub account_status: Option<StatusView>,
    pub name_draft: Seq<char>,
    pub email_draft: Seq<char>,
    pub password_draft: Seq<char>,
    pub password_confirm_draft: Seq<char>,
    pub delete_confirmation: Seq<char>,
    pub theme_preference: ThemePreference,
    pub profile: Option<ProfileView>,
    pub is_loading: bool,
    pub profile_loading: bool,
    pub error_message: Option<Seq<char>>,
    pub pending_response: Option<Seq<char>>,
    pub streaming_buffer: Seq<char>,
    pub streamed_chars: nat,
    pub stream_conversation_id: Option<Seq<char>>,
    pub stream_line_index: Option<nat>,
    pub pending_prompt_after_create: Option<Seq<char>>,
    pub last_stream_tick_ms: u64,
    pub reply_in_flight: bool,
    pub cancel_armed: bool,
    pub pending_title: Option<(Seq<char>, Seq<char>)>,
    pub history_pending: bool,
}

pub open spec fn status_view(s: Option<SettingsStatus>) -> Option<StatusView> {
    match s {
        Some(x) => Some(x@),
        None => None,
    }
}

pub open spec fn profile_view(p: Option<Profile>) -> Option<ProfileView> {
    match p {
        Some(x) => Some(x@),
        None => None,
    }
}

pub open spec fn conversations_view(cs: Seq<Conversation>) -> Seq<ConversationView> {
    cs.map_values(|c: Conversation| c@)
}

pub open spec fn messages_view(ms: Seq<Message>) -> Seq<MessageView> {
    ms.map_values(|m: Message| m@)
}

pub open spec fn pending_view(p: Option<PendingTitle>) -> Option<(Seq<char>, Seq<char>)> {
    match p {
        Some(x) => Some((x.conversation_id@, x.first_user_message@)),
        None => None,
    }
}

pub open spec fn index_view(i: Option<usize>) -> Option<nat> {
    match i {
        Some(x) => Some(x as nat),
        None => None,
    }
}

impl View for AppState {
    type V = AppView;

    open spec fn view(&self) -> AppView {
        AppView {
            draft_message: self.draft_message@,
            conversations: conversations_view(self.conversations@),
            active_conversation_id: opt_view(self.active_conversation_id),
            messages: messages_view(self.messages@),
            messages_loading: self.messages_loading,
            pending_delete_conversation_id: opt_view(self.pending_delete_conversation_id),
            creating_new_chat: self.creating_new_chat,
            auth_mode: self.auth_mode,
            auth_full_name: self.auth_full_name@,
            auth_email: self.auth_email@,
            auth_password: self.auth_password@,
            auth_confirm_password: self.auth_confirm_password@,
            auth_notice: opt_view(self.auth_notice),
            is_authenticated: self.is_authenticated,
            session_access_token: opt_view(self.session_access_token),
            user_id: opt_view(self.user_id),
            user_email: opt_view(self.user_email),
            user_full_name: opt_view(self.user_full_name),
            auth_error: opt_view(self.auth_error),
            profile_menu_open: self.profile_menu_open,
            show_settings: self.show_settings,
            show_sidebar: self.show_sidebar,
            name_status: status_view(self.settings_name_status),
            email_status: status_view(self.settings_email_status),
            password_status: status_view(self.settings_password_status),
            photo_status: status_view(self.settings_photo_status),
            theme_status: status_view(self.settings_theme_status),
            account_status: status_view(self.settings_account_status),
            name_draft: self.settings_name_draft@,
            email_draft: self.settings_email_draft@,
            password_draft: self.settings_password_draft@,
            password_confirm_draft: self.settings_password_confirm_draft@,
            delete_confirmation: self.delete_account_confirmation@,
            theme_preference: self.theme_preference,
            profile: profile_view(self.profile),
            is_loading: self.is_loading,
            profile_loading: self.profile_loading,
            error_message: opt_view(self.error_message),
            pending_response: opt_view(self.pending_response),
            streaming_buffer: self.streaming_buffer@,
            streamed_chars: self.streamed_chars as nat,
            stream_conversation_id: opt_view(self.stream_conversation_id),
            stream_line_index: index_view(self.stream_line_index),
            pending_prompt_after_create: opt_view(self.pending_prompt_after_create),
            last_stream_tick_ms: self.last_stream_tick_ms,
            reply_in_flight: self.reply_in_flight,
            cancel_armed: self.cancel_armed,
            pending_title: pending_view(self.pending_title_generation),
            history_pending: self.history_pending,
        }
    }
}

/// Work that the shell carries out for the state: backend calls (each with
/// the access token it needs), the provider thread, the keychain and the
/// avatar picture.
pub enum Effect {
    ListConversations { token: String },
    LoadProfile { token: String, user_id: String },
    CreateConversation { token: String, user_id: String, title: String },
    LoadMessages { token: String, conversation_id: String },
    DeleteConversation { token: String, conversation_id: String },
    AppendMessage { token: String, conversation_id: String, role: String, content: String },
    BumpConversation { token: String, conversation_id: String },
    GenerateTitle { token: String, conversation_id: String, first_user_message: String },
    UpdateDisplayName { token: String, user_id: String, display_name: String },
    UpdateTheme { token: String, user_id: String, theme: ThemePreference },
    UpdateEmail { token: String, email: String },
    UpdatePassword { token: String, password: String },
    UploadAvatar { token: String, user_id: String, bytes: Vec<u8>, mime: String },
    UpdateAvatarUrl { token: String, user_id: String, avatar_url: String },
    DownloadAvatar { url: String },
    DeleteAccount { token: String },
    /// Start the provider thread on `prompt` with the transcript lines.
    StartReply { prompt: String, conversation: Vec<String> },
    /// Cancel the reply in flight.
    CancelReply,
    /// Keep the access token in the secret store.
    StoreToken { token: String },
    /// Remove the access token from the secret store.
    DeleteToken,
    /// Decode `bytes` and show them as the avatar downloaded from `url`.
    ShowAvatar { url: String, bytes: Vec<u8> },
    /// Drop the avatar picture.
    ClearAvatar,
}

/// An effect as the specification sees it.
pub enum EffectView {
    ListConversations { token: Seq<char> },
    LoadProfile { token: Seq<char>, user_id: Seq<char> },
    CreateConversation { token: Seq<char>, user_id: Seq<char>, title: Seq<char> },
    LoadMessages { token: Seq<char>, conversation_id: Seq<char> },
    DeleteConversation { token: Seq<char>, conversation_id: Seq<char> },
    AppendMessage { token: Seq<char>, conversation_id: Seq<char>, role: Seq<char>, content: Seq<char> },
    BumpConversation { token: Seq<char>, conversation_id: Seq<char> },
    GenerateTitle { token: Seq<char>, conversation_id: Seq<char>, first_user_message: Seq<char> },
    UpdateDisplayName { token: Seq<char>, user_id: Seq<char>, display_name: Seq<char> },
    UpdateTheme { token: Seq<char>, user_id: Seq<char>, theme: ThemePreference },
    UpdateEmail { token: Seq<char>, email: Seq<char> },
    UpdatePassword { token: Seq<char>, password: Seq<char> },
    UploadAvatar { token: Seq<char>, user_id: Seq<char>, bytes: Seq<u8>, mime: Seq<char> },
    UpdateAvatarUrl { token: Seq<char>, user_id: Seq<char>, avatar_url: Seq<char> },
    DownloadAvatar { url: Seq<char> },
    DeleteAccount { token: Seq<char> },
    StartReply { prompt: Seq<char>, conversation: Seq<Seq<char>> },
    CancelReply,
    StoreToken { token: Seq<char> },
    DeleteToken,
    ShowAvatar { url: Seq<char>, bytes: Seq<u8> },
    ClearAvatar,
}

impl View for Effect {
    type V = EffectView;

    open spec fn view(&self) -> EffectView {
        match self {
            Effect::ListConversations { token } => EffectView::ListConversations { token: token@ },
            Effect::LoadProfile { token, user_id } => EffectView::LoadProfile { token: token@, user_id: user_id@ },
            Effect::CreateConversation { token, user_id, title } => EffectView::CreateConversation {
                token: token@,
                user_id: user_id@,
                title: title@,
            },
            Effect::LoadMessages { token, conversation_id } => EffectView::LoadMessages {
                token: token@,
                conversation_id: conversation_id@,
            },
            Effect::DeleteConversation { token, conversation_id } => EffectView::DeleteConversation {
                token: token@,
                conversation_id: conversation_id@,
            },
            Effect::AppendMessage { token, conversation_id, role, content } => EffectView::AppendMessage {
                token: token@,
                conversation_id: conversation_id@,
                role: role@,
                content: content@,
            },
            Effect::BumpConversation { token, conversation_id } => EffectView::BumpConversation {
                token: token@,
                conversation_id: conversation_id@,
            },
            Effect::GenerateTitle { token, conversation_id, first_user_message } => EffectView::GenerateTitle {
                token: token@,
                conversation_id: conversation_id@,
                first_user_message: first_user_message@,
            },
            Effect::UpdateDisplayName { token, user_id, display_name } => EffectView::UpdateDisplayName {
                token: token@,
                user_id: user_id@,
                display_name: display_name@,
            },
            Effect::UpdateTheme { token, user_id, theme } => EffectView::UpdateTheme {
                token: token@,
                user_id: user_id@,
                theme: *theme,
            },
            Effect::UpdateEmail { token, email } => EffectView::UpdateEmail { token: token@, email: email@ },
            Effect::UpdatePassword { token, password } => EffectView::UpdatePassword {
                token: token@,
                password: password@,
            },
            Effect::UploadAvatar { token, user_id, bytes, mime } => EffectView::UploadAvatar {
                token: token@,
                user_id: user_id@,
                bytes: bytes@,
                mime: mime@,
            },
            Effect::UpdateAvatarUrl { token, user_id, avatar_url } => EffectView::UpdateAvatarUrl {
                token: token@,
                user_id: user_id@,
                avatar_url: avatar_url@,
            },
            Effect::DownloadAvatar { url } => EffectView::DownloadAvatar { url: url@ },
            Effect::DeleteAccount { token } => EffectView::DeleteAccount { token: token@ },
            Effect::StartReply { prompt, conversation } => EffectView::StartReply {
                prompt: prompt@,
                conversation: strings_view(conversation@),
            },
            Effect::CancelReply => EffectView::CancelReply,
            Effect::StoreToken { token } => EffectView::StoreToken { token: token@ },
            Effect::DeleteToken => EffectView::DeleteToken,
            Effect::ShowAvatar { url, bytes } => EffectView::ShowAvatar { url: url@, bytes: bytes@ },
            Effect::ClearAvatar => EffectView::ClearAvatar,
        }
    }
}

pub open spec fn strings_view(v: Seq<String>) -> Seq<Seq<char>> {
    Seq::new(v.len(), |i: int| v[i]@)
}

pub open spec fn effects_view(es: Seq<Effect>) -> Seq<EffectView> {
    es.map_values(|e: Effect| e@)
}

/// The message given when no access token can be found.
pub open spec fn missing_token_message() -> Seq<char> {
    "Missing auth session token. Please log in again."@
}

/// The access token for a request: the session's own when it is not blank,
/// else the one kept in the secret store, if any.
pub open spec fn access_token_spec(session: Option<Seq<char>>, stored: Option<Seq<char>>) -> Result<
    Seq<char>,
    Seq<char>,
> {
    match session {
        Some(t) if !is_blank(t) => Ok(t),
        _ => match stored {
            Some(s) => Ok(s),
            None => Err(missing_token_message()),
        },
    }
}

/// What `Uuid::parse_str` makes of `s`: the UUID in its hyphenated
/// lower-case form, or the text of the parse error.
pub uninterp spec fn uuid_parse(s: Seq<char>) -> Result<Seq<char>, Seq<char>>;

/// `uuid::Uuid::parse_str(s)`, shown with `to_string`; the error, if any,
/// shown with `to_string` too. The result is only named.
#[verifier::external_body]
fn parse_uuid(s: &str) -> (r: Result<String, String>)
    ensures
        match r {
            Ok(u) => uuid_parse(s@) == Ok::<Seq<char>, Seq<char>>(u@),
            Err(e) => uuid_parse(s@) == Err::<Seq<char>, Seq<char>>(e@),
        },
{
    match uuid::Uuid::parse_str(s) {
        Ok(u) => Ok(u.to_string()),
        Err(e) => Err(e.to_string()),
    }
}

/// The user id of the session as a UUID, or why there is none.
pub open spec fn user_uuid_spec(user_id: Option<Seq<char>>) -> Result<Seq<char>, Seq<char>> {
    match user_id {
        None => Err("Missing user id. Please log in again."@),
        Some(u) => match uuid_parse(u) {
            Ok(c) => Ok(c),
            Err(e) => Err("Invalid user id '"@ + u + "': "@ + e),
        },
    }
}

/// Where a refused request reports its error.
#[derive(Clone, Copy, PartialEq, Eq, Structural, Debug)]
pub enum ErrorTarget {
    Banner,
    Name,
    Email,
    Password,
    Photo,
    Theme,
    Account,
}

pub open spec fn error_status(msg: Seq<char>) -> StatusView {
    StatusView { message: msg, is_error: true, expires_at_ms: None }
}

/// The state with `msg` shown at `t`.
pub open spec fn with_error(v: AppView, t: ErrorTarget, msg: Seq<char>) -> AppView {
    match t {
        ErrorTarget::Banner => AppView { error_message: Some(msg), ..v },
        ErrorTarget::Name => AppView { name_status: Some(error_status(msg)), ..v },
        ErrorTarget::Email => AppView { email_status: Some(error_status(msg)), ..v },
        ErrorTarget::Password => AppView { password_status: Some(error_status(msg)), ..v },
        ErrorTarget::Photo => AppView { photo_status: Some(error_status(msg)), ..v },
        ErrorTarget::Theme => AppView { theme_status: Some(error_status(msg)), ..v },
        ErrorTarget::Account => AppView { account_status: Some(error_status(msg)), ..v },
    }
}

/// What a profile request needs first: the access token, and the user's
/// UUID when `needs_user`; with them the state is marked busy with the
/// profile, without them the error is shown at `t`.
pub open spec fn profile_gate(v: AppView, stored: Option<Seq<char>>, t: ErrorTarget, needs_user: bool) -> (
    AppView,
    Option<(Seq<char>, Seq<char>)>,
) {
    match access_token_spec(v.session_access_token, stored) {
        Err(e) => (with_error(v, t, e), None),
        Ok(token) => if needs_user {
            match user_uuid_spec(v.user_id) {
                Err(e) => (with_error(v, t, e), None),
                Ok(u) => (AppView { profile_loading: true, ..v }, Some((token, u))),
            }
        } else {
            (AppView { profile_loading: true, ..v }, Some((token, Seq::empty())))
        },
    }
}

impl AppState {
    /// Shows `msg` at `t`.
    pub fn show_error(&mut self, t: ErrorTarget, msg: String)
        ensures
            final(self)@ == with_error(old(self)@, t, msg@),
    {
        match t {
            ErrorTarget::Banner => {
                self.error_message = Some(msg);
            },
            ErrorTarget::Name => {
                self.settings_name_status = Some(SettingsStatus::error(msg.as_str()));
            },
            ErrorTarget::Email => {
                self.settings_email_status = Some(SettingsStatus::error(msg.as_str()));
            },
            ErrorTarget::Password => {
                self.settings_password_status = Some(SettingsStatus::error(msg.as_str()));
            },
            ErrorTarget::Photo => {
                self.settings_photo_status = Some(SettingsStatus::error(msg.as_str()));
            },
            ErrorTarget::Theme => {
                self.settings_theme_status = Some(SettingsStatus::error(msg.as_str()));
            },
            ErrorTarget::Account => {
                self.settings_account_status = Some(SettingsStatus::error(msg.as_str()));
            },
        }
    }

    /// `access_token`: the token for a request. `stored` is what the secret
    /// store holds, read by the caller.
    pub fn access_token(&self, stored: &Option<String>) -> (r: Result<String, String>)
        ensures
            match r {
                Ok(t) => access_token_spec(self@.session_access_token, opt_view(*stored)) == Ok::<
                    Seq<char>,
                    Seq<char>,
                >(t@),
                Err(e) => access_token_spec(self@.session_access_token, opt_view(*stored)) == Err::<
                    Seq<char>,
                    Seq<char>,
                >(e@),
            },
    {
        if let Some(token) = &self.session_access_token {
            if !is_blank_str(token.as_str()) {
                return Ok(token.clone());
            }
        }
        match stored {
            Some(s) => Ok(s.clone()),
            None => Err("Missing auth session token. Please log in again.".to_owned()),
        }
    }

    /// Whether a request would need the token kept in the secret store.
    pub fn needs_stored_token(&self) -> (r: bool)
        ensures
            r == !(self@.session_access_token matches Some(t) && !is_blank(t)),
    {
        match &self.session_access_token {
            Some(t) => is_blank_str(t.as_str()),
            None => true,
        }
    }

    /// `current_user_uuid`: the session's user id as a UUID.
    pub fn current_user_uuid(&self) -> (r: Result<String, String>)
        ensures
            match r {
                Ok(u) => user_uuid_spec(self@.user_id) == Ok::<Seq<char>, Seq<char>>(u@),
                Err(e) => user_uuid_spec(self@.user_id) == Err::<Seq<char>, Seq<char>>(e@),
            },
    {
        match &self.user_id {
            None => Err("Missing user id. Please log in again.".to_owned()),
            Some(u) => match parse_uuid(u.as_str()) {
                Ok(c) => Ok(c),
                Err(e) => {
                    let mut s = String::new();
                    s.push_str("Invalid user id '");
                    s.push_str(u.as_str());
                    s.push_str("': ");
                    s.push_str(e.as_str());
                    Err(s)
                },
            },
        }
    }

    /// The checks before a profile request (see [`profile_gate`]).
    pub fn begin_profile_request(&mut self, stored: &Option<String>, t: ErrorTarget, needs_user: bool) -> (r:
        Option<(String, String)>)
        ensures
            (final(self)@, match r {
                Some(p) => Some((p.0@, p.1@)),
                None => None,
            }) == profile_gate(old(self)@, opt_view(*stored), t, needs_user),
    {
        let token = match self.access_token(stored) {
            Ok(token) => token,
            Err(e) => {
                self.show_error(t, e);
                return None;
            },
        };
        if needs_user {
            match self.current_user_uuid() {
                Ok(u) => {
                    self.profile_loading = true;
                    Some((token, u))
                },
                Err(e) => {
                    self.show_error(t, e);
                    None
                },
            }
        } else {
            self.profile_loading = true;
            Some((token, String::new()))
        }
    }
}

} // verus!
