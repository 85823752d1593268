//! What the buttons of the chat client do: new chat, opening and deleting a
//! conversation, sending, signing out, and the settings forms.
use vstd::prelude::*;
use crate::backend::{opt_view, ConversationView};
use crate::chat_state::{effects_view, with_error, AppState, AppView, Effect, EffectView, ErrorTarget};
use crate::conversation_list::{find_conversation, first_with_id};
use crate::requests::{
    concat_effects, none, req_create_conversation, req_delete_conversation, req_load_messages,
    req_update_display_name, req_update_email, req_update_password, req_update_theme,
    req_upload_avatar,
};
use crate::session::{same_chars, same_str, status_after, SettingsStatus, StatusView};
use crate::streaming::{fresh_message_ids, send_prompt_spec, Fresh};
use crate::text::{chars_of, contains_chars, contains_seq, is_blank, is_blank_str, trim, trim_str};

verus! {

/// `logout`: forgets the session and everything shown for it, and removes
/// the stored token.
pub open spec fn logout_spec(v: AppView) -> (AppView, Seq<EffectView>) {
    (
        AppView {
            is_authenticated: false,
            session_access_token: None,
            user_id: None,
            user_email: None,
            user_full_name: None,
            conversations: Seq::empty(),
            active_conversation_id: None,
            messages: Seq::empty(),
            messages_loading: false,
            profile: None,
            profile_loading: false,
            pending_title: None,
            pending_delete_conversation_id: None,
            creating_new_chat: false,
            profile_menu_open: false,
            show_settings: false,
            name_status: None,
            email_status: None,
            password_status: None,
            photo_status: None,
            theme_status: None,
            account_status: None,
            name_draft: Seq::empty(),
            email_draft: Seq::empty(),
            password_draft: Seq::empty(),
            password_confirm_draft: Seq::empty(),
            delete_confirmation: Seq::empty(),
            auth_password: Seq::empty(),
            auth_confirm_password: Seq::empty(),
            auth_notice: Some("Logged out."@),
            history_pending: false,
            ..v
        },
        seq![EffectView::DeleteToken, EffectView::ClearAvatar],
    )
}

/// `start_new_chat`: an empty chat, and a conversation called `New Chat`
/// asked for.
pub open spec fn start_new_chat_spec(v: AppView, stored: Option<Seq<char>>) -> (AppView, Seq<EffectView>) {
    let v1 = AppView {
        error_message: None,
        show_settings: false,
        profile_menu_open: false,
        creating_new_chat: true,
        active_conversation_id: None,
        messages: Seq::empty(),
        messages_loading: false,
        pending_title: None,
        pending_delete_conversation_id: None,
        ..v
    };
    req_create_conversation(v1, stored, "New Chat"@)
}

/// `select_conversation`: the conversation becomes active and its messages
/// are asked for.
pub open spec fn select_spec(v: AppView, stored: Option<Seq<char>>, id: Seq<char>) -> (AppView, Seq<EffectView>) {
    let v1 = AppView {
        show_settings: false,
        profile_menu_open: false,
        active_conversation_id: Some(id),
        creating_new_chat: false,
        messages: Seq::empty(),
        messages_loading: true,
        pending_title: None,
        ..v
    };
    req_load_messages(v1, stored, id)
}

/// `send_message`: the trimmed draft goes to the active conversation; with
/// none, it waits for a new one, which is asked for unless one is already
/// being made. Nothing happens while a reply loads or for a blank draft.
pub open spec fn send_message_spec(
    v: AppView,
    stored: Option<Seq<char>>,
    user_message_id: Seq<char>,
    assistant_message_id: Seq<char>,
    now_us: i64,
    now_ms: u64,
) -> (AppView, Seq<EffectView>) {
    let prompt = trim(v.draft_message);
    if v.is_loading || prompt.len() == 0 {
        (v, none())
    } else {
        let v1 = AppView { draft_message: Seq::empty(), error_message: None, ..v };
        match v1.active_conversation_id {
            None => {
                let v2 = AppView { pending_prompt_after_create: Some(prompt), ..v1 };
                if !v2.creating_new_chat {
                    start_new_chat_spec(v2, stored)
                } else {
                    (v2, none())
                }
            },
            Some(id) => send_prompt_spec(
                v1,
                stored,
                id,
                prompt,
                user_message_id,
                assistant_message_id,
                now_us,
                now_ms,
            ),
        }
    }
}

pub open spec fn or_empty(o: Option<Seq<char>>) -> Seq<char> {
    match o {
        Some(s) => s,
        None => Seq::empty(),
    }
}

/// The display name of the loaded profile, or nothing.
pub open spec fn profile_name(v: AppView) -> Seq<char> {
    match v.profile {
        Some(p) => or_empty(p.display_name),
        None => Seq::empty(),
    }
}

/// `save_profile_name`: a blank name is refused; an unchanged one is not
/// sent.
pub open spec fn save_name_spec(v: AppView, stored: Option<Seq<char>>) -> (AppView, Seq<EffectView>) {
    let name = trim(v.name_draft);
    if name.len() == 0 {
        (with_error(v, ErrorTarget::Name, "Display name cannot be empty."@), none())
    } else if name == trim(profile_name(v)) {
        (v, none())
    } else {
        req_update_display_name(AppView { name_status: None, ..v }, stored, name)
    }
}

/// What the e-mail form accepts: something with an `@` and a `.`.
pub open spec fn email_looks_valid(email: Seq<char>) -> bool {
    email.len() > 0 && contains_seq(email, seq!['@']) && contains_seq(email, seq!['.'])
}

/// `change_account_email`.
pub open spec fn change_email_spec(v: AppView, stored: Option<Seq<char>>) -> (AppView, Seq<EffectView>) {
    let email = trim(v.email_draft);
    if !email_looks_valid(email) {
        (with_error(v, ErrorTarget::Email, "Enter a valid email address."@), none())
    } else if email == trim(or_empty(v.user_email)) {
        (v, none())
    } else {
        req_update_email(AppView { email_status: None, ..v }, stored, email)
    }
}

/// The length in bytes of a text in UTF-8.
pub open spec fn utf8_len(s: Seq<char>) -> nat {
    vstd::utf8::encode_utf8(s).len()
}

/// `change_account_password`: at least eight bytes once trimmed, and the
/// same password typed twice.
pub open spec fn change_password_spec(v: AppView, stored: Option<Seq<char>>) -> (AppView, Seq<EffectView>) {
    let password = v.password_draft;
    if utf8_len(trim(password)) < 8 {
        (with_error(v, ErrorTarget::Password, "Password must be at least 8 characters."@), none())
    } else if password != v.password_confirm_draft {
        (with_error(v, ErrorTarget::Password, "Passwords do not match."@), none())
    } else {
        req_update_password(AppView { password_status: None, ..v }, stored, password)
    }
}

/// Whether the name form's button is enabled.
pub open spec fn can_save_name_spec(v: AppView) -> bool {
    !v.profile_loading && trim(v.name_draft) != trim(profile_name(v)) && !is_blank(v.name_draft)
}

/// Whether the e-mail form's button is enabled.
pub open spec fn can_save_email_spec(v: AppView) -> bool {
    let email = trim(v.email_draft);
    !v.profile_loading && email != trim(or_empty(v.user_email)) && contains_seq(email, seq!['@'])
        && contains_seq(email, seq!['.'])
}

/// Whether the password form's button is enabled.
pub open spec fn can_save_password_spec(v: AppView) -> bool {
    !v.profile_loading && trim(v.password_draft).len() > 0 && trim(v.password_confirm_draft).len() > 0
        && v.password_draft == v.password_confirm_draft && utf8_len(trim(v.password_draft)) >= 8
}

/// Whether the account can be deleted: `DELETE` typed, and nothing pending.
pub open spec fn can_delete_account_spec(v: AppView) -> bool {
    trim(v.delete_confirmation) == "DELETE"@ && !v.profile_loading
}

/// The title shown in the delete dialog.
pub open spec fn delete_dialog_title_spec(v: AppView, id: Seq<char>) -> Seq<char> {
    match first_with_id(v.conversations, id) {
        Some(k) => v.conversations[k].title,
        None => "this chat"@,
    }
}

/// A status, dropped if its time is up at `now_ms`.
pub fn expire_one(slot: &Option<SettingsStatus>, now_ms: u64) -> (r: Option<SettingsStatus>)
    ensures
        crate::chat_state::status_view(r) == status_after(crate::chat_state::status_view(*slot), now_ms),
{
    match slot {
        Some(s) => match s.expires_at_ms {
            Some(t) if t <= now_ms => None,
            _ => Some(s.copy()),
        },
        None => None,
    }
}

impl AppState {
    /// The display name of the loaded profile, or an empty string.
    pub fn profile_display_name(&self) -> (r: String)
        ensures
            r@ == profile_name(self@),
    {
        match &self.profile {
            Some(p) => match &p.display_name {
                Some(n) => n.clone(),
                None => String::new(),
            },
            None => String::new(),
        }
    }

    /// `logout`.
    pub fn logout(&mut self) -> (r: Vec<Effect>)
        ensures
            (final(self)@, effects_view(r@)) == logout_spec(old(self)@),
    {
        let ghost v = self@;
        self.is_authenticated = false;
        self.session_access_token = None;
        self.user_id = None;
        self.user_email = None;
        self.user_full_name = None;
        self.conversations = Vec::new();
        self.active_conversation_id = None;
        self.messages = Vec::new();
        self.messages_loading = false;
        self.profile = None;
        self.profile_loading = false;
        self.pending_title_generation = None;
        self.pending_delete_conversation_id = None;
        self.creating_new_chat = false;
        self.profile_menu_open = false;
        self.show_settings = false;
        self.settings_name_status = None;
        self.settings_email_status = None;
        self.settings_password_status = None;
        self.settings_photo_status = None;
        self.settings_theme_status = None;
        self.settings_account_status = None;
        self.settings_name_draft = String::new();
        self.settings_email_draft = String::new();
        self.settings_password_draft = String::new();
        self.settings_password_confirm_draft = String::new();
        self.delete_account_confirmation = String::new();
        self.auth_password = String::new();
        self.auth_confirm_password = String::new();
        self.auth_notice = Some("Logged out.".to_owned());
        self.history_pending = false;
        let mut out: Vec<Effect> = Vec::new();
        out.push(Effect::DeleteToken);
        out.push(Effect::ClearAvatar);
        let ghost w = logout_spec(v);
        assert(self@.conversations == w.0.conversations);
        assert(self@.messages == w.0.messages);
        assert(effects_view(out@) =~= w.1);
        out
    }

    /// `start_new_chat`.
    pub fn start_new_chat(&mut self, stored: &Option<String>) -> (r: Vec<Effect>)
        ensures
            (final(self)@, effects_view(r@)) == start_new_chat_spec(old(self)@, opt_view(*stored)),
    {
        let ghost v = self@;
        self.error_message = None;
        self.show_settings = false;
        self.profile_menu_open = false;
        self.creating_new_chat = true;
        self.active_conversation_id = None;
        self.messages = Vec::new();
        self.messages_loading = false;
        self.pending_title_generation = None;
        self.pending_delete_conversation_id = None;
        assert(self@.messages == Seq::<crate::backend::MessageView>::empty());
        proof {
            reveal_strlit("New Chat");
        }
        self.request_create_conversation(stored, "New Chat")
    }

    /// `select_conversation`.
    pub fn select_conversation(&mut self, stored: &Option<String>, conversation_id: String) -> (r: Vec<Effect>)
        ensures
            (final(self)@, effects_view(r@)) == select_spec(old(self)@, opt_view(*stored), conversation_id@),
    {
        self.show_settings = false;
        self.profile_menu_open = false;
        self.active_conversation_id = Some(conversation_id.clone());
        self.creating_new_chat = false;
        self.messages = Vec::new();
        self.messages_loading = true;
        self.pending_title_generation = None;
        assert(self@.messages == Seq::<crate::backend::MessageView>::empty());
        self.request_load_messages(stored, conversation_id)
    }

    /// [`send_message_spec`], with the message ids and time given.
    pub fn send_message_with(&mut self, stored: &Option<String>, fresh: Fresh, now_ms: u64) -> (r: Vec<Effect>)
        requires
            old(self).messages@.len() + 2 <= usize::MAX,
        ensures
            (final(self)@, effects_view(r@)) == send_message_spec(
                old(self)@,
                opt_view(*stored),
                fresh.user_message_id@,
                fresh.assistant_message_id@,
                fresh.now_us,
                now_ms,
            ),
    {
        let prompt = trim_str(self.draft_message.as_str());
        if self.is_loading || chars_of(prompt.as_str()).len() == 0 {
            let out: Vec<Effect> = Vec::new();
            assert(effects_view(out@) =~= none());
            return out;
        }
        self.draft_message = String::new();
        self.error_message = None;
        match crate::backend::copy_opt(&self.active_conversation_id) {
            None => {
                self.pending_prompt_after_create = Some(prompt);
                if !self.creating_new_chat {
                    self.start_new_chat(stored)
                } else {
                    let out: Vec<Effect> = Vec::new();
                    assert(effects_view(out@) =~= none());
                    out
                }
            },
            Some(id) => self.send_prompt_with(stored, id, prompt, fresh, now_ms),
        }
    }

    /// `send_message`: [`AppState::send_message_with`] with new random
    /// message ids and the current time.
    pub fn send_message(&mut self, stored: &Option<String>, now_ms: u64) -> (r: Vec<Effect>)
        requires
            old(self).messages@.len() + 2 <= usize::MAX,
        ensures
            exists|f: Fresh|
                crate::streaming::is_v4_uuid_text(f.user_message_id@) && crate::streaming::is_v4_uuid_text(
                    f.assistant_message_id@,
                ) && (final(self)@, effects_view(r@)) == #[trigger] send_message_spec(
                    old(self)@,
                    opt_view(*stored),
                    f.user_message_id@,
                    f.assistant_message_id@,
                    f.now_us,
                    now_ms,
                ),
    {
        let fresh = fresh_message_ids();
        let ghost f = fresh;
        self.send_message_with(stored, fresh, now_ms)
    }

    /// The sidebar's delete button: asks to confirm deleting the active
    /// conversation.
    pub fn mark_active_for_delete(&mut self)
        ensures
            final(self)@ == (AppView {
                pending_delete_conversation_id: old(self)@.active_conversation_id,
                ..old(self)@
            }),
    {
        self.pending_delete_conversation_id = crate::backend::copy_opt(&self.active_conversation_id);
    }

    /// The delete dialog's confirm button: asks for the deletion and closes
    /// the dialog.
    pub fn confirm_delete(&mut self, stored: &Option<String>) -> (r: Vec<Effect>)
        ensures
            match old(self)@.pending_delete_conversation_id {
                Some(id) => {
                    let (w, e) = req_delete_conversation(old(self)@, opt_view(*stored), id);
                    final(self)@ == (AppView { pending_delete_conversation_id: None, ..w }) && effects_view(r@)
                        == e
                },
                None => final(self)@ == old(self)@ && r@.len() == 0,
            },
    {
        match crate::backend::copy_opt(&self.pending_delete_conversation_id) {
            Some(id) => {
                let r = self.request_delete_conversation(stored, id);
                self.pending_delete_conversation_id = None;
                r
            },
            None => Vec::new(),
        }
    }

    /// The title the delete dialog names: the conversation's, or `this chat`.
    pub fn delete_dialog_title(&self, conversation_id: &str) -> (r: String)
        ensures
            r@ == delete_dialog_title_spec(self@, conversation_id@),
    {
        match find_conversation(&self.conversations, conversation_id) {
            Some(k) => self.conversations[k].title.clone(),
            None => "this chat".to_owned(),
        }
    }

    /// `save_profile_name`.
    pub fn save_profile_name(&mut self, stored: &Option<String>) -> (r: Vec<Effect>)
        ensures
            (final(self)@, effects_view(r@)) == save_name_spec(old(self)@, opt_view(*stored)),
    {
        let name = trim_str(self.settings_name_draft.as_str());
        let current = self.profile_display_name();
        if chars_of(name.as_str()).len() == 0 {
            self.show_error(ErrorTarget::Name, "Display name cannot be empty.".to_owned());
            let out: Vec<Effect> = Vec::new();
            assert(effects_view(out@) =~= none());
            return out;
        }
        let current_trimmed = trim_str(current.as_str());
        if same_str(name.as_str(), current_trimmed.as_str()) {
            let out: Vec<Effect> = Vec::new();
            assert(effects_view(out@) =~= none());
            return out;
        }
        self.settings_name_status = None;
        self.request_update_display_name(stored, name)
    }

    /// `save_theme_preference`.
    pub fn save_theme_preference(&mut self, stored: &Option<String>) -> (r: Vec<Effect>)
        ensures
            (final(self)@, effects_view(r@)) == req_update_theme(
                AppView { theme_status: None, ..old(self)@ },
                opt_view(*stored),
                old(self)@.theme_preference,
            ),
    {
        self.settings_theme_status = None;
        let theme = self.theme_preference;
        self.request_update_theme(stored, theme)
    }

    /// `change_account_email`.
    #[verifier::rlimit(50)]
    pub fn change_account_email(&mut self, stored: &Option<String>) -> (r: Vec<Effect>)
        ensures
            (final(self)@, effects_view(r@)) == change_email_spec(old(self)@, opt_view(*stored)),
    {
        let email = trim_str(self.settings_email_draft.as_str());
        let ec = chars_of(email.as_str());
        let at: Vec<char> = vec!['@'];
        let dot: Vec<char> = vec!['.'];
        assert(at@ =~= seq!['@']);
        assert(dot@ =~= seq!['.']);
        if ec.len() == 0 || !contains_chars(ec.as_slice(), at.as_slice()) || !contains_chars(
            ec.as_slice(),
            dot.as_slice(),
        ) {
            self.show_error(ErrorTarget::Email, "Enter a valid email address.".to_owned());
            let out: Vec<Effect> = Vec::new();
            assert(effects_view(out@) =~= none());
            return out;
        }
        let current = match &self.user_email {
            Some(e) => e.clone(),
            None => String::new(),
        };
        let current_trimmed = trim_str(current.as_str());
        if same_str(email.as_str(), current_trimmed.as_str()) {
            let out: Vec<Effect> = Vec::new();
            assert(effects_view(out@) =~= none());
            return out;
        }
        self.settings_email_status = None;
        self.request_update_email(stored, email)
    }

    /// `change_account_password`.
    pub fn change_account_password(&mut self, stored: &Option<String>) -> (r: Vec<Effect>)
        ensures
            (final(self)@, effects_view(r@)) == change_password_spec(old(self)@, opt_view(*stored)),
    {
        let password = self.settings_password_draft.clone();
        let trimmed = trim_str(password.as_str());
        if trimmed.as_str().as_bytes().len() < 8 {
            self.show_error(ErrorTarget::Password, "Password must be at least 8 characters.".to_owned());
            let out: Vec<Effect> = Vec::new();
            assert(effects_view(out@) =~= none());
            return out;
        }
        if !same_str(password.as_str(), self.settings_password_confirm_draft.as_str()) {
            self.show_error(ErrorTarget::Password, "Passwords do not match.".to_owned());
            let out: Vec<Effect> = Vec::new();
            assert(effects_view(out@) =~= none());
            return out;
        }
        self.settings_password_status = None;
        self.request_update_password(stored, password)
    }

    /// A picked avatar file was read: shows that it is uploading and asks
    /// for the upload.
    pub fn start_avatar_upload(&mut self, stored: &Option<String>, bytes: Vec<u8>, mime: String) -> (r: Vec<Effect>)
        ensures
            (final(self)@, effects_view(r@)) == req_upload_avatar(
                AppView {
                    photo_status: Some(StatusView { message: "Uploading photo..."@, is_error: false, expires_at_ms: None }),
                    ..old(self)@
                },
                opt_view(*stored),
                bytes@,
                mime@,
            ),
    {
        self.settings_photo_status = Some(SettingsStatus::success("Uploading photo..."));
        self.request_upload_avatar(stored, bytes, mime)
    }

    /// A picked avatar file could not be read.
    pub fn avatar_file_unreadable(&mut self, err: &str)
        ensures
            final(self)@ == with_error(old(self)@, ErrorTarget::Photo, "Failed to read selected file: "@ + err@),
    {
        let mut m = String::new();
        m.push_str("Failed to read selected file: ");
        m.push_str(err);
        self.show_error(ErrorTarget::Photo, m);
    }

    /// `expire_settings_statuses`: drops every status whose time is up.
    pub fn expire_settings_statuses(&mut self, now_ms: u64)
        ensures
            final(self)@ == (AppView {
                name_status: status_after(old(self)@.name_status, now_ms),
                email_status: status_after(old(self)@.email_status, now_ms),
                password_status: status_after(old(self)@.password_status, now_ms),
                photo_status: status_after(old(self)@.photo_status, now_ms),
                theme_status: status_after(old(self)@.theme_status, now_ms),
                account_status: status_after(old(self)@.account_status, now_ms),
                ..old(self)@
            }),
    {
        let a = expire_one(&self.settings_name_status, now_ms);
        let b = expire_one(&self.settings_email_status, now_ms);
        let c = expire_one(&self.settings_password_status, now_ms);
        let d = expire_one(&self.settings_photo_status, now_ms);
        let e = expire_one(&self.settings_theme_status, now_ms);
        let f = expire_one(&self.settings_account_status, now_ms);
        self.settings_name_status = a;
        self.settings_email_status = b;
        self.settings_password_status = c;
        self.settings_photo_status = d;
        self.settings_theme_status = e;
        self.settings_account_status = f;
    }

    /// Whether the name form's button is enabled.
    pub fn can_save_name(&self) -> (r: bool)
        ensures
            r == can_save_name_spec(self@),
    {
        let current = self.profile_display_name();
        let a = trim_str(self.settings_name_draft.as_str());
        let b = trim_str(current.as_str());
        !self.profile_loading && !same_str(a.as_str(), b.as_str()) && !is_blank_str(self.settings_name_draft.as_str())
    }

    /// Whether the e-mail form's button is enabled.
    pub fn can_save_email(&self) -> (r: bool)
        ensures
            r == can_save_email_spec(self@),
    {
        let current = match &self.user_email {
            Some(e) => e.clone(),
            None => String::new(),
        };
        let email = trim_str(self.settings_email_draft.as_str());
        let b = trim_str(current.as_str());
        let ec = chars_of(email.as_str());
        let at: Vec<char> = vec!['@'];
        let dot: Vec<char> = vec!['.'];
        assert(at@ =~= seq!['@']);
        assert(dot@ =~= seq!['.']);
        !self.profile_loading && !same_str(email.as_str(), b.as_str()) && contains_chars(
            ec.as_slice(),
            at.as_slice(),
        ) && contains_chars(ec.as_slice(), dot.as_slice())
    }

    /// Whether the password form's button is enabled.
    pub fn can_save_password(&self) -> (r: bool)
        ensures
            r == can_save_password_spec(self@),
    {
        let p = trim_str(self.settings_password_draft.as_str());
        let c = trim_str(self.settings_password_confirm_draft.as_str());
        !self.profile_loading && chars_of(p.as_str()).len() > 0 && chars_of(c.as_str()).len() > 0 && same_str(
            self.settings_password_draft.as_str(),
            self.settings_password_confirm_draft.as_str(),
        ) && p.as_str().as_bytes().len() >= 8
    }

    /// Whether the account can be deleted now.
    pub fn can_delete_account(&self) -> (r: bool)
        ensures
            r == can_delete_account_spec(self@),
    {
        let t = trim_str(self.delete_account_confirmation.as_str());
        proof {
            reveal_strlit("DELETE");
        }
        same_str(t.as_str(), "DELETE") && !self.profile_loading
    }
}

/// After `logout` the client holds no session: it is signed out, keeps no
/// token, user, conversation, message or profile, and asks for the stored
/// token to be removed.
pub proof fn law_logout_forgets_session(v: AppView)
    ensures
        ({
            let (w, e) = logout_spec(v);
            &&& !w.is_authenticated
            &&& w.session_access_token is None
            &&& w.user_id is None && w.user_email is None && w.user_full_name is None
            &&& w.conversations.len() == 0 && w.messages.len() == 0 && w.active_conversation_id is None
            &&& w.profile is None
            &&& e.contains(EffectView::DeleteToken)
        }),
{
    assert(logout_spec(v).1[0] == EffectView::DeleteToken);
}

} // verus!
