//! What the client does with each answer from the backend, one event at a
//! time.
use vstd::prelude::*;
use crate::actions::logout_spec;
use crate::backend::{opt_view, Conversation, ConversationView, Message, MessageView, Profile, ProfileView};
use crate::chat_state::{
    conversations_view, effects_view, messages_view, with_error, AppState, AppView, Effect, EffectView,
    ErrorTarget,
};
use crate::conversation_list::{
    find_conversation, first_with_id, retain_other_ids, sort_conversations_desc, sort_desc, without_id,
};
use crate::requests::{concat_effects, none, one, req_generate_title, req_update_avatar_url};
use crate::session::{same_str, theme_from_name, SettingsStatus, StatusView, ThemePreference};
use crate::streaming::{send_prompt_spec, Fresh};
use crate::text::{is_blank, is_blank_str};

verus! {

/// An answer from the backend, as the request that asked for it reports it.
#[allow(inconsistent_fields)]
pub enum SupabaseEvent {
    ConversationsLoaded(Result<Vec<Conversation>, String>),
    ConversationCreated(Result<Conversation, String>),
    MessagesLoaded { conversation_id: String, result: Result<Vec<Message>, String> },
    ConversationDeleted { conversation_id: String, result: Result<(), String> },
    MessageAppended(Result<Message, String>),
    ConversationBumped { conversation_id: String, result: Result<(), String> },
    ConversationRetitled { conversation_id: String, title: String },
    ProfileLoaded(Result<Profile, String>),
    DisplayNameUpdated(Result<Profile, String>),
    ThemeUpdated(Result<Profile, String>),
    EmailUpdated(Result<String, String>),
    PasswordUpdated(Result<(), String>),
    AvatarUploaded(Result<String, String>),
    AvatarUrlUpdated(Result<Profile, String>),
    AvatarDownloaded(Result<(String, Vec<u8>), String>),
    AccountDeleted(Result<(), String>),
}

pub open spec fn success_status(msg: Seq<char>) -> StatusView {
    StatusView { message: msg, is_error: false, expires_at_ms: None }
}

/// How long the `Saved` note of the name form stays, in milliseconds.
pub const SAVED_NOTE_MS: u64 = 2000;

/// The text of a profile field when it is there and not blank.
#[verifier::opaque]
pub open spec fn present(o: Option<Seq<char>>) -> Option<Seq<char>> {
    match o {
        Some(s) => if !is_blank(s) {
            Some(s)
        } else {
            None
        },
        None => None,
    }
}

/// The name form after a profile came in: its name if it has one.
pub open spec fn name_or(n: Option<Seq<char>>, d: Seq<char>) -> Seq<char> {
    match n {
        Some(x) => x,
        None => d,
    }
}

/// The user's full name after a profile came in: its name if it has one.
pub open spec fn full_name_or(n: Option<Seq<char>>, d: Option<Seq<char>>) -> Option<Seq<char>> {
    match n {
        Some(x) => Some(x),
        None => d,
    }
}

/// The avatar effect for a profile: download its picture, or drop the one
/// shown when it has none.
pub open spec fn avatar_effect(p: ProfileView, clear_when_missing: bool) -> Seq<EffectView> {
    match present(p.avatar_url) {
        Some(u) => one(EffectView::DownloadAvatar { url: u }),
        None => if clear_when_missing {
            one(EffectView::ClearAvatar)
        } else {
            none()
        },
    }
}

pub open spec fn on_conversations_loaded(v: AppView, r: Result<Seq<ConversationView>, Seq<char>>) -> AppView {
    match r {
        Ok(cs) => AppView { conversations: sort_desc(cs), ..v },
        Err(e) => AppView { error_message: Some(e), ..v },
    }
}

/// A new conversation goes to the top (once), becomes active with no
/// messages, and gets the prompt that waited for it.
pub open spec fn on_created(
    v: AppView,
    stored: Option<Seq<char>>,
    r: Result<ConversationView, Seq<char>>,
    f: (Seq<char>, Seq<char>, i64),
    now_ms: u64,
) -> (AppView, Seq<EffectView>) {
    match r {
        Ok(c) => {
            let v1 = AppView {
                conversations: seq![c] + without_id(v.conversations, c.id),
                active_conversation_id: Some(c.id),
                messages: Seq::empty(),
                messages_loading: false,
                creating_new_chat: false,
                ..v
            };
            match v1.pending_prompt_after_create {
                Some(p) => send_prompt_spec(
                    AppView { pending_prompt_after_create: None, ..v1 },
                    stored,
                    c.id,
                    p,
                    f.0,
                    f.1,
                    f.2,
                    now_ms,
                ),
                None => (v1, none()),
            }
        },
        Err(e) => (
            AppView {
                creating_new_chat: false,
                messages_loading: false,
                pending_prompt_after_create: None,
                error_message: Some(e),
                ..v
            },
            none(),
        ),
    }
}

/// Messages of a conversation that is no longer active are ignored.
pub open spec fn on_messages_loaded(v: AppView, id: Seq<char>, r: Result<Seq<MessageView>, Seq<char>>) -> AppView {
    if v.active_conversation_id != Some(id) {
        v
    } else {
        match r {
            Ok(ms) => AppView { messages_loading: false, messages: ms, ..v },
            Err(e) => AppView { messages_loading: false, error_message: Some(e), ..v },
        }
    }
}

pub open spec fn on_deleted(v: AppView, id: Seq<char>, r: Result<(), Seq<char>>) -> AppView {
    match r {
        Ok(_) => {
            let v1 = AppView { conversations: without_id(v.conversations, id), ..v };
            if v1.active_conversation_id == Some(id) {
                AppView { active_conversation_id: None, messages: Seq::empty(), messages_loading: false, ..v1 }
            } else {
                v1
            }
        },
        Err(e) => AppView { error_message: Some(e), ..v },
    }
}

/// Once the first reply of a conversation waiting for a title is stored,
/// the title is asked for.
pub open spec fn on_appended(v: AppView, stored: Option<Seq<char>>, r: Result<MessageView, Seq<char>>) -> (
    AppView,
    Seq<EffectView>,
) {
    match r {
        Ok(m) => if m.role == "assistant"@ {
            match v.pending_title {
                Some(p) => if p.0 == m.conversation_id {
                    let v1 = AppView { pending_title: None, ..v };
                    (v1, req_generate_title(v1, stored, p.0, p.1))
                } else {
                    (v, none())
                },
                None => (v, none()),
            }
        } else {
            (v, none())
        },
        Err(e) => (AppView { pending_title: None, error_message: Some(e), ..v }, none()),
    }
}

/// The conversation with id `id` changed at `now_us`, with a title if
/// `title` has one.
pub open spec fn touched(cs: Seq<ConversationView>, id: Seq<char>, title: Option<Seq<char>>, now_us: i64) -> Seq<
    ConversationView,
> {
    match first_with_id(cs, id) {
        Some(k) => cs.update(
            k,
            ConversationView {
                title: match title {
                    Some(t) => t,
                    None => cs[k].title,
                },
                updated_at_us: now_us,
                ..cs[k]
            },
        ),
        None => cs,
    }
}

pub open spec fn on_bumped(v: AppView, id: Seq<char>, r: Result<(), Seq<char>>, now_us: i64) -> AppView {
    match r {
        Ok(_) => AppView { conversations: sort_desc(touched(v.conversations, id, None, now_us)), ..v },
        Err(e) => AppView { error_message: Some(e), ..v },
    }
}

pub open spec fn on_retitled(v: AppView, id: Seq<char>, title: Seq<char>, now_us: i64) -> AppView {
    if first_with_id(v.conversations, id) is Some {
        AppView { conversations: sort_desc(touched(v.conversations, id, Some(title), now_us)), ..v }
    } else {
        v
    }
}

/// A loaded profile: its name (when not blank) fills the name form, its
/// theme applies, and its picture is downloaded or the shown one dropped.
pub open spec fn on_profile_loaded(v: AppView, r: Result<ProfileView, Seq<char>>) -> (AppView, Seq<EffectView>) {
    let v0 = AppView { profile_loading: false, ..v };
    match r {
        Ok(p) => (
            AppView {
                profile: Some(p),
                name_draft: name_or(present(p.display_name), v.name_draft),
                user_full_name: full_name_or(present(p.display_name), v.user_full_name),
                theme_preference: theme_from_name(p.theme),
                ..v0
            },
            avatar_effect(p, true),
        ),
        Err(e) => (AppView { error_message: Some(e), ..v0 }, none()),
    }
}

pub open spec fn on_name_updated(v: AppView, r: Result<ProfileView, Seq<char>>, now_ms: u64) -> AppView {
    let v0 = AppView { profile_loading: false, ..v };
    match r {
        Ok(p) => AppView {
            profile: Some(p),
            name_draft: name_or(present(p.display_name), v.name_draft),
            user_full_name: full_name_or(present(p.display_name), v.user_full_name),
            name_status: Some(
                StatusView { message: "Saved"@, is_error: false, expires_at_ms: Some((now_ms + 2000) as u64) },
            ),
            ..v0
        },
        Err(e) => with_error(v0, ErrorTarget::Name, e),
    }
}

pub open spec fn on_theme_updated(v: AppView, r: Result<ProfileView, Seq<char>>) -> AppView {
    let v0 = AppView { profile_loading: false, ..v };
    match r {
        Ok(p) => AppView {
            theme_preference: theme_from_name(p.theme),
            profile: Some(p),
            theme_status: Some(success_status("Theme saved."@)),
            ..v0
        },
        Err(e) => with_error(v0, ErrorTarget::Theme, e),
    }
}

pub open spec fn on_email_updated(v: AppView, r: Result<Seq<char>, Seq<char>>) -> AppView {
    let v0 = AppView { profile_loading: false, ..v };
    match r {
        Ok(email) => AppView {
            user_email: Some(email),
            email_draft: email,
            email_status: Some(success_status("Email update requested. Check your inbox to confirm."@)),
            ..v0
        },
        Err(e) => with_error(v0, ErrorTarget::Email, e),
    }
}

pub open spec fn on_password_updated(v: AppView, r: Result<(), Seq<char>>) -> AppView {
    let v0 = AppView { profile_loading: false, ..v };
    match r {
        Ok(_) => AppView {
            password_draft: Seq::empty(),
            password_confirm_draft: Seq::empty(),
            password_status: Some(success_status("Password changed successfully."@)),
            ..v0
        },
        Err(e) => with_error(v0, ErrorTarget::Password, e),
    }
}

/// An uploaded picture's address is saved in the profile next.
pub open spec fn on_avatar_uploaded(v: AppView, stored: Option<Seq<char>>, r: Result<Seq<char>, Seq<char>>) -> (
    AppView,
    Seq<EffectView>,
) {
    let v0 = AppView { profile_loading: false, ..v };
    match r {
        Ok(url) => req_update_avatar_url(v0, stored, url),
        Err(e) => (with_error(v0, ErrorTarget::Photo, e), none()),
    }
}

pub open spec fn on_avatar_url_updated(v: AppView, r: Result<ProfileView, Seq<char>>) -> (AppView, Seq<EffectView>) {
    let v0 = AppView { profile_loading: false, ..v };
    match r {
        Ok(p) => (
            AppView { profile: Some(p), photo_status: Some(success_status("Photo updated."@)), ..v0 },
            avatar_effect(p, false),
        ),
        Err(e) => (with_error(v0, ErrorTarget::Photo, e), none()),
    }
}

/// A downloaded picture is shown only if it is still the profile's.
pub open spec fn on_avatar_downloaded(v: AppView, r: Result<(Seq<char>, Seq<u8>), Seq<char>>) -> (
    AppView,
    Seq<EffectView>,
) {
    match r {
        Ok(d) => {
            let current = match v.profile {
                Some(p) => p.avatar_url,
                None => None,
            };
            if current == Some(d.0) {
                (v, one(EffectView::ShowAvatar { url: d.0, bytes: d.1 }))
            } else {
                (v, none())
            }
        },
        Err(e) => (with_error(v, ErrorTarget::Photo, e), none()),
    }
}

pub open spec fn on_account_deleted(v: AppView, r: Result<(), Seq<char>>) -> (AppView, Seq<EffectView>) {
    let v0 = AppView { profile_loading: false, ..v };
    match r {
        Ok(_) => {
            let (w, e) = logout_spec(v0);
            (AppView { auth_notice: Some("Account deleted."@), ..w }, e)
        },
        Err(e) => (with_error(v0, ErrorTarget::Account, e), none()),
    }
}

pub open spec fn res_view<T: View>(r: Result<T, String>) -> Result<T::V, Seq<char>> {
    match r {
        Ok(x) => Ok(x@),
        Err(e) => Err(e@),
    }
}

pub open spec fn unit_view(r: Result<(), String>) -> Result<(), Seq<char>> {
    match r {
        Ok(_) => Ok(()),
        Err(e) => Err(e@),
    }
}

pub open spec fn str_res_view(r: Result<String, String>) -> Result<Seq<char>, Seq<char>> {
    match r {
        Ok(x) => Ok(x@),
        Err(e) => Err(e@),
    }
}

/// One backend answer handled. `f` gives the ids and time for a prompt that
/// waited for a new conversation, and the time of a bump or new title.
pub open spec fn event_spec(
    v: AppView,
    e: SupabaseEvent,
    stored: Option<Seq<char>>,
    f: (Seq<char>, Seq<char>, i64),
    now_ms: u64,
) -> (AppView, Seq<EffectView>) {
    match e {
        SupabaseEvent::ConversationsLoaded(r) => (
            on_conversations_loaded(
                v,
                match r {
                    Ok(cs) => Ok(conversations_view(cs@)),
                    Err(m) => Err(m@),
                },
            ),
            none(),
        ),
        SupabaseEvent::ConversationCreated(r) => on_created(v, stored, res_view(r), f, now_ms),
        SupabaseEvent::MessagesLoaded { conversation_id, result } => (
            on_messages_loaded(
                v,
                conversation_id@,
                match result {
                    Ok(ms) => Ok(messages_view(ms@)),
                    Err(m) => Err(m@),
                },
            ),
            none(),
        ),
        SupabaseEvent::ConversationDeleted { conversation_id, result } => (
            on_deleted(v, conversation_id@, unit_view(result)),
            none(),
        ),
        SupabaseEvent::MessageAppended(r) => on_appended(v, stored, res_view(r)),
        SupabaseEvent::ConversationBumped { conversation_id, result } => (
            on_bumped(v, conversation_id@, unit_view(result), f.2),
            none(),
        ),
        SupabaseEvent::ConversationRetitled { conversation_id, title } => (
            on_retitled(v, conversation_id@, title@, f.2),
            none(),
        ),
        SupabaseEvent::ProfileLoaded(r) => on_profile_loaded(v, res_view(r)),
        SupabaseEvent::DisplayNameUpdated(r) => (on_name_updated(v, res_view(r), now_ms), none()),
        SupabaseEvent::ThemeUpdated(r) => (on_theme_updated(v, res_view(r)), none()),
        SupabaseEvent::EmailUpdated(r) => (on_email_updated(v, str_res_view(r)), none()),
        SupabaseEvent::PasswordUpdated(r) => (on_password_updated(v, unit_view(r)), none()),
        SupabaseEvent::AvatarUploaded(r) => on_avatar_uploaded(v, stored, str_res_view(r)),
        SupabaseEvent::AvatarUrlUpdated(r) => on_avatar_url_updated(v, res_view(r)),
        SupabaseEvent::AvatarDownloaded(r) => on_avatar_downloaded(
            v,
            match r {
                Ok(d) => Ok((d.0@, d.1@)),
                Err(m) => Err(m@),
            },
        ),
        SupabaseEvent::AccountDeleted(r) => on_account_deleted(v, unit_view(r)),
    }
}

/// The conversations after the one with id `id`, if any, was touched at
/// `now_us` (and retitled to `title` if given).
pub fn touch_conversation(list: &mut Vec<Conversation>, id: &str, title: Option<String>, now_us: i64) -> (r: bool)
    ensures
        conversations_view(final(list)@) == touched(conversations_view(old(list)@), id@, opt_view(title), now_us),
        r == (first_with_id(conversations_view(old(list)@), id@) is Some),
{
    match find_conversation(list, id) {
        Some(k) => {
            let ghost before = conversations_view(list@);
            let mut c = list[k].copy();
            match title {
                Some(t) => {
                    c.title = t;
                },
                None => {},
            }
            c.updated_at_us = now_us;
            let ghost cv = c@;
            list.set(k, c);
            assert(conversations_view(list@) =~= before.update(k as int, cv));
            true
        },
        None => false,
    }
}

impl AppState {
    fn on_conversations_loaded(&mut self, r: Result<Vec<Conversation>, String>)
        ensures
            final(self)@ == on_conversations_loaded(
                old(self)@,
                match r {
                    Ok(cs) => Ok(conversations_view(cs@)),
                    Err(m) => Err(m@),
                },
            ),
    {
        match r {
            Ok(cs) => {
                let mut cs = cs;
                sort_conversations_desc(&mut cs);
                self.conversations = cs;
            },
            Err(e) => {
                self.error_message = Some(e);
            },
        }
    }

    fn install_created(&mut self, c: Conversation)
        ensures
            final(self)@ == (AppView {
                conversations: seq![c@] + without_id(old(self)@.conversations, c@.id),
                active_conversation_id: Some(c@.id),
                messages: Seq::empty(),
                messages_loading: false,
                creating_new_chat: false,
                ..old(self)@
            }),
    {
        let ghost before = self@.conversations;
        let ghost cv = c@;
        let id = c.id.clone();
        retain_other_ids(&mut self.conversations, id.as_str());
        self.conversations.insert(0, c);
        assert(self@.conversations =~= seq![cv] + without_id(before, cv.id));
        self.active_conversation_id = Some(id);
        self.messages = Vec::new();
        self.messages_loading = false;
        self.creating_new_chat = false;
        assert(self@.messages == Seq::<MessageView>::empty());
    }

    fn on_created(
        &mut self,
        stored: &Option<String>,
        r: Result<Conversation, String>,
        fresh: Fresh,
        now_ms: u64,
    ) -> (out: Vec<Effect>)
        requires
            old(self).messages@.len() + 2 <= usize::MAX,
        ensures
            (final(self)@, effects_view(out@)) == on_created(
                old(self)@,
                opt_view(*stored),
                res_view(r),
                (fresh.user_message_id@, fresh.assistant_message_id@, fresh.now_us),
                now_ms,
            ),
    {
        match r {
            Ok(c) => {
                let id = c.id.clone();
                self.install_created(c);
                assert(self@.messages.len() == 0);
                assert(self.messages@.len() == 0);
                match self.pending_prompt_after_create.take() {
                    Some(prompt) => self.send_prompt_with(stored, id, prompt, fresh, now_ms),
                    None => {
                        let out: Vec<Effect> = Vec::new();
                        assert(effects_view(out@) =~= none());
                        out
                    },
                }
            },
            Err(e) => {
                self.creating_new_chat = false;
                self.messages_loading = false;
                self.pending_prompt_after_create = None;
                self.error_message = Some(e);
                let out: Vec<Effect> = Vec::new();
                assert(effects_view(out@) =~= none());
                out
            },
        }
    }

    fn on_messages_loaded(&mut self, id: String, r: Result<Vec<Message>, String>)
        ensures
            final(self)@ == on_messages_loaded(
                old(self)@,
                id@,
                match r {
                    Ok(ms) => Ok(messages_view(ms@)),
                    Err(m) => Err(m@),
                },
            ),
    {
        let is_active = match &self.active_conversation_id {
            Some(a) => same_str(a.as_str(), id.as_str()),
            None => false,
        };
        if !is_active {
            return;
        }
        self.messages_loading = false;
        match r {
            Ok(ms) => {
                self.messages = ms;
            },
            Err(e) => {
                self.error_message = Some(e);
            },
        }
    }

    #[verifier::rlimit(50)]
    fn on_deleted(&mut self, id: String, r: Result<(), String>)
        ensures
            final(self)@ == on_deleted(old(self)@, id@, unit_view(r)),
    {
        match r {
            Ok(()) => {
                retain_other_ids(&mut self.conversations, id.as_str());
                let is_active = match &self.active_conversation_id {
                    Some(a) => same_str(a.as_str(), id.as_str()),
                    None => false,
                };
                if is_active {
                    self.active_conversation_id = None;
                    self.messages = Vec::new();
                    self.messages_loading = false;
                    assert(self@.messages == Seq::<MessageView>::empty());
                }
            },
            Err(e) => {
                self.error_message = Some(e);
            },
        }
    }

    fn title_after_reply(&mut self, stored: &Option<String>, conversation_id: &str) -> (out: Vec<Effect>)
        ensures
            (final(self)@, effects_view(out@)) == match old(self)@.pending_title {
                Some(p) => if p.0 == conversation_id@ {
                    let v1 = AppView { pending_title: None, ..old(self)@ };
                    (v1, req_generate_title(v1, opt_view(*stored), p.0, p.1))
                } else {
                    (old(self)@, none())
                },
                None => (old(self)@, none()),
            },
    {
        let matches = match &self.pending_title_generation {
            Some(p) => same_str(p.conversation_id.as_str(), conversation_id),
            None => false,
        };
        if matches {
            match self.pending_title_generation.take() {
                Some(p) => {
                    return self.request_generate_conversation_title(stored, p.conversation_id, p.first_user_message);
                },
                None => {},
            }
        }
        let out: Vec<Effect> = Vec::new();
        assert(effects_view(out@) =~= none());
        out
    }

    fn on_appended(&mut self, stored: &Option<String>, r: Result<Message, String>) -> (out: Vec<Effect>)
        ensures
            (final(self)@, effects_view(out@)) == on_appended(old(self)@, opt_view(*stored), res_view(r)),
    {
        match r {
            Ok(m) => {
                proof {
                    reveal_strlit("assistant");
                }
                if same_str(m.role.as_str(), "assistant") {
                    return self.title_after_reply(stored, m.conversation_id.as_str());
                }
                let out: Vec<Effect> = Vec::new();
                assert(effects_view(out@) =~= none());
                out
            },
            Err(e) => {
                self.pending_title_generation = None;
                self.error_message = Some(e);
                let out: Vec<Effect> = Vec::new();
                assert(effects_view(out@) =~= none());
                out
            },
        }
    }

    fn on_bumped(&mut self, id: String, r: Result<(), String>, now_us: i64)
        ensures
            final(self)@ == on_bumped(old(self)@, id@, unit_view(r), now_us),
    {
        match r {
            Ok(()) => {
                touch_conversation(&mut self.conversations, id.as_str(), None, now_us);
                sort_conversations_desc(&mut self.conversations);
            },
            Err(e) => {
                self.error_message = Some(e);
            },
        }
    }

    fn on_retitled(&mut self, id: String, title: String, now_us: i64)
        ensures
            final(self)@ == on_retitled(old(self)@, id@, title@, now_us),
    {
        let ghost before = self@.conversations;
        let ghost t = title@;
        let found = touch_conversation(&mut self.conversations, id.as_str(), Some(title), now_us);
        if found {
            sort_conversations_desc(&mut self.conversations);
        } else {
            assert(self@.conversations == before);
        }
    }

    pub fn apply_profile_name(&mut self, p: &Profile)
        ensures
            final(self)@ == (AppView {
                name_draft: name_or(present(p@.display_name), old(self)@.name_draft),
                user_full_name: full_name_or(present(p@.display_name), old(self)@.user_full_name),
                ..old(self)@
            }),
    {
        proof {
            reveal(present);
        }
        match &p.display_name {
            Some(n) => {
                if !is_blank_str(n.as_str()) {
                    self.settings_name_draft = n.clone();
                    self.user_full_name = Some(n.clone());
                }
            },
            None => {},
        }
    }

    fn avatar_effect(&self, p: &Profile, clear_when_missing: bool) -> (out: Vec<Effect>)
        ensures
            effects_view(out@) == avatar_effect(p@, clear_when_missing),
    {
        proof {
            reveal(present);
        }
        let mut out: Vec<Effect> = Vec::new();
        match &p.avatar_url {
            Some(u) if !is_blank_str(u.as_str()) => {
                out.push(Effect::DownloadAvatar { url: u.clone() });
            },
            _ => {
                if clear_when_missing {
                    out.push(Effect::ClearAvatar);
                }
            },
        }
        assert(effects_view(out@) =~= avatar_effect(p@, clear_when_missing));
        out
    }

    fn apply_theme(&mut self, p: &Profile)
        ensures
            final(self)@ == (AppView { theme_preference: theme_from_name(p@.theme), ..old(self)@ }),
    {
        self.theme_preference = ThemePreference::from_profile(
            match &p.theme {
                Some(t) => Some(t.as_str()),
                None => None,
            },
        );
    }

    pub fn set_profile(&mut self, p: Profile)
        ensures
            final(self)@ == (AppView { profile: Some(p@), ..old(self)@ }),
    {
        self.profile = Some(p);
    }

    fn on_profile_ok(&mut self, p: Profile) -> (out: Vec<Effect>)
        ensures
            (final(self)@, effects_view(out@)) == on_profile_loaded(old(self)@, Ok(p@)),
    {
        let ghost pv = p@;
        self.profile_loading = false;
        let effects = self.avatar_effect(&p, true);
        self.set_profile(p.copy());
        self.apply_profile_name(&p);
        self.apply_theme(&p);
        let ghost w = on_profile_loaded(old(self)@, Ok(pv));
        assert(self@.profile == w.0.profile);
        assert(self@.name_draft == w.0.name_draft);
        assert(self@.user_full_name == w.0.user_full_name);
        effects
    }

    fn on_profile_loaded(&mut self, r: Result<Profile, String>) -> (out: Vec<Effect>)
        ensures
            (final(self)@, effects_view(out@)) == on_profile_loaded(old(self)@, res_view(r)),
    {
        match r {
            Ok(p) => self.on_profile_ok(p),
            Err(e) => {
                self.profile_loading = false;
                self.error_message = Some(e);
                let out: Vec<Effect> = Vec::new();
                assert(effects_view(out@) =~= none());
                out
            },
        }
    }

    fn on_name_ok(&mut self, p: Profile, now_ms: u64)
        requires
            now_ms + SAVED_NOTE_MS <= u64::MAX,
        ensures
            final(self)@ == on_name_updated(old(self)@, Ok(p@), now_ms),
    {
        let ghost pv = p@;
        self.profile_loading = false;
        self.apply_profile_name(&p);
        self.set_profile(p);
        self.settings_name_status = Some(SettingsStatus::success_for("Saved", SAVED_NOTE_MS, now_ms));
        let ghost w = on_name_updated(old(self)@, Ok(pv), now_ms);
        assert(self@.profile == w.profile);
        assert(self@.name_draft == w.name_draft);
        assert(self@.user_full_name == w.user_full_name);
        assert(self@.name_status == w.name_status);
    }

    fn on_name_updated(&mut self, r: Result<Profile, String>, now_ms: u64)
        requires
            now_ms + SAVED_NOTE_MS <= u64::MAX,
        ensures
            final(self)@ == on_name_updated(old(self)@, res_view(r), now_ms),
    {
        match r {
            Ok(p) => self.on_name_ok(p, now_ms),
            Err(e) => {
                self.profile_loading = false;
                self.show_error(ErrorTarget::Name, e);
            },
        }
    }

    fn on_theme_updated(&mut self, r: Result<Profile, String>)
        ensures
            final(self)@ == on_theme_updated(old(self)@, res_view(r)),
    {
        self.profile_loading = false;
        match r {
            Ok(p) => {
                self.theme_preference = ThemePreference::from_profile(
                    match &p.theme {
                        Some(t) => Some(t.as_str()),
                        None => None,
                    },
                );
                self.profile = Some(p);
                self.settings_theme_status = Some(SettingsStatus::success("Theme saved."));
            },
            Err(e) => {
                self.show_error(ErrorTarget::Theme, e);
            },
        }
    }

    fn on_email_updated(&mut self, r: Result<String, String>)
        ensures
            final(self)@ == on_email_updated(old(self)@, str_res_view(r)),
    {
        self.profile_loading = false;
        match r {
            Ok(email) => {
                self.user_email = Some(email.clone());
                self.settings_email_draft = email;
                self.settings_email_status = Some(
                    SettingsStatus::success("Email update requested. Check your inbox to confirm."),
                );
            },
            Err(e) => {
                self.show_error(ErrorTarget::Email, e);
            },
        }
    }

    fn on_password_updated(&mut self, r: Result<(), String>)
        ensures
            final(self)@ == on_password_updated(old(self)@, unit_view(r)),
    {
        self.profile_loading = false;
        match r {
            Ok(()) => {
                self.settings_password_draft = String::new();
                self.settings_password_confirm_draft = String::new();
                self.settings_password_status = Some(SettingsStatus::success("Password changed successfully."));
            },
            Err(e) => {
                self.show_error(ErrorTarget::Password, e);
            },
        }
    }

    fn on_avatar_uploaded(&mut self, stored: &Option<String>, r: Result<String, String>) -> (out: Vec<Effect>)
        ensures
            (final(self)@, effects_view(out@)) == on_avatar_uploaded(old(self)@, opt_view(*stored), str_res_view(r)),
    {
        self.profile_loading = false;
        match r {
            Ok(url) => self.request_update_avatar_url(stored, url),
            Err(e) => {
                self.show_error(ErrorTarget::Photo, e);
                let out: Vec<Effect> = Vec::new();
                assert(effects_view(out@) =~= none());
                out
            },
        }
    }

    fn on_avatar_url_updated(&mut self, r: Result<Profile, String>) -> (out: Vec<Effect>)
        ensures
            (final(self)@, effects_view(out@)) == on_avatar_url_updated(old(self)@, res_view(r)),
    {
        self.profile_loading = false;
        match r {
            Ok(p) => {
                let effects = self.avatar_effect(&p, false);
                self.profile = Some(p);
                self.settings_photo_status = Some(SettingsStatus::success("Photo updated."));
                effects
            },
            Err(e) => {
                self.show_error(ErrorTarget::Photo, e);
                let out: Vec<Effect> = Vec::new();
                assert(effects_view(out@) =~= none());
                out
            },
        }
    }

    fn on_avatar_downloaded(&mut self, r: Result<(String, Vec<u8>), String>) -> (out: Vec<Effect>)
        ensures
            (final(self)@, effects_view(out@)) == on_avatar_downloaded(
                old(self)@,
                match r {
                    Ok(d) => Ok((d.0@, d.1@)),
                    Err(m) => Err(m@),
                },
            ),
    {
        let mut out: Vec<Effect> = Vec::new();
        match r {
            Ok((url, bytes)) => {
                let current_matches = match &self.profile {
                    Some(p) => match &p.avatar_url {
                        Some(a) => same_str(a.as_str(), url.as_str()),
                        None => false,
                    },
                    None => false,
                };
                if current_matches {
                    out.push(Effect::ShowAvatar { url, bytes });
                }
            },
            Err(e) => {
                self.show_error(ErrorTarget::Photo, e);
            },
        }
        assert(effects_view(out@) =~= on_avatar_downloaded(
            old(self)@,
            match r {
                Ok(d) => Ok((d.0@, d.1@)),
                Err(m) => Err(m@),
            },
        ).1);
        out
    }

    #[verifier::rlimit(50)]
    fn on_account_deleted(&mut self, r: Result<(), String>) -> (out: Vec<Effect>)
        ensures
            (final(self)@, effects_view(out@)) == on_account_deleted(old(self)@, unit_view(r)),
    {
        self.profile_loading = false;
        match r {
            Ok(()) => {
                let out = self.logout();
                self.auth_notice = Some("Account deleted.".to_owned());
                out
            },
            Err(e) => {
                self.show_error(ErrorTarget::Account, e);
                let out: Vec<Effect> = Vec::new();
                assert(effects_view(out@) =~= none());
                out
            },
        }
    }

    /// [`event_spec`], with the ids and time given.
    pub fn handle_event_with(
        &mut self,
        event: SupabaseEvent,
        stored: &Option<String>,
        fresh: Fresh,
        now_ms: u64,
    ) -> (r: Vec<Effect>)
        requires
            old(self).messages@.len() + 2 <= usize::MAX,
            now_ms + SAVED_NOTE_MS <= u64::MAX,
        ensures
            (final(self)@, effects_view(r@)) == event_spec(
                old(self)@,
                event,
                opt_view(*stored),
                (fresh.user_message_id@, fresh.assistant_message_id@, fresh.now_us),
                now_ms,
            ),
    {
        let now_us = fresh.now_us;
        match event {
            SupabaseEvent::ConversationsLoaded(r) => {
                self.on_conversations_loaded(r);
                let out: Vec<Effect> = Vec::new();
                assert(effects_view(out@) =~= none());
                out
            },
            SupabaseEvent::ConversationCreated(r) => self.on_created(stored, r, fresh, now_ms),
            SupabaseEvent::MessagesLoaded { conversation_id, result } => {
                self.on_messages_loaded(conversation_id, result);
                let out: Vec<Effect> = Vec::new();
                assert(effects_view(out@) =~= none());
                out
            },
            SupabaseEvent::ConversationDeleted { conversation_id, result } => {
                self.on_deleted(conversation_id, result);
                let out: Vec<Effect> = Vec::new();
                assert(effects_view(out@) =~= none());
                out
            },
            SupabaseEvent::MessageAppended(r) => self.on_appended(stored, r),
            SupabaseEvent::ConversationBumped { conversation_id, result } => {
                self.on_bumped(conversation_id, result, now_us);
                let out: Vec<Effect> = Vec::new();
                assert(effects_view(out@) =~= none());
                out
            },
            SupabaseEvent::ConversationRetitled { conversation_id, title } => {
                self.on_retitled(conversation_id, title, now_us);
                let out: Vec<Effect> = Vec::new();
                assert(effects_view(out@) =~= none());
                out
            },
            SupabaseEvent::ProfileLoaded(r) => self.on_profile_loaded(r),
            SupabaseEvent::DisplayNameUpdated(r) => {
                self.on_name_updated(r, now_ms);
                let out: Vec<Effect> = Vec::new();
                assert(effects_view(out@) =~= none());
                out
            },
            SupabaseEvent::ThemeUpdated(r) => {
                self.on_theme_updated(r);
                let out: Vec<Effect> = Vec::new();
                assert(effects_view(out@) =~= none());
                out
            },
            SupabaseEvent::EmailUpdated(r) => {
                self.on_email_updated(r);
                let out: Vec<Effect> = Vec::new();
                assert(effects_view(out@) =~= none());
                out
            },
            SupabaseEvent::PasswordUpdated(r) => {
                self.on_password_updated(r);
                let out: Vec<Effect> = Vec::new();
                assert(effects_view(out@) =~= none());
                out
            },
            SupabaseEvent::AvatarUploaded(r) => self.on_avatar_uploaded(stored, r),
            SupabaseEvent::AvatarUrlUpdated(r) => self.on_avatar_url_updated(r),
            SupabaseEvent::AvatarDownloaded(r) => self.on_avatar_downloaded(r),
            SupabaseEvent::AccountDeleted(r) => self.on_account_deleted(r),
        }
    }

    /// One answer from the backend: [`AppState::handle_event_with`]
    /// with new random message ids and the current time.
    pub fn process_supabase_event(&mut self, event: SupabaseEvent, stored: &Option<String>, now_ms: u64) -> (r: Vec<
        Effect,
    >)
        requires
            old(self).messages@.len() + 2 <= usize::MAX,
            now_ms + SAVED_NOTE_MS <= u64::MAX,
        ensures
            exists|f: Fresh|
                crate::streaming::is_v4_uuid_text(f.user_message_id@) && crate::streaming::is_v4_uuid_text(
                    f.assistant_message_id@,
                ) && (final(self)@, effects_view(r@)) == #[trigger] event_spec(
                    old(self)@,
                    event,
                    opt_view(*stored),
                    (f.user_message_id@, f.assistant_message_id@, f.now_us),
                    now_ms,
                ),
    {
        let fresh = crate::streaming::fresh_message_ids();
        let ghost f = fresh;
        self.handle_event_with(event, stored, fresh, now_ms)
    }
}

/// A newly created conversation is listed first and only once, and becomes
/// the active one.
pub proof fn law_created_conversation_first(
    v: AppView,
    stored: Option<Seq<char>>,
    c: ConversationView,
    f: (Seq<char>, Seq<char>, i64),
    now_ms: u64,
)
    ensures
        ({
            let w = on_created(v, stored, Ok(c), f, now_ms).0;
            &&& w.conversations.len() >= 1 && w.conversations[0] == c
            &&& forall|i: int| 1 <= i < w.conversations.len() ==> #[trigger] w.conversations[i].id != c.id
            &&& w.active_conversation_id == Some(c.id)
        }),
{
    crate::conversation_list::lemma_without_id(v.conversations, c.id);
    let rest = without_id(v.conversations, c.id);
    assert forall|i: int| 1 <= i < (seq![c] + rest).len() implies #[trigger] (seq![c] + rest)[i].id != c.id by {
        assert((seq![c] + rest)[i] == rest[i - 1]);
    }
}

/// After a conversation is deleted, none with its id is listed, every other
/// one still is, and it is no longer active. When it was the one shown, no
/// message is shown any more and none is loading; otherwise the shown
/// conversation and its messages stay as they were. A failed deletion
/// changes nothing but the error shown.
pub proof fn law_deleted_conversation_gone(v: AppView, id: Seq<char>, e: Seq<char>)
    ensures
        ({
            let w = on_deleted(v, id, Ok(()));
            &&& forall|i: int| 0 <= i < w.conversations.len() ==> #[trigger] w.conversations[i].id != id
            &&& forall|c: ConversationView| v.conversations.contains(c) && c.id != id ==> w.conversations.contains(c)
            &&& w.active_conversation_id != Some(id)
            &&& v.active_conversation_id == Some(id) ==> w.messages.len() == 0 && !w.messages_loading
            &&& v.active_conversation_id != Some(id) ==> w.active_conversation_id == v.active_conversation_id
                && w.messages == v.messages && w.messages_loading == v.messages_loading
        }),
        ({
            let w = on_deleted(v, id, Err(e));
            &&& w.error_message == Some(e)
            &&& w.conversations == v.conversations
            &&& w.messages == v.messages
            &&& w.active_conversation_id == v.active_conversation_id
        }),
{
    crate::conversation_list::lemma_without_id(v.conversations, id);
}

/// The backend's answer that the shown conversation was deleted leaves no
/// message on screen and asks for nothing more.
pub proof fn law_deleting_shown_conversation_clears_messages(
    v: AppView,
    e: SupabaseEvent,
    stored: Option<Seq<char>>,
    f: (Seq<char>, Seq<char>, i64),
    now_ms: u64,
)
    requires
        e matches SupabaseEvent::ConversationDeleted { conversation_id, result } && result is Ok
            && v.active_conversation_id == Some(conversation_id@),
    ensures
        event_spec(v, e, stored, f, now_ms).0.messages.len() == 0,
        event_spec(v, e, stored, f, now_ms).0.active_conversation_id is None,
        event_spec(v, e, stored, f, now_ms).1.len() == 0,
{
}

/// Messages that arrive for a conversation other than the active one change
/// nothing.
pub proof fn law_stale_messages_ignored(v: AppView, id: Seq<char>, r: Result<Seq<MessageView>, Seq<char>>)
    requires
        v.active_conversation_id != Some(id),
    ensures
        on_messages_loaded(v, id, r) == v,
{
}

/// A downloaded picture that is no longer the profile's is not shown.
pub proof fn law_stale_avatar_ignored(v: AppView, url: Seq<char>, bytes: Seq<u8>)
    requires
        !(v.profile matches Some(p) && p.avatar_url == Some(url)),
    ensures
        on_avatar_downloaded(v, Ok((url, bytes))) == (v, none()),
{
}

/// The conversation list is newest first after it is loaded, after a
/// conversation is bumped and after one is retitled, and holds the same
/// conversations as before (with the touched one changed).
pub proof fn law_conversations_newest_first(
    v: AppView,
    loaded: Seq<ConversationView>,
    id: Seq<char>,
    title: Seq<char>,
    now_us: i64,
)
    ensures
        crate::conversation_list::sorted_desc(on_conversations_loaded(v, Ok(loaded)).conversations),
        on_conversations_loaded(v, Ok(loaded)).conversations.to_multiset() == loaded.to_multiset(),
        crate::conversation_list::sorted_desc(on_bumped(v, id, Ok(()), now_us).conversations),
        first_with_id(v.conversations, id) is Some ==> crate::conversation_list::sorted_desc(
            on_retitled(v, id, title, now_us).conversations,
        ),
{
    crate::conversation_list::lemma_sort_desc(loaded);
    crate::conversation_list::lemma_sort_desc(touched(v.conversations, id, None, now_us));
    crate::conversation_list::lemma_sort_desc(touched(v.conversations, id, Some(title), now_us));
}

} // verus!
