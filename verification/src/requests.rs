//! The backend requests that the client state asks for. Each looks up the
//! access token (and, where the call needs it, the user's UUID) first; a
//! request that cannot be made shows why, in the place the screen has for it.
//! `stored` is always the token kept in the secret store, read by the caller.
use vstd::prelude::*;
use crate::backend::opt_view;
use crate::chat_state::{
    access_token_spec, missing_token_message, profile_gate, with_error, AppState, AppView, Effect, EffectView,
    ErrorTarget,
    effects_view,
};
use crate::session::ThemePreference;
use crate::text::{is_blank, is_blank_str};

verus! {

pub open spec fn one(e: EffectView) -> Seq<EffectView> {
    seq![e]
}

pub open spec fn none() -> Seq<EffectView> {
    Seq::empty()
}

/// A profile request that goes through [`profile_gate`] and then asks for
/// the effect that `make` builds from the token and the user's UUID.
pub open spec fn gated(
    v: AppView,
    stored: Option<Seq<char>>,
    t: ErrorTarget,
    needs_user: bool,
    make: spec_fn(Seq<char>, Seq<char>) -> EffectView,
) -> (AppView, Seq<EffectView>) {
    let (w, g) = profile_gate(v, stored, t, needs_user);
    match g {
        Some(p) => (w, one(make(p.0, p.1))),
        None => (w, none()),
    }
}

pub open spec fn req_load_profile(v: AppView, stored: Option<Seq<char>>) -> (AppView, Seq<EffectView>) {
    gated(v, stored, ErrorTarget::Banner, true, |t: Seq<char>, u: Seq<char>| EffectView::LoadProfile { token: t, user_id: u })
}

pub open spec fn req_update_display_name(v: AppView, stored: Option<Seq<char>>, name: Seq<char>) -> (
    AppView,
    Seq<EffectView>,
) {
    gated(
        v,
        stored,
        ErrorTarget::Name,
        true,
        |t: Seq<char>, u: Seq<char>| EffectView::UpdateDisplayName { token: t, user_id: u, display_name: name },
    )
}

pub open spec fn req_update_theme(v: AppView, stored: Option<Seq<char>>, theme: ThemePreference) -> (
    AppView,
    Seq<EffectView>,
) {
    gated(
        v,
        stored,
        ErrorTarget::Theme,
        true,
        |t: Seq<char>, u: Seq<char>| EffectView::UpdateTheme { token: t, user_id: u, theme: theme },
    )
}

pub open spec fn req_update_email(v: AppView, stored: Option<Seq<char>>, email: Seq<char>) -> (
    AppView,
    Seq<EffectView>,
) {
    gated(v, stored, ErrorTarget::Email, false, |t: Seq<char>, u: Seq<char>| EffectView::UpdateEmail { token: t, email: email })
}

pub open spec fn req_update_password(v: AppView, stored: Option<Seq<char>>, password: Seq<char>) -> (
    AppView,
    Seq<EffectView>,
) {
    gated(
        v,
        stored,
        ErrorTarget::Password,
        false,
        |t: Seq<char>, u: Seq<char>| EffectView::UpdatePassword { token: t, password: password },
    )
}

pub open spec fn req_upload_avatar(v: AppView, stored: Option<Seq<char>>, bytes: Seq<u8>, mime: Seq<char>) -> (
    AppView,
    Seq<EffectView>,
) {
    gated(
        v,
        stored,
        ErrorTarget::Photo,
        true,
        |t: Seq<char>, u: Seq<char>| EffectView::UploadAvatar { token: t, user_id: u, bytes: bytes, mime: mime },
    )
}

pub open spec fn req_update_avatar_url(v: AppView, stored: Option<Seq<char>>, url: Seq<char>) -> (
    AppView,
    Seq<EffectView>,
) {
    gated(
        v,
        stored,
        ErrorTarget::Photo,
        true,
        |t: Seq<char>, u: Seq<char>| EffectView::UpdateAvatarUrl { token: t, user_id: u, avatar_url: url },
    )
}

pub open spec fn req_delete_account(v: AppView, stored: Option<Seq<char>>) -> (AppView, Seq<EffectView>) {
    gated(v, stored, ErrorTarget::Account, false, |t: Seq<char>, u: Seq<char>| EffectView::DeleteAccount { token: t })
}

pub open spec fn req_list_conversations(v: AppView, stored: Option<Seq<char>>) -> (AppView, Seq<EffectView>) {
    match access_token_spec(v.session_access_token, stored) {
        Err(e) => (with_error(v, ErrorTarget::Banner, e), none()),
        Ok(t) => (v, one(EffectView::ListConversations { token: t })),
    }
}

/// A new conversation could not be asked for: the error shows and the chat
/// stops waiting for it.
pub open spec fn create_aborted(v: AppView, e: Seq<char>) -> AppView {
    AppView { error_message: Some(e), creating_new_chat: false, messages_loading: false, ..v }
}

pub open spec fn req_create_conversation(v: AppView, stored: Option<Seq<char>>, title: Seq<char>) -> (
    AppView,
    Seq<EffectView>,
) {
    match access_token_spec(v.session_access_token, stored) {
        Err(e) => (create_aborted(v, e), none()),
        Ok(t) => if v.user_id is Some && !is_blank(v.user_id->0) {
            (v, one(EffectView::CreateConversation { token: t, user_id: v.user_id->0, title: title }))
        } else {
            (create_aborted(v, "Missing user id. Please log in again."@), none())
        },
    }
}

pub open spec fn req_load_messages(v: AppView, stored: Option<Seq<char>>, id: Seq<char>) -> (
    AppView,
    Seq<EffectView>,
) {
    match access_token_spec(v.session_access_token, stored) {
        Err(e) => (AppView { error_message: Some(e), messages_loading: false, ..v }, none()),
        Ok(t) => (v, one(EffectView::LoadMessages { token: t, conversation_id: id })),
    }
}

pub open spec fn req_delete_conversation(v: AppView, stored: Option<Seq<char>>, id: Seq<char>) -> (
    AppView,
    Seq<EffectView>,
) {
    match access_token_spec(v.session_access_token, stored) {
        Err(e) => (with_error(v, ErrorTarget::Banner, e), none()),
        Ok(t) => (v, one(EffectView::DeleteConversation { token: t, conversation_id: id })),
    }
}

/// Requests that go quietly unmade without a token.
pub open spec fn req_append_message(
    v: AppView,
    stored: Option<Seq<char>>,
    id: Seq<char>,
    role: Seq<char>,
    content: Seq<char>,
) -> Seq<EffectView> {
    match access_token_spec(v.session_access_token, stored) {
        Err(e) => none(),
        Ok(t) => one(EffectView::AppendMessage { token: t, conversation_id: id, role: role, content: content }),
    }
}

pub open spec fn req_bump(v: AppView, stored: Option<Seq<char>>, id: Seq<char>) -> Seq<EffectView> {
    match access_token_spec(v.session_access_token, stored) {
        Err(e) => none(),
        Ok(t) => one(EffectView::BumpConversation { token: t, conversation_id: id }),
    }
}

pub open spec fn req_generate_title(v: AppView, stored: Option<Seq<char>>, id: Seq<char>, first: Seq<char>) -> Seq<
    EffectView,
> {
    match access_token_spec(v.session_access_token, stored) {
        Err(e) => none(),
        Ok(t) => one(EffectView::GenerateTitle { token: t, conversation_id: id, first_user_message: first }),
    }
}

impl AppState {
    /// `request_load_profile`.
    pub fn request_load_profile(&mut self, stored: &Option<String>) -> (r: Vec<Effect>)
        ensures
            (final(self)@, effects_view(r@)) == req_load_profile(old(self)@, opt_view(*stored)),
    {
        let mut out: Vec<Effect> = Vec::new();
        if let Some((token, user_id)) = self.begin_profile_request(stored, ErrorTarget::Banner, true) {
            out.push(Effect::LoadProfile { token, user_id });
        }
        assert(effects_view(out@) =~= req_load_profile(old(self)@, opt_view(*stored)).1);
        out
    }

    /// `request_update_display_name`.
    pub fn request_update_display_name(&mut self, stored: &Option<String>, display_name: String) -> (r: Vec<
        Effect,
    >)
        ensures
            (final(self)@, effects_view(r@)) == req_update_display_name(
                old(self)@,
                opt_view(*stored),
                display_name@,
            ),
    {
        let mut out: Vec<Effect> = Vec::new();
        if let Some((token, user_id)) = self.begin_profile_request(stored, ErrorTarget::Name, true) {
            out.push(Effect::UpdateDisplayName { token, user_id, display_name });
        }
        assert(effects_view(out@) =~= req_update_display_name(old(self)@, opt_view(*stored), display_name@).1);
        out
    }

    /// `request_update_theme`.
    pub fn request_update_theme(&mut self, stored: &Option<String>, theme: ThemePreference) -> (r: Vec<Effect>)
        ensures
            (final(self)@, effects_view(r@)) == req_update_theme(old(self)@, opt_view(*stored), theme),
    {
        let mut out: Vec<Effect> = Vec::new();
        if let Some((token, user_id)) = self.begin_profile_request(stored, ErrorTarget::Theme, true) {
            out.push(Effect::UpdateTheme { token, user_id, theme });
        }
        assert(effects_view(out@) =~= req_update_theme(old(self)@, opt_view(*stored), theme).1);
        out
    }

    /// `request_update_email`.
    pub fn request_update_email(&mut self, stored: &Option<String>, email: String) -> (r: Vec<Effect>)
        ensures
            (final(self)@, effects_view(r@)) == req_update_email(old(self)@, opt_view(*stored), email@),
    {
        let mut out: Vec<Effect> = Vec::new();
        if let Some((token, _unused)) = self.begin_profile_request(stored, ErrorTarget::Email, false) {
            out.push(Effect::UpdateEmail { token, email });
        }
        assert(effects_view(out@) =~= req_update_email(old(self)@, opt_view(*stored), email@).1);
        out
    }

    /// `request_update_password`.
    pub fn request_update_password(&mut self, stored: &Option<String>, password: String) -> (r: Vec<Effect>)
        ensures
            (final(self)@, effects_view(r@)) == req_update_password(old(self)@, opt_view(*stored), password@),
    {
        let mut out: Vec<Effect> = Vec::new();
        if let Some((token, _unused)) = self.begin_profile_request(stored, ErrorTarget::Password, false) {
            out.push(Effect::UpdatePassword { token, password });
        }
        assert(effects_view(out@) =~= req_update_password(old(self)@, opt_view(*stored), password@).1);
        out
    }

    /// `request_upload_avatar`.
    pub fn request_upload_avatar(&mut self, stored: &Option<String>, bytes: Vec<u8>, mime: String) -> (r: Vec<
        Effect,
    >)
        ensures
            (final(self)@, effects_view(r@)) == req_upload_avatar(old(self)@, opt_view(*stored), bytes@, mime@),
    {
        let mut out: Vec<Effect> = Vec::new();
        let ghost b = bytes@;
        if let Some((token, user_id)) = self.begin_profile_request(stored, ErrorTarget::Photo, true) {
            out.push(Effect::UploadAvatar { token, user_id, bytes, mime });
        }
        assert(effects_view(out@) =~= req_upload_avatar(old(self)@, opt_view(*stored), b, mime@).1);
        out
    }

    /// `request_update_avatar_url`.
    pub fn request_update_avatar_url(&mut self, stored: &Option<String>, avatar_url: String) -> (r: Vec<Effect>)
        ensures
            (final(self)@, effects_view(r@)) == req_update_avatar_url(old(self)@, opt_view(*stored), avatar_url@),
    {
        let mut out: Vec<Effect> = Vec::new();
        if let Some((token, user_id)) = self.begin_profile_request(stored, ErrorTarget::Photo, true) {
            out.push(Effect::UpdateAvatarUrl { token, user_id, avatar_url });
        }
        assert(effects_view(out@) =~= req_update_avatar_url(old(self)@, opt_view(*stored), avatar_url@).1);
        out
    }

    /// `request_delete_account`.
    pub fn request_delete_account(&mut self, stored: &Option<String>) -> (r: Vec<Effect>)
        ensures
            (final(self)@, effects_view(r@)) == req_delete_account(old(self)@, opt_view(*stored)),
    {
        let mut out: Vec<Effect> = Vec::new();
        if let Some((token, _unused)) = self.begin_profile_request(stored, ErrorTarget::Account, false) {
            out.push(Effect::DeleteAccount { token });
        }
        assert(effects_view(out@) =~= req_delete_account(old(self)@, opt_view(*stored)).1);
        out
    }

    /// `request_download_avatar`: needs no token.
    pub fn request_download_avatar(&self, url: String) -> (r: Vec<Effect>)
        ensures
            effects_view(r@) == one(EffectView::DownloadAvatar { url: url@ }),
    {
        let mut out: Vec<Effect> = Vec::new();
        out.push(Effect::DownloadAvatar { url });
        assert(effects_view(out@) =~= one(EffectView::DownloadAvatar { url: url@ }));
        out
    }

    /// `request_list_conversations`.
    pub fn request_list_conversations(&mut self, stored: &Option<String>) -> (r: Vec<Effect>)
        ensures
            (final(self)@, effects_view(r@)) == req_list_conversations(old(self)@, opt_view(*stored)),
    {
        let mut out: Vec<Effect> = Vec::new();
        match self.access_token(stored) {
            Ok(token) => {
                out.push(Effect::ListConversations { token });
            },
            Err(e) => {
                self.show_error(ErrorTarget::Banner, e);
            },
        }
        assert(effects_view(out@) =~= req_list_conversations(old(self)@, opt_view(*stored)).1);
        out
    }

    fn abort_create(&mut self, e: String)
        ensures
            final(self)@ == create_aborted(old(self)@, e@),
    {
        self.error_message = Some(e);
        self.creating_new_chat = false;
        self.messages_loading = false;
    }

    /// `request_create_conversation`.
    pub fn request_create_conversation(&mut self, stored: &Option<String>, title: &str) -> (r: Vec<Effect>)
        ensures
            (final(self)@, effects_view(r@)) == req_create_conversation(old(self)@, opt_view(*stored), title@),
    {
        let mut out: Vec<Effect> = Vec::new();
        let token = match self.access_token(stored) {
            Ok(token) => token,
            Err(e) => {
                self.abort_create(e);
                assert(effects_view(out@) =~= Seq::<EffectView>::empty());
                return out;
            },
        };
        let user_id = match &self.user_id {
            Some(u) => if !is_blank_str(u.as_str()) {
                u.clone()
            } else {
                self.abort_create("Missing user id. Please log in again.".to_owned());
                assert(effects_view(out@) =~= Seq::<EffectView>::empty());
                return out;
            },
            None => {
                self.abort_create("Missing user id. Please log in again.".to_owned());
                assert(effects_view(out@) =~= Seq::<EffectView>::empty());
                return out;
            },
        };
        out.push(Effect::CreateConversation { token, user_id, title: title.to_owned() });
        assert(effects_view(out@) =~= req_create_conversation(old(self)@, opt_view(*stored), title@).1);
        out
    }

    /// `request_load_messages`.
    pub fn request_load_messages(&mut self, stored: &Option<String>, conversation_id: String) -> (r: Vec<Effect>)
        ensures
            (final(self)@, effects_view(r@)) == req_load_messages(old(self)@, opt_view(*stored), conversation_id@),
    {
        let mut out: Vec<Effect> = Vec::new();
        match self.access_token(stored) {
            Ok(token) => {
                out.push(Effect::LoadMessages { token, conversation_id });
            },
            Err(e) => {
                self.error_message = Some(e);
                self.messages_loading = false;
            },
        }
        assert(effects_view(out@) =~= req_load_messages(old(self)@, opt_view(*stored), conversation_id@).1);
        out
    }

    /// `request_delete_conversation`.
    pub fn request_delete_conversation(&mut self, stored: &Option<String>, conversation_id: String) -> (r: Vec<
        Effect,
    >)
        ensures
            (final(self)@, effects_view(r@)) == req_delete_conversation(
                old(self)@,
                opt_view(*stored),
                conversation_id@,
            ),
    {
        let mut out: Vec<Effect> = Vec::new();
        match self.access_token(stored) {
            Ok(token) => {
                out.push(Effect::DeleteConversation { token, conversation_id });
            },
            Err(e) => {
                self.show_error(ErrorTarget::Banner, e);
            },
        }
        assert(effects_view(out@) =~= req_delete_conversation(old(self)@, opt_view(*stored), conversation_id@).1);
        out
    }

    /// `request_append_message`.
    pub fn request_append_message(&self, stored: &Option<String>, conversation_id: String, role: &str, content: String) -> (r:
        Vec<Effect>)
        ensures
            effects_view(r@) == req_append_message(self@, opt_view(*stored), conversation_id@, role@, content@),
    {
        let mut out: Vec<Effect> = Vec::new();
        if let Ok(token) = self.access_token(stored) {
            out.push(Effect::AppendMessage { token, conversation_id, role: role.to_owned(), content });
        }
        assert(effects_view(out@) =~= req_append_message(self@, opt_view(*stored), conversation_id@, role@, content@));
        out
    }

    /// `request_bump_conversation_updated_at`.
    pub fn request_bump_conversation_updated_at(&self, stored: &Option<String>, conversation_id: String) -> (r: Vec<
        Effect,
    >)
        ensures
            effects_view(r@) == req_bump(self@, opt_view(*stored), conversation_id@),
    {
        let mut out: Vec<Effect> = Vec::new();
        if let Ok(token) = self.access_token(stored) {
            out.push(Effect::BumpConversation { token, conversation_id });
        }
        assert(effects_view(out@) =~= req_bump(self@, opt_view(*stored), conversation_id@));
        out
    }

    /// `request_generate_conversation_title`.
    pub fn request_generate_conversation_title(
        &self,
        stored: &Option<String>,
        conversation_id: String,
        first_user_message: String,
    ) -> (r: Vec<Effect>)
        ensures
            effects_view(r@) == req_generate_title(
                self@,
                opt_view(*stored),
                conversation_id@,
                first_user_message@,
            ),
    {
        let mut out: Vec<Effect> = Vec::new();
        if let Ok(token) = self.access_token(stored) {
            out.push(Effect::GenerateTitle { token, conversation_id, first_user_message });
        }
        assert(effects_view(out@) =~= req_generate_title(self@, opt_view(*stored), conversation_id@, first_user_message@));
        out
    }
}

/// The effects of `a` followed by those of `b`.
pub fn concat_effects(a: Vec<Effect>, b: Vec<Effect>) -> (r: Vec<Effect>)
    ensures
        effects_view(r@) == effects_view(a@) + effects_view(b@),
{
    let mut a = a;
    let mut b = b;
    let ghost av = a@;
    let ghost bv = b@;
    a.append(&mut b);
    assert(effects_view(a@) =~= effects_view(av) + effects_view(bv));
    a
}

/// Without a usable session token and with none in the secret store, no
/// backend request goes out: the chat list and the profile show
/// `Missing auth session token. Please log in again.` in the banner, a new
/// conversation is given up, and the background stores of messages are
/// dropped.
pub proof fn law_no_token_no_request(v: AppView, title: Seq<char>, id: Seq<char>, role: Seq<char>, content: Seq<char>)
    requires
        v.session_access_token is None || is_blank(v.session_access_token->0),
    ensures
        req_list_conversations(v, None) == (
            with_error(v, ErrorTarget::Banner, missing_token_message()),
            Seq::<EffectView>::empty(),
        ),
        req_load_profile(v, None) == (
            with_error(v, ErrorTarget::Banner, missing_token_message()),
            Seq::<EffectView>::empty(),
        ),
        req_create_conversation(v, None, title) == (
            create_aborted(v, missing_token_message()),
            Seq::<EffectView>::empty(),
        ),
        req_append_message(v, None, id, role, content).len() == 0,
        req_bump(v, None, id).len() == 0,
{
}

impl AppState {
    /// Stores a message of `conversation_id` and bumps the conversation, as
    /// far as a token is at hand.
    pub fn store_and_bump(&self, stored: &Option<String>, conversation_id: String, role: &str, content: String) -> (r:
        Vec<Effect>)
        ensures
            effects_view(r@) == req_append_message(self@, opt_view(*stored), conversation_id@, role@, content@)
                + req_bump(self@, opt_view(*stored), conversation_id@),
    {
        let a = self.request_append_message(stored, conversation_id.clone(), role, content);
        let b = self.request_bump_conversation_updated_at(stored, conversation_id);
        concat_effects(a, b)
    }
}

} // verus!
