//! The Supabase backend: configured endpoints, the records exchanged with
//! it, and the messages shown when a profile call fails.
use vstd::prelude::*;
use crate::text::{contains_seq, contains_str, strip_trailing, strip_trailing_str};

verus! {

/// The build-time settings of the application (`SUPABASE_URL`,
/// `SUPABASE_PUBLISHABLE_KEY`, and the provider settings).
pub struct EnvConfig {
    pub supabase_url: String,
    pub supabase_publishable_key: String,
    pub auvro_api_key: String,
    pub auvro_endpoint: String,
    pub auvro_model: String,
    pub openrouter_api_key: String,
    pub openrouter_base_url: String,
    pub openrouter_model: String,
}

/// `base` without trailing slashes, followed by `path`.
pub open spec fn under(base: Seq<char>, path: Seq<char>) -> Seq<char> {
    strip_trailing(base, '/') + path
}

fn concat2(a: &str, b: &str) -> (r: String)
    ensures
        r@ == a@ + b@,
{
    let mut s = String::new();
    s.push_str(a);
    s.push_str(b);
    s
}

fn concat3(a: &str, b: &str, c: &str) -> (r: String)
    ensures
        r@ == a@ + b@ + c@,
{
    let mut s = String::new();
    s.push_str(a);
    s.push_str(b);
    s.push_str(c);
    s
}

impl EnvConfig {
    /// `supabase_rest_url`: the REST endpoint of the project.
    pub fn supabase_rest_url(&self) -> (r: String)
        ensures
            r@ == under(self.supabase_url@, "/rest/v1"@),
    {
        let base = strip_trailing_str(self.supabase_url.as_str(), '/');
        concat2(base.as_str(), "/rest/v1")
    }

    /// `supabase_auth_url`: the authentication endpoint of the project.
    pub fn supabase_auth_url(&self) -> (r: String)
        ensures
            r@ == under(self.supabase_url@, "/auth/v1"@),
    {
        let base = strip_trailing_str(self.supabase_url.as_str(), '/');
        concat2(base.as_str(), "/auth/v1")
    }

    /// `supabase_url`: the project URL as configured.
    pub fn supabase_url(&self) -> (r: &str)
        ensures
            r@ == self.supabase_url@,
    {
        self.supabase_url.as_str()
    }
}

/// `signup_url`.
pub fn signup_url(supabase_url: &str) -> (r: String)
    ensures
        r@ == supabase_url@ + "/auth/v1/signup"@,
{
    concat2(supabase_url, "/auth/v1/signup")
}

/// `signin_url`.
pub fn signin_url(supabase_url: &str) -> (r: String)
    ensures
        r@ == supabase_url@ + "/auth/v1/token?grant_type=password"@,
{
    concat2(supabase_url, "/auth/v1/token?grant_type=password")
}

/// `signout_url`.
pub fn signout_url(supabase_url: &str) -> (r: String)
    ensures
        r@ == supabase_url@ + "/auth/v1/logout"@,
{
    concat2(supabase_url, "/auth/v1/logout")
}

/// `refresh_url`.
pub fn refresh_url(supabase_url: &str) -> (r: String)
    ensures
        r@ == supabase_url@ + "/auth/v1/token?grant_type=refresh_token"@,
{
    concat2(supabase_url, "/auth/v1/token?grant_type=refresh_token")
}

/// The list of the user's conversations, most recently updated first.
pub fn conversations_list_url(rest_url: &str) -> (r: String)
    ensures
        r@ == rest_url@ + "/conversations?select=*&order=updated_at.desc"@,
{
    concat2(rest_url, "/conversations?select=*&order=updated_at.desc")
}

/// The conversations collection.
pub fn conversations_url(rest_url: &str) -> (r: String)
    ensures
        r@ == rest_url@ + "/conversations"@,
{
    concat2(rest_url, "/conversations")
}

/// One conversation, selected by id.
pub fn conversation_url(rest_url: &str, id: &str) -> (r: String)
    ensures
        r@ == rest_url@ + "/conversations?id=eq."@ + id@,
{
    concat3(rest_url, "/conversations?id=eq.", id)
}

/// The latest 50 messages of a conversation, newest first.
pub fn messages_list_url(rest_url: &str, conversation_id: &str) -> (r: String)
    ensures
        r@ == rest_url@ + "/messages?conversation_id=eq."@ + conversation_id@
            + "&order=created_at.desc&limit=50&select=*"@,
{
    let mut s = concat3(rest_url, "/messages?conversation_id=eq.", conversation_id);
    s.push_str("&order=created_at.desc&limit=50&select=*");
    s
}

/// The messages collection.
pub fn messages_url(rest_url: &str) -> (r: String)
    ensures
        r@ == rest_url@ + "/messages"@,
{
    concat2(rest_url, "/messages")
}

/// The profile row of a user.
pub fn profile_url(rest_url: &str, user_id: &str) -> (r: String)
    ensures
        r@ == rest_url@ + "/profiles?id=eq."@ + user_id@,
{
    concat3(rest_url, "/profiles?id=eq.", user_id)
}

/// The profile row of a user, all columns selected.
pub fn profile_select_url(rest_url: &str, user_id: &str) -> (r: String)
    ensures
        r@ == rest_url@ + "/profiles?id=eq."@ + user_id@ + "&select=*"@,
{
    let mut s = concat3(rest_url, "/profiles?id=eq.", user_id);
    s.push_str("&select=*");
    s
}

/// The profiles collection.
pub fn profiles_url(rest_url: &str) -> (r: String)
    ensures
        r@ == rest_url@ + "/profiles"@,
{
    concat2(rest_url, "/profiles")
}

/// The signed-in user of the authentication endpoint.
pub fn auth_user_url(auth_url: &str) -> (r: String)
    ensures
        r@ == auth_url@ + "/user"@,
{
    concat2(auth_url, "/user")
}

/// Where a user's avatar is uploaded.
pub fn avatar_upload_url(supabase_url: &str, user_id: &str) -> (r: String)
    ensures
        r@ == supabase_url@ + "/storage/v1/object/avatars/"@ + user_id@ + "/avatar.jpg"@,
{
    let mut s = concat3(supabase_url, "/storage/v1/object/avatars/", user_id);
    s.push_str("/avatar.jpg");
    s
}

/// The public address of a user's avatar (where an upload can be read back).
pub fn avatar_public_url(supabase_url: &str, user_id: &str) -> (r: String)
    ensures
        r@ == supabase_url@ + "/storage/v1/object/public/avatars/"@ + user_id@ + "/avatar.jpg"@,
{
    let mut s = concat3(supabase_url, "/storage/v1/object/public/avatars/", user_id);
    s.push_str("/avatar.jpg");
    s
}

/// A user's profile row. Timestamps are microseconds since the Unix epoch.
pub struct Profile {
    pub id: String,
    pub display_name: Option<String>,
    pub avatar_url: Option<String>,
    pub theme: Option<String>,
    pub updated_at_us: Option<i64>,
}

impl Profile {
    /// `new`: the profile of a user who has none yet: no name, no avatar,
    /// the `system` theme.
    pub fn new(user_id: String) -> (r: Self)
        ensures
            r.id@ == user_id@,
            r.display_name is None,
            r.avatar_url is None,
            r.theme matches Some(t) && t@ == "system"@,
            r.updated_at_us is None,
    {
        Profile {
            id: user_id,
            display_name: None,
            avatar_url: None,
            theme: Some("system".to_owned()),
            updated_at_us: None,
        }
    }
}

/// A conversation row. Timestamps are microseconds since the Unix epoch.
pub struct Conversation {
    pub id: String,
    pub user_id: String,
    pub title: String,
    pub created_at_us: i64,
    pub updated_at_us: i64,
}

/// A message row. Timestamps are microseconds since the Unix epoch.
pub struct Message {
    pub id: String,
    pub conversation_id: String,
    pub role: String,
    pub content: String,
    pub created_at_us: i64,
}

/// A profile as the specification sees it.
pub struct ProfileView {
    pub id: Seq<char>,
    pub display_name: Option<Seq<char>>,
    pub avatar_url: Option<Seq<char>>,
    pub theme: Option<Seq<char>>,
    pub updated_at_us: Option<i64>,
}

/// A conversation as the specification sees it.
pub struct ConversationView {
    pub id: Seq<char>,
    pub user_id: Seq<char>,
    pub title: Seq<char>,
    pub created_at_us: i64,
    pub updated_at_us: i64,
}

/// A message as the specification sees it.
pub struct MessageView {
    pub id: Seq<char>,
    pub conversation_id: Seq<char>,
    pub role: Seq<char>,
    pub content: Seq<char>,
    pub created_at_us: i64,
}

pub open spec fn opt_view(o: Option<String>) -> Option<Seq<char>> {
    match o {
        Some(s) => Some(s@),
        None => None,
    }
}

impl View for Profile {
    type V = ProfileView;

    open spec fn view(&self) -> ProfileView {
        ProfileView {
            id: self.id@,
            display_name: opt_view(self.display_name),
            avatar_url: opt_view(self.avatar_url),
            theme: opt_view(self.theme),
            updated_at_us: self.updated_at_us,
        }
    }
}

impl View for Conversation {
    type V = ConversationView;

    open spec fn view(&self) -> ConversationView {
        ConversationView {
            id: self.id@,
            user_id: self.user_id@,
            title: self.title@,
            created_at_us: self.created_at_us,
            updated_at_us: self.updated_at_us,
        }
    }
}

impl View for Message {
    type V = MessageView;

    open spec fn view(&self) -> MessageView {
        MessageView {
            id: self.id@,
            conversation_id: self.conversation_id@,
            role: self.role@,
            content: self.content@,
            created_at_us: self.created_at_us,
        }
    }
}

/// A copy of an optional string.
pub fn copy_opt(o: &Option<String>) -> (r: Option<String>)
    ensures
        opt_view(r) == opt_view(*o),
{
    match o {
        Some(s) => Some(s.clone()),
        None => None,
    }
}

impl Profile {
    /// A copy of the profile.
    pub fn copy(&self) -> (r: Self)
        ensures
            r@ == self@,
    {
        Profile {
            id: self.id.clone(),
            display_name: copy_opt(&self.display_name),
            avatar_url: copy_opt(&self.avatar_url),
            theme: copy_opt(&self.theme),
            updated_at_us: self.updated_at_us,
        }
    }
}

impl Conversation {
    /// A copy of the conversation.
    pub fn copy(&self) -> (r: Self)
        ensures
            r@ == self@,
    {
        Conversation {
            id: self.id.clone(),
            user_id: self.user_id.clone(),
            title: self.title.clone(),
            created_at_us: self.created_at_us,
            updated_at_us: self.updated_at_us,
        }
    }
}

impl Message {
    /// A copy of the message.
    pub fn copy(&self) -> (r: Self)
        ensures
            r@ == self@,
    {
        Message {
            id: self.id.clone(),
            conversation_id: self.conversation_id.clone(),
            role: self.role.clone(),
            content: self.content.clone(),
            created_at_us: self.created_at_us,
        }
    }
}

/// The message for a failed profile call: a missing `profiles` table (error
/// `PGRST205`, or a body naming `public.profiles`), a write refused by
/// row-level security (status 403 with error `42501`), or else
/// `Could not <action> (<status>): <body>`.
pub open spec fn profile_error(status_code: u16, status_text: Seq<char>, body: Seq<char>, action: Seq<char>) -> Seq<char> {
    if contains_seq(body, "PGRST205"@) || contains_seq(body, "public.profiles"@) {
        "Database not set up: profiles table is missing. Run the SQL setup for the profiles table first."@
    } else if status_code == 403 && contains_seq(body, "42501"@) {
        "Profile write blocked by Supabase RLS. Ensure INSERT/UPDATE policies for profiles use auth.uid() = id and refresh your login session."@
    } else {
        "Could not "@ + action + " ("@ + status_text + "): "@ + body
    }
}

/// `map_profile_error`, for a status given by its code and display text.
pub fn map_profile_error(status_code: u16, status_text: &str, body: &str, action: &str) -> (r: String)
    ensures
        r@ == profile_error(status_code, status_text@, body@, action@),
{
    if contains_str(body, "PGRST205") || contains_str(body, "public.profiles") {
        return "Database not set up: profiles table is missing. Run the SQL setup for the profiles table first.".to_owned();
    }
    if status_code == 403 && contains_str(body, "42501") {
        return "Profile write blocked by Supabase RLS. Ensure INSERT/UPDATE policies for profiles use auth.uid() = id and refresh your login session.".to_owned();
    }
    let mut s = String::new();
    s.push_str("Could not ");
    s.push_str(action);
    s.push_str(" (");
    s.push_str(status_text);
    s.push_str("): ");
    s.push_str(body);
    s
}

/// `Could not <action> (<status>): <body>`, the error of a failed backend
/// call.
pub fn request_error(action: &str, status_text: &str, body: &str) -> (r: String)
    ensures
        r@ == "Could not "@ + action@ + " ("@ + status_text@ + "): "@ + body@,
{
    let mut s = String::new();
    s.push_str("Could not ");
    s.push_str(action);
    s.push_str(" (");
    s.push_str(status_text);
    s.push_str("): ");
    s.push_str(body);
    s
}

} // verus!
