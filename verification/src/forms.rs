//! The checks on the sign-in and sign-up forms before anything is sent.
use vstd::prelude::*;
use crate::chat_state::{AppState, AppView};
use crate::session::same_str;
use crate::startup::{missing_env_spec, should_restore_session};
use crate::text::{chars_of, trim, trim_str};

verus! {

/// A sign-up form as typed: trimmed name and e-mail, the password twice.
pub struct SignupForm {
    pub full_name: String,
    pub email: String,
    pub password: String,
}

/// A sign-up field is empty (the name and e-mail once trimmed).
pub open spec fn signup_missing(v: AppView) -> bool {
    trim(v.auth_full_name).len() == 0 || trim(v.auth_email).len() == 0 || v.auth_password.len() == 0
        || v.auth_confirm_password.len() == 0
}

/// The checks on the sign-up form: every field is required and the two
/// passwords must match; the form goes out trimmed.
pub open spec fn begin_signup_spec(v: AppView) -> (AppView, Option<(Seq<char>, Seq<char>, Seq<char>)>) {
    if signup_missing(v) {
        (AppView { auth_notice: Some("Full name, email, password, and confirm password are required."@), ..v }, None)
    } else if v.auth_password != v.auth_confirm_password {
        (AppView { auth_notice: Some("Passwords do not match."@), ..v }, None)
    } else {
        (v, Some((trim(v.auth_full_name), trim(v.auth_email), v.auth_password)))
    }
}

/// The notice when a sign-in or sign-up is asked for without the backend
/// configured.
pub open spec fn not_configured_notice() -> Seq<char> {
    "Supabase is not configured. Set SUPABASE_URL and SUPABASE_PUBLISHABLE_KEY in .env."@
}

/// The form's submit button with the backend's address `url` and key
/// `key`: ready when no configuration error is shown and both are set;
/// otherwise the configuration error, or the not-configured notice, is
/// shown and nothing is sent.
pub open spec fn submit_ready_spec(v: AppView, url: Seq<char>, key: Seq<char>) -> (AppView, bool) {
    if v.auth_error is None && missing_env_spec(url, key) is None {
        (v, true)
    } else {
        (
            AppView {
                auth_notice: Some(
                    match v.auth_error {
                        Some(e) => e,
                        None => not_configured_notice(),
                    },
                ),
                ..v
            },
            false,
        )
    }
}

impl AppState {
    /// [`submit_ready_spec`].
    pub fn submit_ready(&mut self, url: &str, key: &str) -> (r: bool)
        ensures
            (final(self)@, r) == submit_ready_spec(old(self)@, url@, key@),
    {
        if self.auth_error.is_none() && should_restore_session(url, key) {
            return true;
        }
        let notice = match &self.auth_error {
            Some(e) => e.clone(),
            None => "Supabase is not configured. Set SUPABASE_URL and SUPABASE_PUBLISHABLE_KEY in .env.".to_owned(),
        };
        self.auth_notice = Some(notice);
        false
    }

    /// The checks before a sign-in request is sent: the trimmed
    /// e-mail and the password, or the notice that both are required.
    pub fn begin_login(&mut self) -> (r: Option<(String, String)>)
        ensures
            match r {
                Some(p) => final(self)@ == old(self)@ && p.0@ == trim(old(self)@.auth_email) && p.1@
                    == old(self)@.auth_password && trim(old(self)@.auth_email).len() > 0
                    && old(self)@.auth_password.len() > 0,
                None => (trim(old(self)@.auth_email).len() == 0 || old(self)@.auth_password.len() == 0)
                    && final(self)@ == (AppView {
                    auth_notice: Some("Email and password are required."@),
                    ..old(self)@
                }),
            },
    {
        let email = trim_str(self.auth_email.as_str());
        let password = self.auth_password.clone();
        if chars_of(email.as_str()).len() == 0 || chars_of(password.as_str()).len() == 0 {
            self.auth_notice = Some("Email and password are required.".to_owned());
            return None;
        }
        Some((email, password))
    }

    /// Whether a sign-up field is missing.
    pub fn signup_fields_missing(&self) -> (r: bool)
        ensures
            r == signup_missing(self@),
    {
        let full_name = trim_str(self.auth_full_name.as_str());
        let email = trim_str(self.auth_email.as_str());
        chars_of(full_name.as_str()).len() == 0 || chars_of(email.as_str()).len() == 0 || chars_of(
            self.auth_password.as_str(),
        ).len() == 0 || chars_of(self.auth_confirm_password.as_str()).len() == 0
    }

    /// The checks before a sign-up request is sent.
    pub fn begin_signup(&mut self) -> (r: Option<SignupForm>)
        ensures
            (final(self)@, match r {
                Some(f) => Some((f.full_name@, f.email@, f.password@)),
                None => None,
            }) == begin_signup_spec(old(self)@),
    {
        if self.signup_fields_missing() {
            self.auth_notice = Some(
                "Full name, email, password, and confirm password are required.".to_owned(),
            );
            return None;
        }
        if !same_str(self.auth_password.as_str(), self.auth_confirm_password.as_str()) {
            self.auth_notice = Some("Passwords do not match.".to_owned());
            return None;
        }
        let full_name = trim_str(self.auth_full_name.as_str());
        let email = trim_str(self.auth_email.as_str());
        let password = self.auth_password.clone();
        Some(SignupForm { full_name, email, password })
    }
}

} // verus!
