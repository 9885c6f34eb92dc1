//! Local user sessions: admin recognition, expiry, and the responses the
//! session commands return. Tokens and storage live with the caller.
use vstd::prelude::*;
use crate::text::{owned, same_text};

verus! {

/// Seconds a session lasts when the user stays logged in (30 days).
pub const LONG_SESSION_SECS: i64 = 2592000;

/// Seconds a session lasts otherwise (8 hours).
pub const SHORT_SESSION_SECS: i64 = 28800;

/// A session as validated.
#[derive(Debug, Clone)]
pub struct Session {
    pub token: String,
    pub email: String,
    pub is_admin: bool,
    pub valid: bool,
}

#[derive(Debug)]
pub struct LoginRequest {
    pub email: String,
    pub password: String,
    pub stay_logged_in: bool,
}

#[derive(Debug)]
pub struct LoginResponse {
    pub success: bool,
    pub token: Option<String>,
    pub is_admin: bool,
    pub error: Option<String>,
}

#[derive(Debug)]
pub struct LogoutResponse {
    pub success: bool,
    pub error: Option<String>,
}

#[derive(Debug)]
pub struct SessionResponse {
    pub valid: bool,
    pub email: Option<String>,
    pub is_admin: bool,
}

#[derive(Debug)]
pub struct CurrentSessionResponse {
    pub email: String,
    pub token: String,
    pub is_admin: bool,
}

/// Whether the credentials are the built-in administrator's.
pub fn is_admin_login(email: &str, password: &str) -> (r: bool)
    ensures
        r == (email@ == "Admin"@ && password@ == "SWFL_ADMIN"@),
{
    same_text(email, "Admin") && same_text(password, "SWFL_ADMIN")
}

/// How long a new session lasts, in seconds.
pub fn session_lifetime_secs(stay_logged_in: bool) -> (r: i64)
    ensures
        r == if stay_logged_in { LONG_SESSION_SECS } else { SHORT_SESSION_SECS },
{
    if stay_logged_in { LONG_SESSION_SECS } else { SHORT_SESSION_SECS }
}

/// A stored session: its email, admin flag, and expiry in seconds since the
/// epoch (`None` when the stored expiry does not parse).
pub struct StoredSession {
    pub email: String,
    pub is_admin: bool,
    pub expires_at: Option<i64>,
}

impl Session {
    /// The session of an unknown or expired token.
    pub fn invalid() -> (r: Session)
        ensures
            !r.valid && !r.is_admin && r.token@.len() == 0 && r.email@.len() == 0,
    {
        Session { token: String::new(), email: String::new(), is_admin: false, valid: false }
    }

    /// Validates `token` from what the store holds for it: valid exactly when
    /// a record exists whose expiry parses and lies after `now`.
    pub fn from_lookup(token: &str, found: Option<StoredSession>, now: i64) -> (r: Session)
        ensures
            r.valid == (found matches Some(s) && (s.expires_at matches Some(t) && now < t)),
            r.valid ==> r.token@ == token@ && r.email@ == found.unwrap().email@
                && r.is_admin == found.unwrap().is_admin,
            !r.valid ==> !r.is_admin && r.token@.len() == 0 && r.email@.len() == 0,
    {
        match found {
            Some(s) => match s.expires_at {
                Some(t) => {
                    if now < t {
                        Session { token: owned(token), email: s.email, is_admin: s.is_admin, valid: true }
                    } else {
                        Session::invalid()
                    }
                },
                None => Session::invalid(),
            },
            None => Session::invalid(),
        }
    }

    /// What session validation reports: the email only when valid.
    pub fn to_response(&self) -> (r: SessionResponse)
        ensures
            r.valid == self.valid,
            r.is_admin == self.is_admin,
            self.valid ==> (r.email matches Some(e) && e@ == self.email@),
            !self.valid ==> r.email.is_none(),
    {
        SessionResponse {
            valid: self.valid,
            email: if self.valid { Some(owned(self.email.as_str())) } else { None },
            is_admin: self.is_admin,
        }
    }

    /// The current session, when valid.
    pub fn current(&self) -> (r: Option<CurrentSessionResponse>)
        ensures
            self.valid == r.is_some(),
            r matches Some(c) ==> c.email@ == self.email@ && c.token@ == self.token@ && c.is_admin == self.is_admin,
    {
        if self.valid {
            Some(CurrentSessionResponse {
                email: owned(self.email.as_str()),
                token: owned(self.token.as_str()),
                is_admin: self.is_admin,
            })
        } else {
            None
        }
    }
}

/// The login response for a session-creation outcome.
pub fn login_response(created: Result<String, String>, is_admin: bool) -> (r: LoginResponse)
    ensures
        r.success == created.is_ok(),
        r.is_admin == (created.is_ok() && is_admin),
        match created {
            Ok(t) => r.token == Some(t) && r.error.is_none(),
            Err(e) => r.token.is_none() && r.error == Some(e),
        },
{
    match created {
        Ok(t) => LoginResponse { success: true, token: Some(t), is_admin, error: None },
        Err(e) => LoginResponse { success: false, token: None, is_admin: false, error: Some(e) },
    }
}

/// The logout response for a clearing outcome.
pub fn logout_response(cleared: Result<(), String>) -> (r: LogoutResponse)
    ensures
        r.success == cleared.is_ok(),
        match cleared {
            Ok(()) => r.error.is_none(),
            Err(e) => r.error == Some(e),
        },
{
    match cleared {
        Ok(()) => LogoutResponse { success: true, error: None },
        Err(e) => LogoutResponse { success: false, error: Some(e) },
    }
}

} // verus!
