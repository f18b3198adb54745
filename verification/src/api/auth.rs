//! Accounts: what registration, login and email verification answer, and
//! how a request proves who sent it.

use vstd::prelude::*;
use crate::models::opt_text;
use crate::text::{copy_range, from_chars, opt_str, str_eq, to_chars};

verus! {

/// The body of a registration.
#[derive(Clone, Debug, PartialEq, Eq)]
pub struct RegisterRequest {
    pub email: String,
    pub password: String,
    pub username: Option<String>,
}

/// The body of a login.
#[derive(Clone, Debug, PartialEq, Eq)]
pub struct LoginRequest {
    pub email: String,
    pub password: String,
}

/// The answer to a registration or a login.
#[derive(Clone, Debug, PartialEq, Eq)]
pub struct AuthResponse {
    pub token: Option<String>,
    pub user_id: i32,
    pub verification_required: bool,
}

/// The body of a request for another verification email.
#[derive(Clone, Debug, PartialEq, Eq)]
pub struct ResendVerificationRequest {
    pub email: String,
}

/// Why a request about an account is refused.
#[derive(Clone, Copy, Debug, PartialEq, Eq, Structural)]
pub enum AuthError {
    /// The user exists already or the data is not valid. Status 400.
    UserExistsOrInvalid,
    /// Unknown email or wrong password. Status 401.
    InvalidCredentials,
    /// The email was not verified yet. Status 403.
    EmailNotVerified,
    /// The request names no token. Status 400.
    MissingToken,
    /// The token is unknown or no token at all. Status 400.
    InvalidToken,
    /// The token is too old. Status 400.
    TokenExpired,
    /// Something failed on our side. Status 500.
    Internal,
}

impl AuthError {
    /// The HTTP status of the refusal.
    pub fn status_code(&self) -> (code: u16)
        ensures
            code == (match *self {
                AuthError::InvalidCredentials => 401int,
                AuthError::EmailNotVerified => 403int,
                AuthError::Internal => 500int,
                _ => 400int,
            }),
    {
        match self {
            AuthError::InvalidCredentials => 401,
            AuthError::EmailNotVerified => 403,
            AuthError::Internal => 500,
            _ => 400,
        }
    }
}

/// How long a verification token is good for: 24 hours, in microseconds.
pub const VERIFICATION_PERIOD: i64 = 86_400_000_000;

/// How long a login is good for: 30 days, in seconds.
pub const LOGIN_PERIOD_SECONDS: i64 = 2_592_000;

/// Answers a registration. `stored` is the identifier of the new user, or
/// nothing where the store refused the user. A new user gets no token yet and
/// has to verify the email first.
pub fn register(stored: Option<i32>) -> (answer: Result<AuthResponse, AuthError>)
    ensures
        match answer {
            Ok(r) => stored == Some(r.user_id) && r.token is None && r.verification_required,
            Err(e) => stored is None && e == AuthError::UserExistsOrInvalid,
        },
{
    match stored {
        Some(user_id) => Ok(AuthResponse { token: None, user_id, verification_required: true }),
        None => Err(AuthError::UserExistsOrInvalid),
    }
}

/// Checks a login. `found` is the identifier of the user with the email and
/// whether the email is verified; `password_matches` is what the comparison of
/// the password with the stored hash gave, or nothing where it failed. The
/// result is the user that may get a token.
pub fn login(found: Option<(i32, bool)>, password_matches: Option<bool>) -> (user: Result<
    i32,
    AuthError,
>)
    ensures
        match user {
            Ok(id) => found matches Some((user_id, verified)) && id == user_id && verified
                && password_matches == Some(true),
            Err(AuthError::InvalidCredentials) => found is None || password_matches == Some(false),
            Err(AuthError::Internal) => found is Some && password_matches is None,
            Err(AuthError::EmailNotVerified) => found matches Some((_, verified)) && !verified
                && password_matches == Some(true),
            Err(_) => false,
        },
{
    let (user_id, verified) = match found {
        Some(row) => row,
        None => {
            return Err(AuthError::InvalidCredentials);
        },
    };
    match password_matches {
        Some(true) => {},
        Some(false) => {
            return Err(AuthError::InvalidCredentials);
        },
        None => {
            return Err(AuthError::Internal);
        },
    }
    if !verified {
        return Err(AuthError::EmailNotVerified);
    }
    Ok(user_id)
}

/// The answer to a login that was checked: the token, for a verified user.
pub fn login_response(user_id: i32, token: Option<String>) -> (answer: Result<
    AuthResponse,
    AuthError,
>)
    ensures
        match answer {
            Ok(r) => token is Some && opt_text(r.token) == opt_text(token) && r.user_id == user_id
                && !r.verification_required,
            Err(e) => token is None && e == AuthError::Internal,
        },
{
    match token {
        Some(t) => Ok(AuthResponse { token: Some(t), user_id, verification_required: false }),
        None => Err(AuthError::Internal),
    }
}

/// What a request for another verification email leads to.
#[derive(Clone, Copy, Debug, PartialEq, Eq, Structural)]
pub enum ResendDecision {
    /// No user has the email; the request is acknowledged all the same.
    UnknownEmail,
    /// The email is verified already.
    AlreadyVerified,
    /// A new token is sent to this user.
    Send(i32),
}

/// Decides what a request for another verification email leads to. `found`
/// is the identifier of the user with the email and whether the email is
/// verified.
pub fn resend_verification(found: Option<(i32, bool)>) -> (decision: ResendDecision)
    ensures
        decision == (match found {
            None => ResendDecision::UnknownEmail,
            Some((user_id, verified)) => if verified {
                ResendDecision::AlreadyVerified
            } else {
                ResendDecision::Send(user_id)
            },
        }),
{
    match found {
        None => ResendDecision::UnknownEmail,
        Some((user_id, verified)) => if verified {
            ResendDecision::AlreadyVerified
        } else {
            ResendDecision::Send(user_id)
        },
    }
}

/// Checks a verification token at the time `now`. `token_given` says whether
/// the request names a token, `token_valid` whether that is a token at all;
/// `found` is the user of the token and the time until which it is good. The
/// result is the user whose email is verified.
pub fn verify_email(
    token_given: bool,
    token_valid: bool,
    found: Option<(i32, i64)>,
    now: i64,
) -> (user: Result<i32, AuthError>)
    ensures
        match user {
            Ok(id) => token_given && token_valid && (found matches Some((user_id, expires_at))
                && id == user_id && expires_at >= now),
            Err(AuthError::MissingToken) => !token_given,
            Err(AuthError::InvalidToken) => token_given && (!token_valid || found is None),
            Err(AuthError::TokenExpired) => token_given && token_valid && (found matches Some(
                (_, expires_at),
            ) && expires_at < now),
            Err(_) => false,
        },
{
    if !token_given {
        return Err(AuthError::MissingToken);
    }
    if !token_valid {
        return Err(AuthError::InvalidToken);
    }
    match found {
        Some((user_id, expires_at)) => if expires_at < now {
            Err(AuthError::TokenExpired)
        } else {
            Ok(user_id)
        },
        None => Err(AuthError::InvalidToken),
    }
}

/// How the mail server is reached.
#[derive(Clone, Copy, Debug, PartialEq, Eq, Structural)]
pub enum SmtpSecurity {
    Ssl,
    StartTls,
    Unencrypted,
}

/// How the mail server is reached: as the setting says, `ssl` or `none` or
/// anything else for STARTTLS; without a setting, by SSL on port 465 and by
/// STARTTLS on any other port.
pub open spec fn smtp_security_of(setting: Option<Seq<char>>, port: int) -> SmtpSecurity {
    match setting {
        Some(s) => if s == "ssl"@ {
            SmtpSecurity::Ssl
        } else if s == "none"@ {
            SmtpSecurity::Unencrypted
        } else {
            SmtpSecurity::StartTls
        },
        None => if port == 465 {
            SmtpSecurity::Ssl
        } else {
            SmtpSecurity::StartTls
        },
    }
}

/// What is needed to send a verification email.
#[derive(Clone, Debug, PartialEq, Eq)]
pub struct VerificationPlan {
    /// Until when the token is good.
    pub expires_at: i64,
    /// The address that the email asks the user to open.
    pub verify_url: String,
    /// The port of the mail server.
    pub smtp_port: u16,
    /// How the mail server is reached.
    pub smtp_security: SmtpSecurity,
}

/// Plans a verification email at the time `now`: the token is good for 24
/// hours, the address is the application's base, `/verify?token=` and the
/// token; the mail server's port is 587 unless one is set. Nothing is
/// planned where the time leaves its range.
pub fn create_and_send_verification(
    now: i64,
    app_base: &str,
    token: &str,
    smtp_port: Option<u16>,
    smtp_security: Option<&str>,
) -> (plan: Option<VerificationPlan>)
    ensures
        plan is Some <==> now + VERIFICATION_PERIOD <= i64::MAX,
        plan matches Some(p) ==> {
            &&& p.expires_at == now + VERIFICATION_PERIOD
            &&& p.verify_url@ == app_base@ + "/verify?token="@ + token@
            &&& p.smtp_port == (match smtp_port {
                Some(port) => port,
                None => 587u16,
            })
            &&& p.smtp_security == smtp_security_of(opt_str(smtp_security), p.smtp_port as int)
        },
{
    if now > i64::MAX - VERIFICATION_PERIOD {
        return None;
    }
    let mut verify_url = app_base.to_string();
    verify_url.append("/verify?token=");
    verify_url.append(token);
    let port = match smtp_port {
        Some(port) => port,
        None => 587,
    };
    let security = match smtp_security {
        Some(s) => if str_eq(s, "ssl") {
            SmtpSecurity::Ssl
        } else if str_eq(s, "none") {
            SmtpSecurity::Unencrypted
        } else {
            SmtpSecurity::StartTls
        },
        None => if port == 465 {
            SmtpSecurity::Ssl
        } else {
            SmtpSecurity::StartTls
        },
    };
    Some(
        VerificationPlan {
            expires_at: now + VERIFICATION_PERIOD,
            verify_url,
            smtp_port: port,
            smtp_security: security,
        },
    )
}

/// Until when a token issued at `now` is good, both in seconds since the
/// epoch: 30 days. Nothing where the time leaves its range.
pub fn generate_jwt(now: i64) -> (expires_at: Option<i64>)
    ensures
        expires_at == (if now + LOGIN_PERIOD_SECONDS <= i64::MAX {
            Some((now + LOGIN_PERIOD_SECONDS) as i64)
        } else {
            None
        }),
{
    now.checked_add(LOGIN_PERIOD_SECONDS)
}

/// The token that an `Authorization` header carries: what follows `Bearer `,
/// if the header starts with it.
pub open spec fn bearer_of(header: Seq<char>) -> Option<Seq<char>> {
    if header.len() >= 7 && header.subrange(0, 7) == "Bearer "@ {
        Some(header.subrange(7, header.len() as int))
    } else {
        None
    }
}

/// Reads the token that an `Authorization` header carries.
pub fn bearer_token(header: &str) -> (token: Option<String>)
    ensures
        opt_text(token) == bearer_of(header@),
{
    let chars = to_chars(header);
    if chars.len() < 7 {
        return None;
    }
    let prefix = from_chars(&copy_range(&chars, 0, 7));
    if str_eq(prefix.as_str(), "Bearer ") {
        Some(from_chars(&copy_range(&chars, 7, chars.len())))
    } else {
        None
    }
}

} // verus!
