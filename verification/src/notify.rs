//! Outbound notification: message rendering is verified here; delivery is
//! an external collaborator behind the `TEmail` trait. A delivery failure
//! is never allowed to fail the operation that asked for it.

use vstd::prelude::*;
use vstd::string::StringExecFns;
use crate::user::User;

verus! {

/// The outbound email collaborator. Nothing is promised of delivery.
pub trait TEmail {
    fn send(&self, to: Vec<&str>, subject: String, html: String) -> Result<(), String>;
}

/// A mailer that delivers nowhere and always reports success; the stand-in
/// collaborator for tests and offline runs.
pub struct NullMailer;

impl TEmail for NullMailer {
    fn send(&self, to: Vec<&str>, subject: String, html: String) -> Result<(), String> {
        Ok(())
    }
}

/// Events of the auth flows: each renders a message around a link that
/// embeds the freshly issued token, and hands it to the mailer.
pub struct AuthEvents<M: TEmail> {
    client_url: String,
    email: M,
}

impl<M: TEmail> AuthEvents<M> {
    /// The base URL links are built on, as contracts speak of it.
    pub closed spec fn spec_client_url(&self) -> Seq<char> {
        self.client_url@
    }

    pub fn new(client_url: String, email: M) -> (r: AuthEvents<M>)
        ensures
            r.spec_client_url() == client_url@,
    {
        AuthEvents { client_url, email }
    }

    /// The link an email-confirmation message points at.
    pub fn confirmation_url(&self, code: &str) -> (r: String)
        ensures
            r@ == self.spec_client_url() + "/auth/confirmation-email?token="@ + code@,
    {
        let mut s = self.client_url.clone();
        s.append("/auth/confirmation-email?token=");
        s.append(code);
        s
    }

    /// The link a password-reset message points at.
    pub fn reset_url(&self, code: &str) -> (r: String)
        ensures
            r@ == self.spec_client_url() + "/auth/reset-password?token="@ + code@,
    {
        let mut s = self.client_url.clone();
        s.append("/auth/reset-password?token=");
        s.append(code);
        s
    }

    /// Tells the administrators about a fresh signup, best-effort: a
    /// delivery failure is swallowed, the signup is already committed.
    pub fn on_create_user(&self, email: &str, admins: Vec<&str>) -> (r: Result<(), String>)
        ensures
            r is Ok,
    {
        if admins.len() > 0 {
            let mut html = "<div><p>A new user signed up with the address </p><p>".to_owned();
            html.append(email);
            html.append("</p></div>");
            let _res = self.email.send(admins, "New Signup".to_owned(), html);
        }
        Ok(())
    }

    /// Tells the user their address is now verified, best-effort: a
    /// delivery failure is swallowed, the flag is already committed.
    pub fn on_email_verified(&self, user: &User) -> (r: Result<(), String>)
        ensures
            r is Ok,
    {
        let html = "<div><p>Your email address has been verified.</p></div>".to_owned();
        let _res = self.email.send(vec![user.email.as_str()], "Email Verified".to_owned(), html);
        Ok(())
    }

    /// Sends the confirmation link for a fresh verification token.
    /// Delivery failures are swallowed: the token is already durable.
    pub fn on_send_email_verify(&self, email: &str, code: &str) -> (r: Result<(), String>)
        ensures
            r is Ok,
    {
        let url = self.confirmation_url(code);
        let mut html =
            "<div><p>Thank you for signing up! Please click below to confirm your email.</p><a href=".to_owned();
        html.append(url.as_str());
        html.append(">Click here to confirm your email address</a></div>");
        let _res = self.email.send(vec![email], "Email Confirmation".to_owned(), html);
        Ok(())
    }

    /// Sends the reset link for a fresh password-reset token. Delivery
    /// failures are swallowed: the token is already durable.
    pub fn on_forgot_password(&self, email: &str, code: &str) -> (r: Result<(), String>)
        ensures
            r is Ok,
    {
        let url = self.reset_url(code);
        let mut html = "<div><h1>Forgot Password</h1><a href=".to_owned();
        html.append(url.as_str());
        html.append(">Reset</a></div>");
        let _res = self.email.send(vec![email], "Reset Password".to_owned(), html);
        Ok(())
    }
}

/// The same event surface under the name the service layer historically
/// used; messages differ only in wording.
pub struct Notifier<M: TEmail> {
    client_url: String,
    email: M,
}

impl<M: TEmail> Notifier<M> {
    /// The base URL links are built on, as contracts speak of it.
    pub closed spec fn spec_client_url(&self) -> Seq<char> {
        self.client_url@
    }

    pub fn new(client_url: String, email: M) -> (r: Notifier<M>)
        ensures
            r.spec_client_url() == client_url@,
    {
        Notifier { client_url, email }
    }

    /// Tells the administrators about a fresh signup, best-effort.
    pub fn on_create_user(&self, email: &str, admins: Vec<&str>) -> (r: Result<(), String>)
        ensures
            r is Ok,
    {
        if admins.len() > 0 {
            let mut html = "<div><p>A new user signed up with the address </p><p>".to_owned();
            html.append(email);
            html.append("</p></div>");
            let _res = self.email.send(admins, "New Signup".to_owned(), html);
        }
        Ok(())
    }

    /// Tells the user their address is now verified, best-effort.
    pub fn on_email_verified(&self, user: &User) -> (r: Result<(), String>)
        ensures
            r is Ok,
    {
        let html = "<div><p>Your email address has been verified.</p></div>".to_owned();
        let _res = self.email.send(vec![user.email.as_str()], "Email Verified".to_owned(), html);
        Ok(())
    }

    pub fn on_send_email_verify(&self, email: &str, code: &str) -> (r: Result<(), String>)
        ensures
            r is Ok,
    {
        let mut url = self.client_url.clone();
        url.append("/auth/confirmation-email?token=");
        url.append(code);
        let mut html = "<div><h1>Verify your email address</h1><a href=".to_owned();
        html.append(url.as_str());
        html.append(">Verify</a></div>");
        let _res = self.email.send(vec![email], "Verify Email".to_owned(), html);
        Ok(())
    }

    pub fn on_forgot_password(&self, email: &str, code: &str) -> (r: Result<(), String>)
        ensures
            r is Ok,
    {
        let mut url = self.client_url.clone();
        url.append("/auth/reset-password?token=");
        url.append(code);
        let mut html = "<div><h1>Forgot Password</h1><a href=".to_owned();
        html.append(url.as_str());
        html.append(">Reset</a></div>");
        let _res = self.email.send(vec![email], "Reset Password".to_owned(), html);
        Ok(())
    }
}

} // verus!
