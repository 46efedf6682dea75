//! Outbound mail: the SMTP settings the server sends with, and the messages
//! the core hands to it.

use vstd::prelude::*;

verus! {

/// SMTP settings: server, port, and the account that both authenticates
/// and appears as the sender.
pub struct EmailClientConfig {
    pub smtp_server: String,
    pub smtp_port: u16,
    pub username: String,
    pub password: String,
}

/// A message for the email collaborator.
#[derive(Debug, Clone, PartialEq, Eq)]
pub struct Mail {
    pub to: String,
    pub subject: String,
    pub body: String,
}

/// A message ready for SMTP: a mail with its sender.
pub struct Envelope {
    pub from: String,
    pub to: String,
    pub subject: String,
    pub body: String,
}

/// A configured mail client; its settings never change after construction.
pub struct EmailClient {
    config: EmailClientConfig,
}

/// Builds the mail client that every message of this deployment goes
/// through.
pub fn set_email_client_config(config: EmailClientConfig) -> (r: EmailClient)
    ensures
        r.settings() == config,
{
    EmailClient { config }
}

impl EmailClient {
    /// The settings the client was built with.
    pub closed spec fn settings(&self) -> EmailClientConfig {
        self.config
    }

    /// The settings the client was built with.
    pub fn config(&self) -> (r: &EmailClientConfig)
        ensures
            *r == self.settings(),
    {
        &self.config
    }

    /// Addresses `mail` from the SMTP account.
    pub fn envelope(&self, mail: Mail) -> (r: Envelope)
        ensures
            r.from@ == self.settings().username@,
            r.to == mail.to,
            r.subject == mail.subject,
            r.body == mail.body,
    {
        let Mail { to, subject, body } = mail;
        Envelope { from: String::from_str(self.config.username.as_str()), to, subject, body }
    }
}

} // verus!
