//! The message model: value types for an outbound email, its recipients,
//! attachments and template-substitution variables.

use vstd::prelude::*;

verus! {

/// A single recipient: an address and an optional display name.
#[derive(Clone)]
pub struct Recipient {
    pub email: String,
    pub name: Option<String>,
}

/// A file attached to a message. `_type` holds the MIME type; on the wire
/// it is emitted under the JSON key `"type"`, which is a reserved word and
/// so cannot be the field's own name.
#[derive(Clone)]
pub struct Attachment {
    pub _type: String,
    pub name: String,
    pub content: String,
}

/// A name/content pair substituted into a provider-hosted template or into
/// placeholders of a direct message.
#[derive(Clone, Debug)]
pub struct TemplateVar {
    pub name: String,
    pub content: String,
}

/// An outbound email. Every field is optional except `important`, which
/// defaults to false; a default-constructed value has every optional field
/// absent.
#[derive(Clone)]
pub struct Email {
    pub html: Option<String>,
    pub text: Option<String>,
    pub subject: Option<String>,
    pub from_email: Option<String>,
    pub from_name: Option<String>,
    pub to: Option<Vec<Recipient>>,
    pub important: bool,
    pub bcc_address: Option<String>,
    pub tags: Option<Vec<String>>,
    pub global_merge_vars: Option<Vec<TemplateVar>>,
    pub google_analytics_domains: Option<Vec<String>>,
    pub google_analytics_campaign: Option<String>,
    pub attachments: Option<Vec<Attachment>>,
}

/// The value of a default-constructed `Email`: every optional field absent,
/// `important` false.
pub open spec fn default_email() -> Email {
    Email {
        html: None,
        text: None,
        subject: None,
        from_email: None,
        from_name: None,
        to: None,
        important: false,
        bcc_address: None,
        tags: None,
        global_merge_vars: None,
        google_analytics_domains: None,
        google_analytics_campaign: None,
        attachments: None,
    }
}

impl Default for Email {
    fn default() -> (e: Email)
        ensures
            e == default_email(),
    {
        Email {
            html: None,
            text: None,
            subject: None,
            from_email: None,
            from_name: None,
            to: None,
            important: false,
            bcc_address: None,
            tags: None,
            global_merge_vars: None,
            google_analytics_domains: None,
            google_analytics_campaign: None,
            attachments: None,
        }
    }
}

impl Email {
    /// Builds a message with a single recipient (no display name), the
    /// given sender address, subject and HTML body; every other field is
    /// left at its default-absent state.
    pub fn new(from_email: &str, to: &str, subject: &str, message: &str) -> (m: Email)
        ensures
            m.html matches Some(h) && h@ == message@,
            m.text is None,
            m.subject matches Some(s) && s@ == subject@,
            m.from_email matches Some(f) && f@ == from_email@,
            m.from_name is None,
            m.to matches Some(rs) && rs@.len() == 1 && rs@[0].email@ == to@ && rs@[0].name
                is None,
            m.important == false,
            m.bcc_address is None,
            m.tags is None,
            m.global_merge_vars is None,
            m.google_analytics_domains is None,
            m.google_analytics_campaign is None,
            m.attachments is None,
    {
        let mut m = Email::default();
        m.from_email = Some(from_email.to_owned());
        m.html = Some(message.to_owned());
        m.subject = Some(subject.to_owned());
        let mut rs: Vec<Recipient> = Vec::new();
        rs.push(Recipient { email: to.to_owned(), name: None });
        m.to = Some(rs);
        m
    }
}

} // verus!
