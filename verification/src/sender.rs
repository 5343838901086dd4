//! The sender: owns the API key and the provider's base URL, and builds
//! the per-call request bodies and endpoint URLs.
//!
//! The HTTP exchange itself is the embedding application's part: it POSTs
//! a body built here to the matching endpoint and hands the outcome to
//! `crate::response::interpret_response`.

use vstd::prelude::*;
use crate::message::{Email, Recipient, TemplateVar};
use crate::wire::{push_str, send_envelope_json, send_envelope_json_exec, template_envelope_json,
    template_envelope_json_exec};

verus! {

/// Owns an API key and the fixed base URL; stateless otherwise. The key is
/// held for the sender's lifetime and appears only inside request bodies.
#[derive(Clone)]
pub struct Sender {
    key: String,
    api_url: String,
}

impl Sender {
    /// The stored API key.
    pub closed spec fn spec_key(&self) -> Seq<char> {
        self.key@
    }

    /// The stored base URL.
    pub closed spec fn spec_api_url(&self) -> Seq<char> {
        self.api_url@
    }

    /// Stores the key verbatim and fixes the base URL constant.
    pub fn new(key: String) -> (s: Sender)
        ensures
            s.spec_key() == key@,
            s.spec_api_url() == "https://mandrillapp.com/api/1.0"@,
    {
        Sender { api_url: "https://mandrillapp.com/api/1.0".to_owned(), key }
    }

    /// The direct-send endpoint under the base URL.
    pub fn send_endpoint(&self) -> (r: String)
        ensures
            r@ == self.spec_api_url() + "/messages/send.json"@,
    {
        let mut u = self.api_url.clone();
        push_str(&mut u, "/messages/send.json");
        u
    }

    /// The template-send endpoint under the base URL.
    pub fn send_template_endpoint(&self) -> (r: String)
        ensures
            r@ == self.spec_api_url() + "/messages/send-template.json"@,
    {
        let mut u = self.api_url.clone();
        push_str(&mut u, "/messages/send-template.json");
        u
    }

    /// The direct-send request body: the envelope wrapping the stored key
    /// and the given message.
    pub fn send_request_body(&self, email: &Email) -> (r: String)
        ensures
            r@ == send_envelope_json(self.spec_key(), *email),
    {
        send_envelope_json_exec(self.key.as_str(), email)
    }

    /// The template-send request: builds a message with the one recipient,
    /// the template variables as its merge variables, and the optional
    /// sender address, sender name and subject only where given; then wraps
    /// it, the template's name and the same variables (duplicated at the
    /// envelope's top level, as the provider expects) with the stored key.
    /// Returns the message beside its envelope's JSON text.
    pub fn template_envelope(
        &self,
        template_slug: &str,
        to: &str,
        template_vars: Vec<TemplateVar>,
        from_email: Option<String>,
        from_name: Option<String>,
        subject: Option<String>,
    ) -> (r: (Email, String))
        ensures
            r.0.html is None,
            r.0.text is None,
            r.0.subject == subject,
            r.0.from_email == from_email,
            r.0.from_name == from_name,
            r.0.to matches Some(rs) && rs@.len() == 1 && rs@[0].email@ == to@ && rs@[0].name
                is None,
            r.0.important == false,
            r.0.bcc_address is None,
            r.0.tags is None,
            r.0.global_merge_vars matches Some(v) && v@ == template_vars@,
            r.0.google_analytics_domains is None,
            r.0.google_analytics_campaign is None,
            r.0.attachments is None,
            r.1@ == template_envelope_json(
                self.spec_key(),
                template_slug@,
                template_vars@,
                r.0,
            ),
    {
        let mut email = Email::default();
        let mut rs: Vec<Recipient> = Vec::new();
        rs.push(Recipient { email: to.to_owned(), name: None });
        email.to = Some(rs);
        email.global_merge_vars = Some(clone_template_vars(&template_vars));
        if let Some(f_email) = from_email {
            email.from_email = Some(f_email);
        }
        if let Some(f_name) = from_name {
            email.from_name = Some(f_name);
        }
        if let Some(subj) = subject {
            email.subject = Some(subj);
        }
        let body = template_envelope_json_exec(
            self.key.as_str(),
            template_slug,
            &template_vars,
            &email,
        );
        (email, body)
    }
}

/// An element-for-element copy of a template-variable list.
fn clone_template_vars(v: &Vec<TemplateVar>) -> (r: Vec<TemplateVar>)
    ensures
        r@ == v@,
{
    let mut out: Vec<TemplateVar> = Vec::new();
    let mut i: usize = 0;
    while i < v.len()
        invariant
            i <= v@.len(),
            out@ == v@.subrange(0, i as int),
        decreases v@.len() - i,
    {
        out.push(TemplateVar { name: v[i].name.clone(), content: v[i].content.clone() });
        proof {
            assert(out@ =~= v@.subrange(0, i as int + 1));
        }
        i = i + 1;
    }
    proof {
        assert(v@.subrange(0, v@.len() as int) =~= v@);
    }
    out
}

} // verus!
