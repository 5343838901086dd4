use mandrill_client::{Email, Sender, TemplateVar};

#[test]
fn new_simple_message_fields() {
    let m = Email::new("from@example.com", "a@b.com", "Hi", "<p>Hi</p>");
    assert_eq!(m.from_email.as_deref(), Some("from@example.com"));
    assert_eq!(m.html.as_deref(), Some("<p>Hi</p>"));
    assert_eq!(m.subject.as_deref(), Some("Hi"));
    let to = m.to.as_ref().expect("one recipient expected");
    assert_eq!(to.len(), 1);
    assert_eq!(to[0].email, "a@b.com");
    assert!(to[0].name.is_none());
    assert!(m.text.is_none());
    assert!(m.from_name.is_none());
    assert!(!m.important);
    assert!(m.bcc_address.is_none());
    assert!(m.tags.is_none());
    assert!(m.global_merge_vars.is_none());
    assert!(m.google_analytics_domains.is_none());
    assert!(m.google_analytics_campaign.is_none());
    assert!(m.attachments.is_none());
}

#[test]
fn default_message_is_all_absent() {
    let m = Email::default();
    assert!(m.html.is_none());
    assert!(m.text.is_none());
    assert!(m.subject.is_none());
    assert!(m.from_email.is_none());
    assert!(m.from_name.is_none());
    assert!(m.to.is_none());
    assert!(!m.important);
    assert!(m.bcc_address.is_none());
    assert!(m.tags.is_none());
    assert!(m.global_merge_vars.is_none());
    assert!(m.google_analytics_domains.is_none());
    assert!(m.google_analytics_campaign.is_none());
    assert!(m.attachments.is_none());
}

#[test]
fn template_envelope_message_defaults() {
    let sender = Sender::new("k".to_string());
    let vars = vec![
        TemplateVar { name: "a".to_string(), content: "1".to_string() },
        TemplateVar { name: "b".to_string(), content: "2".to_string() },
    ];
    let (m, _body) = sender.template_envelope("slug", "x@y.com", vars, None, None, None);
    let gmv = m.global_merge_vars.as_ref().expect("merge vars expected");
    assert_eq!(gmv.len(), 2);
    assert_eq!(gmv[0].name, "a");
    assert_eq!(gmv[0].content, "1");
    assert_eq!(gmv[1].name, "b");
    assert_eq!(gmv[1].content, "2");
    let to = m.to.as_ref().expect("one recipient expected");
    assert_eq!(to.len(), 1);
    assert_eq!(to[0].email, "x@y.com");
    assert!(to[0].name.is_none());
    assert!(m.from_email.is_none());
    assert!(m.from_name.is_none());
    assert!(m.subject.is_none());
    assert!(m.html.is_none());
    assert!(m.attachments.is_none());
}

#[test]
fn template_envelope_subject_only_override() {
    let sender = Sender::new("k".to_string());
    let (m, _body) = sender.template_envelope(
        "slug",
        "x@y.com",
        Vec::new(),
        None,
        None,
        Some("Welcome".to_string()),
    );
    assert_eq!(m.subject.as_deref(), Some("Welcome"));
    assert!(m.from_email.is_none());
    assert!(m.from_name.is_none());
}

#[test]
fn template_envelope_full_override() {
    let sender = Sender::new("k".to_string());
    let (m, _body) = sender.template_envelope(
        "slug",
        "x@y.com",
        Vec::new(),
        Some("f@g.com".to_string()),
        Some("Fred".to_string()),
        Some("S".to_string()),
    );
    assert_eq!(m.from_email.as_deref(), Some("f@g.com"));
    assert_eq!(m.from_name.as_deref(), Some("Fred"));
    assert_eq!(m.subject.as_deref(), Some("S"));
}

#[test]
fn sender_endpoints() {
    let sender = Sender::new("k".to_string());
    assert_eq!(
        sender.send_endpoint(),
        "https://mandrillapp.com/api/1.0/messages/send.json"
    );
    assert_eq!(
        sender.send_template_endpoint(),
        "https://mandrillapp.com/api/1.0/messages/send-template.json"
    );
}
