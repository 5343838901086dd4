//! The provider's JSON wire format.
//!
//! Spec functions define, character by character, the JSON text of a message
//! and of the two request envelopes; the executable encoders are proved to
//! produce exactly that text. Every message field is emitted, absent optional
//! fields as `null`, in the order the provider documents; an attachment's
//! MIME type is emitted under the JSON key `"type"`.

use vstd::prelude::*;
use vstd::string::StrSliceExecFns;
use crate::message::{Attachment, Email, Recipient, TemplateVar};

verus! {

/// Relies on std's `String::push_str`: appends the characters of `s`.
#[verifier::external_body]
pub(crate) fn push_str(out: &mut String, s: &str)
    ensures
        final(out)@ == old(out)@ + s@,
{
    out.push_str(s);
}

/// Relies on std's `String::push`: appends the one character `c`.
#[verifier::external_body]
fn push_char(out: &mut String, c: char)
    ensures
        final(out)@ == old(out)@.push(c),
{
    out.push(c);
}

/// The lower-case hexadecimal digit of a value below 16.
pub open spec fn hex_digit(n: u32) -> char {
    if n == 0 { '0' }
    else if n == 1 { '1' }
    else if n == 2 { '2' }
    else if n == 3 { '3' }
    else if n == 4 { '4' }
    else if n == 5 { '5' }
    else if n == 6 { '6' }
    else if n == 7 { '7' }
    else if n == 8 { '8' }
    else if n == 9 { '9' }
    else if n == 10 { 'a' }
    else if n == 11 { 'b' }
    else if n == 12 { 'c' }
    else if n == 13 { 'd' }
    else if n == 14 { 'e' }
    else { 'f' }
}

fn hex_digit_exec(n: u32) -> (c: char)
    requires
        n < 16,
    ensures
        c == hex_digit(n),
{
    if n == 0 { '0' }
    else if n == 1 { '1' }
    else if n == 2 { '2' }
    else if n == 3 { '3' }
    else if n == 4 { '4' }
    else if n == 5 { '5' }
    else if n == 6 { '6' }
    else if n == 7 { '7' }
    else if n == 8 { '8' }
    else if n == 9 { '9' }
    else if n == 10 { 'a' }
    else if n == 11 { 'b' }
    else if n == 12 { 'c' }
    else if n == 13 { 'd' }
    else if n == 14 { 'e' }
    else { 'f' }
}

/// How one character appears inside a JSON string literal: quote and
/// backslash get a backslash escape, the named control characters their
/// short escapes, every other control character (and delete) a `\u00--`
/// escape, and all else stands as itself.
pub open spec fn escape_char(c: char) -> Seq<char> {
    if c == '"' { "\\\""@ }
    else if c == '\\' { "\\\\"@ }
    else if c == '\u{8}' { "\\b"@ }
    else if c == '\t' { "\\t"@ }
    else if c == '\n' { "\\n"@ }
    else if c == '\u{c}' { "\\f"@ }
    else if c == '\r' { "\\r"@ }
    else if (c as u32) < 32 || (c as u32) == 127 {
        "\\u00"@.push(hex_digit((c as u32) / 16)).push(hex_digit((c as u32) % 16))
    }
    else { seq![c] }
}

/// The body of a JSON string literal: each character escaped in turn.
pub open spec fn escape_seq(s: Seq<char>) -> Seq<char>
    decreases s.len(),
{
    if s.len() == 0 {
        Seq::empty()
    } else {
        escape_char(s[0]) + escape_seq(s.drop_first())
    }
}

/// A JSON string literal: the escaped characters between double quotes.
pub open spec fn json_string(s: Seq<char>) -> Seq<char> {
    "\""@ + escape_seq(s) + "\""@
}

proof fn lemma_escape_snoc(s: Seq<char>, c: char)
    ensures
        escape_seq(s.push(c)) == escape_seq(s) + escape_char(c),
    decreases s.len(),
{
    if s.len() == 0 {
        assert(s.push(c)[0] == c);
        assert(s.push(c).drop_first() =~= Seq::<char>::empty());
        assert(escape_seq(s.push(c)) == escape_char(c) + escape_seq(Seq::<char>::empty()));
        assert(escape_char(c) + Seq::<char>::empty() =~= Seq::<char>::empty() + escape_char(c));
    } else {
        assert(s.push(c).drop_first() =~= s.drop_first().push(c));
        lemma_escape_snoc(s.drop_first(), c);
        assert(s.push(c)[0] == s[0]);
        assert(escape_char(s[0]) + (escape_seq(s.drop_first()) + escape_char(c)) =~= (
        escape_char(s[0]) + escape_seq(s.drop_first())) + escape_char(c));
    }
}

/// Appends the escaped characters of `s`.
fn push_escaped(out: &mut String, s: &str)
    ensures
        final(out)@ == old(out)@ + escape_seq(s@),
{
    let n = s.unicode_len();
    let ghost start = out@;
    let mut i: usize = 0;
    while i < n
        invariant
            i <= n,
            n == s@.len(),
            out@ == start + escape_seq(s@.subrange(0, i as int)),
        decreases n - i,
    {
        let c = s.get_char(i);
        proof {
            lemma_escape_snoc(s@.subrange(0, i as int), c);
            assert(s@.subrange(0, i as int).push(c) =~= s@.subrange(0, i as int + 1));
        }
        if c == '"' {
            push_str(out, "\\\"");
        } else if c == '\\' {
            push_str(out, "\\\\");
        } else if c == '\u{8}' {
            push_str(out, "\\b");
        } else if c == '\t' {
            push_str(out, "\\t");
        } else if c == '\n' {
            push_str(out, "\\n");
        } else if c == '\u{c}' {
            push_str(out, "\\f");
        } else if c == '\r' {
            push_str(out, "\\r");
        } else if (c as u32) < 32 || (c as u32) == 127 {
            push_str(out, "\\u00");
            push_char(out, hex_digit_exec((c as u32) / 16));
            push_char(out, hex_digit_exec((c as u32) % 16));
        } else {
            push_char(out, c);
        }
        assert(out@ =~= start + escape_seq(s@.subrange(0, i as int + 1)));
        i = i + 1;
    }
    proof {
        assert(s@.subrange(0, n as int) =~= s@);
    }
}

/// The JSON string literal for `s`, exactly as `json_string` states it.
pub fn json_string_exec(s: &str) -> (r: String)
    ensures
        r@ == json_string(s@),
{
    let mut out = "\"".to_owned();
    push_escaped(&mut out, s);
    push_str(&mut out, "\"");
    out
}

/// An optional string: `null` when absent, a JSON string literal when present.
pub open spec fn opt_string_json(o: Option<String>) -> Seq<char> {
    match o {
        None => "null"@,
        Some(s) => json_string(s@),
    }
}

fn push_opt_string(out: &mut String, o: &Option<String>)
    ensures
        final(out)@ == old(out)@ + opt_string_json(*o),
{
    match o {
        None => push_str(out, "null"),
        Some(s) => {
            let piece = json_string_exec(s.as_str());
            push_str(out, piece.as_str());
        },
    }
}

/// A JSON boolean.
pub open spec fn bool_json(b: bool) -> Seq<char> {
    if b { "true"@ } else { "false"@ }
}

/// The pieces of a JSON array body, joined by commas.
pub open spec fn join_comma(pieces: Seq<Seq<char>>) -> Seq<char>
    decreases pieces.len(),
{
    if pieces.len() == 0 {
        Seq::empty()
    } else if pieces.len() == 1 {
        pieces[0]
    } else {
        join_comma(pieces.drop_last()) + ","@ + pieces.last()
    }
}

proof fn lemma_join_snoc(pieces: Seq<Seq<char>>, x: Seq<char>)
    ensures
        pieces.len() == 0 ==> join_comma(pieces.push(x)) == x,
        pieces.len() > 0 ==> join_comma(pieces.push(x)) == join_comma(pieces) + ","@ + x,
{
    assert(pieces.push(x).drop_last() =~= pieces);
    assert(pieces.push(x).last() == x);
    if pieces.len() == 0 {
        assert(join_comma(pieces.push(x)) == pieces.push(x)[0]);
    }
}

/// A recipient on the wire: its address, then its optional display name.
pub open spec fn recipient_json(r: Recipient) -> Seq<char> {
    "{\"email\":"@ + json_string(r.email@) + ",\"name\":"@ + opt_string_json(r.name) + "}"@
}

/// A template variable on the wire: its name, then its content.
pub open spec fn template_var_json(v: TemplateVar) -> Seq<char> {
    "{\"name\":"@ + json_string(v.name@) + ",\"content\":"@ + json_string(v.content@) + "}"@
}

/// An attachment on the wire. Its MIME type is emitted under the JSON key
/// `"type"`, the name the provider documents.
pub open spec fn attachment_json(a: Attachment) -> Seq<char> {
    "{\"type\":"@ + json_string(a._type@) + ",\"name\":"@ + json_string(a.name@)
        + ",\"content\":"@ + json_string(a.content@) + "}"@
}

pub open spec fn recipients_json(rs: Seq<Recipient>) -> Seq<char> {
    "["@ + join_comma(rs.map_values(|r: Recipient| recipient_json(r))) + "]"@
}

pub open spec fn strings_json(ss: Seq<String>) -> Seq<char> {
    "["@ + join_comma(ss.map_values(|s: String| json_string(s@))) + "]"@
}

pub open spec fn template_vars_json(vs: Seq<TemplateVar>) -> Seq<char> {
    "["@ + join_comma(vs.map_values(|v: TemplateVar| template_var_json(v))) + "]"@
}

pub open spec fn attachments_json(ats: Seq<Attachment>) -> Seq<char> {
    "["@ + join_comma(ats.map_values(|a: Attachment| attachment_json(a))) + "]"@
}

pub fn recipient_json_exec(r: &Recipient) -> (out: String)
    ensures
        out@ == recipient_json(*r),
{
    let mut out = "{\"email\":".to_owned();
    let piece = json_string_exec(r.email.as_str());
    push_str(&mut out, piece.as_str());
    push_str(&mut out, ",\"name\":");
    push_opt_string(&mut out, &r.name);
    push_str(&mut out, "}");
    out
}

pub fn template_var_json_exec(v: &TemplateVar) -> (out: String)
    ensures
        out@ == template_var_json(*v),
{
    let mut out = "{\"name\":".to_owned();
    let piece = json_string_exec(v.name.as_str());
    push_str(&mut out, piece.as_str());
    push_str(&mut out, ",\"content\":");
    let piece2 = json_string_exec(v.content.as_str());
    push_str(&mut out, piece2.as_str());
    push_str(&mut out, "}");
    out
}

pub fn attachment_json_exec(a: &Attachment) -> (out: String)
    ensures
        out@ == attachment_json(*a),
{
    let mut out = "{\"type\":".to_owned();
    let piece = json_string_exec(a._type.as_str());
    push_str(&mut out, piece.as_str());
    push_str(&mut out, ",\"name\":");
    let piece2 = json_string_exec(a.name.as_str());
    push_str(&mut out, piece2.as_str());
    push_str(&mut out, ",\"content\":");
    let piece3 = json_string_exec(a.content.as_str());
    push_str(&mut out, piece3.as_str());
    push_str(&mut out, "}");
    out
}

fn push_recipients(out: &mut String, v: &Vec<Recipient>)
    ensures
        final(out)@ == old(out)@ + recipients_json(v@),
{
    let ghost f = (|r: Recipient| recipient_json(r));
    let ghost start = out@;
    push_str(out, "[");
    let mut i: usize = 0;
    while i < v.len()
        invariant
            i <= v@.len(),
            out@ == start + "["@ + join_comma(v@.subrange(0, i as int).map_values(f)),
            f == (|r: Recipient| recipient_json(r)),
        decreases v@.len() - i,
    {
        if i > 0 {
            push_str(out, ",");
        }
        let piece = recipient_json_exec(&v[i]);
        push_str(out, piece.as_str());
        proof {
            let m_i = v@.subrange(0, i as int).map_values(f);
            let m_i1 = v@.subrange(0, i as int + 1).map_values(f);
            assert(m_i1 =~= m_i.push(f(v@[i as int])));
            lemma_join_snoc(m_i, f(v@[i as int]));
            assert(f(v@[i as int]) == recipient_json(v@[i as int]));
            assert(out@ =~= start + "["@ + join_comma(m_i1));
        }
        i = i + 1;
    }
    push_str(out, "]");
    proof {
        assert(v@.subrange(0, v@.len() as int) =~= v@);
    }
}

fn push_strings(out: &mut String, v: &Vec<String>)
    ensures
        final(out)@ == old(out)@ + strings_json(v@),
{
    let ghost f = (|s: String| json_string(s@));
    let ghost start = out@;
    push_str(out, "[");
    let mut i: usize = 0;
    while i < v.len()
        invariant
            i <= v@.len(),
            out@ == start + "["@ + join_comma(v@.subrange(0, i as int).map_values(f)),
            f == (|s: String| json_string(s@)),
        decreases v@.len() - i,
    {
        if i > 0 {
            push_str(out, ",");
        }
        let piece = json_string_exec(v[i].as_str());
        push_str(out, piece.as_str());
        proof {
            let m_i = v@.subrange(0, i as int).map_values(f);
            let m_i1 = v@.subrange(0, i as int + 1).map_values(f);
            assert(m_i1 =~= m_i.push(f(v@[i as int])));
            lemma_join_snoc(m_i, f(v@[i as int]));
            assert(f(v@[i as int]) == json_string(v@[i as int]@));
            assert(out@ =~= start + "["@ + join_comma(m_i1));
        }
        i = i + 1;
    }
    push_str(out, "]");
    proof {
        assert(v@.subrange(0, v@.len() as int) =~= v@);
    }
}

fn push_template_vars(out: &mut String, v: &Vec<TemplateVar>)
    ensures
        final(out)@ == old(out)@ + template_vars_json(v@),
{
    let ghost f = (|x: TemplateVar| template_var_json(x));
    let ghost start = out@;
    push_str(out, "[");
    let mut i: usize = 0;
    while i < v.len()
        invariant
            i <= v@.len(),
            out@ == start + "["@ + join_comma(v@.subrange(0, i as int).map_values(f)),
            f == (|x: TemplateVar| template_var_json(x)),
        decreases v@.len() - i,
    {
        if i > 0 {
            push_str(out, ",");
        }
        let piece = template_var_json_exec(&v[i]);
        push_str(out, piece.as_str());
        proof {
            let m_i = v@.subrange(0, i as int).map_values(f);
            let m_i1 = v@.subrange(0, i as int + 1).map_values(f);
            assert(m_i1 =~= m_i.push(f(v@[i as int])));
            lemma_join_snoc(m_i, f(v@[i as int]));
            assert(f(v@[i as int]) == template_var_json(v@[i as int]));
            assert(out@ =~= start + "["@ + join_comma(m_i1));
        }
        i = i + 1;
    }
    push_str(out, "]");
    proof {
        assert(v@.subrange(0, v@.len() as int) =~= v@);
    }
}

fn push_attachments(out: &mut String, v: &Vec<Attachment>)
    ensures
        final(out)@ == old(out)@ + attachments_json(v@),
{
    let ghost f = (|a: Attachment| attachment_json(a));
    let ghost start = out@;
    push_str(out, "[");
    let mut i: usize = 0;
    while i < v.len()
        invariant
            i <= v@.len(),
            out@ == start + "["@ + join_comma(v@.subrange(0, i as int).map_values(f)),
            f == (|a: Attachment| attachment_json(a)),
        decreases v@.len() - i,
    {
        if i > 0 {
            push_str(out, ",");
        }
        let piece = attachment_json_exec(&v[i]);
        push_str(out, piece.as_str());
        proof {
            let m_i = v@.subrange(0, i as int).map_values(f);
            let m_i1 = v@.subrange(0, i as int + 1).map_values(f);
            assert(m_i1 =~= m_i.push(f(v@[i as int])));
            lemma_join_snoc(m_i, f(v@[i as int]));
            assert(f(v@[i as int]) == attachment_json(v@[i as int]));
            assert(out@ =~= start + "["@ + join_comma(m_i1));
        }
        i = i + 1;
    }
    push_str(out, "]");
    proof {
        assert(v@.subrange(0, v@.len() as int) =~= v@);
    }
}

pub open spec fn opt_recipients_json(o: Option<Vec<Recipient>>) -> Seq<char> {
    match o {
        None => "null"@,
        Some(v) => recipients_json(v@),
    }
}

pub open spec fn opt_strings_json(o: Option<Vec<String>>) -> Seq<char> {
    match o {
        None => "null"@,
        Some(v) => strings_json(v@),
    }
}

pub open spec fn opt_template_vars_json(o: Option<Vec<TemplateVar>>) -> Seq<char> {
    match o {
        None => "null"@,
        Some(v) => template_vars_json(v@),
    }
}

pub open spec fn opt_attachments_json(o: Option<Vec<Attachment>>) -> Seq<char> {
    match o {
        None => "null"@,
        Some(v) => attachments_json(v@),
    }
}

fn push_opt_recipients(out: &mut String, o: &Option<Vec<Recipient>>)
    ensures
        final(out)@ == old(out)@ + opt_recipients_json(*o),
{
    match o {
        None => push_str(out, "null"),
        Some(v) => push_recipients(out, v),
    }
}

fn push_opt_strings(out: &mut String, o: &Option<Vec<String>>)
    ensures
        final(out)@ == old(out)@ + opt_strings_json(*o),
{
    match o {
        None => push_str(out, "null"),
        Some(v) => push_strings(out, v),
    }
}

fn push_opt_template_vars(out: &mut String, o: &Option<Vec<TemplateVar>>)
    ensures
        final(out)@ == old(out)@ + opt_template_vars_json(*o),
{
    match o {
        None => push_str(out, "null"),
        Some(v) => push_template_vars(out, v),
    }
}

fn push_opt_attachments(out: &mut String, o: &Option<Vec<Attachment>>)
    ensures
        final(out)@ == old(out)@ + opt_attachments_json(*o),
{
    match o {
        None => push_str(out, "null"),
        Some(v) => push_attachments(out, v),
    }
}

/// A whole message on the wire: every field, in the provider's documented
/// order, absent optional fields as `null`.
pub open spec fn email_json(e: Email) -> Seq<char> {
    "{\"html\":"@ + opt_string_json(e.html) + ",\"text\":"@ + opt_string_json(e.text)
        + ",\"subject\":"@ + opt_string_json(e.subject) + ",\"from_email\":"@
        + opt_string_json(e.from_email) + ",\"from_name\":"@ + opt_string_json(e.from_name)
        + ",\"to\":"@ + opt_recipients_json(e.to) + ",\"important\":"@ + bool_json(e.important)
        + ",\"bcc_address\":"@ + opt_string_json(e.bcc_address) + ",\"tags\":"@
        + opt_strings_json(e.tags) + ",\"global_merge_vars\":"@ + opt_template_vars_json(
        e.global_merge_vars,
    ) + ",\"google_analytics_domains\":"@ + opt_strings_json(e.google_analytics_domains)
        + ",\"google_analytics_campaign\":"@ + opt_string_json(e.google_analytics_campaign)
        + ",\"attachments\":"@ + opt_attachments_json(e.attachments) + "}"@
}

/// The JSON text of a message, exactly as `email_json` states it.
pub fn email_json_exec(e: &Email) -> (out: String)
    ensures
        out@ == email_json(*e),
{
    let mut out = "{\"html\":".to_owned();
    push_opt_string(&mut out, &e.html);
    push_str(&mut out, ",\"text\":");
    push_opt_string(&mut out, &e.text);
    push_str(&mut out, ",\"subject\":");
    push_opt_string(&mut out, &e.subject);
    push_str(&mut out, ",\"from_email\":");
    push_opt_string(&mut out, &e.from_email);
    push_str(&mut out, ",\"from_name\":");
    push_opt_string(&mut out, &e.from_name);
    push_str(&mut out, ",\"to\":");
    push_opt_recipients(&mut out, &e.to);
    push_str(&mut out, ",\"important\":");
    if e.important {
        push_str(&mut out, "true");
    } else {
        push_str(&mut out, "false");
    }
    push_str(&mut out, ",\"bcc_address\":");
    push_opt_string(&mut out, &e.bcc_address);
    push_str(&mut out, ",\"tags\":");
    push_opt_strings(&mut out, &e.tags);
    push_str(&mut out, ",\"global_merge_vars\":");
    push_opt_template_vars(&mut out, &e.global_merge_vars);
    push_str(&mut out, ",\"google_analytics_domains\":");
    push_opt_strings(&mut out, &e.google_analytics_domains);
    push_str(&mut out, ",\"google_analytics_campaign\":");
    push_opt_string(&mut out, &e.google_analytics_campaign);
    push_str(&mut out, ",\"attachments\":");
    push_opt_attachments(&mut out, &e.attachments);
    push_str(&mut out, "}");
    out
}

/// The direct-send envelope: the API key and the message.
pub open spec fn send_envelope_json(key: Seq<char>, e: Email) -> Seq<char> {
    "{\"key\":"@ + json_string(key) + ",\"message\":"@ + email_json(e) + "}"@
}

/// The template-send envelope: the API key, the template's name, the
/// template variables, and the message.
pub open spec fn template_envelope_json(
    key: Seq<char>,
    template_name: Seq<char>,
    template_content: Seq<TemplateVar>,
    e: Email,
) -> Seq<char> {
    "{\"key\":"@ + json_string(key) + ",\"template_name\":"@ + json_string(template_name)
        + ",\"template_content\":"@ + template_vars_json(template_content) + ",\"message\":"@
        + email_json(e) + "}"@
}

/// The JSON text of a direct-send envelope.
pub fn send_envelope_json_exec(key: &str, e: &Email) -> (out: String)
    ensures
        out@ == send_envelope_json(key@, *e),
{
    let mut out = "{\"key\":".to_owned();
    let piece = json_string_exec(key);
    push_str(&mut out, piece.as_str());
    push_str(&mut out, ",\"message\":");
    let body = email_json_exec(e);
    push_str(&mut out, body.as_str());
    push_str(&mut out, "}");
    out
}

/// The JSON text of a template-send envelope.
pub fn template_envelope_json_exec(
    key: &str,
    template_name: &str,
    template_content: &Vec<TemplateVar>,
    e: &Email,
) -> (out: String)
    ensures
        out@ == template_envelope_json(key@, template_name@, template_content@, *e),
{
    let mut out = "{\"key\":".to_owned();
    let piece = json_string_exec(key);
    push_str(&mut out, piece.as_str());
    push_str(&mut out, ",\"template_name\":");
    let piece2 = json_string_exec(template_name);
    push_str(&mut out, piece2.as_str());
    push_str(&mut out, ",\"template_content\":");
    push_template_vars(&mut out, template_content);
    push_str(&mut out, ",\"message\":");
    let body = email_json_exec(e);
    push_str(&mut out, body.as_str());
    push_str(&mut out, "}");
    out
}

/// The attachment's MIME-type key on the wire is the literal `type`: the
/// JSON of every attachment begins with `{"type":` followed by nothing
/// but the quoted MIME type itself.
pub proof fn lemma_attachment_key_is_type(a: Attachment)
    ensures
        attachment_json(a).subrange(0, 8) == "{\"type\":"@,
        attachment_json(a).subrange(8, 8 + json_string(a._type@).len() as int) == json_string(
            a._type@,
        ),
{
    reveal_strlit("{\"type\":");
    assert(attachment_json(a).subrange(0, 8) =~= "{\"type\":"@);
    assert(attachment_json(a).subrange(8, 8 + json_string(a._type@).len() as int) =~= json_string(
        a._type@,
    ));
}

} // verus!

