//! The contact form: its fields, the submission protocol, and the JSON
//! wire format of the POST body.
//!
//! The library decides; the surrounding application transports. A
//! submit request either yields the exact bytes to POST, or is refused
//! (missing CAPTCHA token, or a submission already in flight) with no
//! network action. The transport's outcome is fed back in as a plain
//! value and resolves the form to a success or failure message.

use vstd::prelude::*;
use vstd::string::StringExecFns;
use vstd::utf8::encode_utf8;
use crate::text::{contains_sub, fmt_u16, spec_contains, spec_dec};

verus! {

/// The four text fields the form collects.
pub struct ContactFields {
    pub name: String,
    pub email: String,
    pub subject: String,
    pub message: String,
}

/// The inline message the form shows, if any.
pub enum StatusMessage {
    /// The CAPTCHA token was missing at submit time.
    CaptchaRequired,
    /// The submission went through.
    Sent,
    /// The submission failed; the text explains how.
    Failed(String),
}

/// What a submit request decides: ignore it (one is already in flight),
/// block it (no CAPTCHA token, no network call), or POST these bytes.
pub enum SubmitAction {
    Ignored,
    Blocked,
    Post(Vec<u8>),
}

/// How the transport ended: an HTTP response with its status and body
/// text, or no response at all.
pub enum SubmitOutcome {
    Http { status: u16, body: String },
    Network { message: String },
}

/// The JSON escape of one byte of UTF-8 text: quote and backslash get a
/// backslash escape, the named control characters their short form,
/// other control bytes a `\u00..` form, and everything else (multi-byte
/// sequences included) passes through unchanged.
pub open spec fn spec_escape_byte(b: u8) -> Seq<u8> {
    if b == 0x22 {
        seq![0x5c, 0x22]
    } else if b == 0x5c {
        seq![0x5c, 0x5c]
    } else if b == 0x08 {
        seq![0x5c, 0x62]
    } else if b == 0x09 {
        seq![0x5c, 0x74]
    } else if b == 0x0a {
        seq![0x5c, 0x6e]
    } else if b == 0x0c {
        seq![0x5c, 0x66]
    } else if b == 0x0d {
        seq![0x5c, 0x72]
    } else if b < 0x20 {
        seq![0x5c, 0x75, 0x30, 0x30, spec_hex_digit(b as int / 16), spec_hex_digit(b as int % 16)]
    } else {
        seq![b]
    }
}

/// The lowercase hexadecimal digit for a value below sixteen.
pub open spec fn spec_hex_digit(d: int) -> u8 {
    if d < 10 {
        (0x30 + d) as u8
    } else {
        (0x57 + d) as u8
    }
}

/// The JSON escape of a whole byte string.
pub open spec fn spec_escaped(s: Seq<u8>) -> Seq<u8>
    decreases s.len(),
{
    if s.len() == 0 {
        seq![]
    } else {
        spec_escape_byte(s[0]) + spec_escaped(s.drop_first())
    }
}

/// Appending a byte escapes it after the rest.
proof fn lemma_escaped_snoc(s: Seq<u8>, b: u8)
    ensures
        spec_escaped(s.push(b)) == spec_escaped(s) + spec_escape_byte(b),
    decreases s.len(),
{
    let t = s.push(b);
    if s.len() == 0 {
        assert(t[0] == b);
        assert(t.drop_first() =~= Seq::<u8>::empty());
        assert(spec_escaped(t) == spec_escape_byte(b) + spec_escaped(Seq::<u8>::empty()));
        assert(spec_escape_byte(b) + Seq::<u8>::empty() =~= spec_escape_byte(b));
        assert(spec_escaped(s) + spec_escape_byte(b) =~= spec_escape_byte(b));
    } else {
        assert(t[0] == s[0]);
        assert(t.drop_first() =~= s.drop_first().push(b));
        lemma_escaped_snoc(s.drop_first(), b);
        assert(spec_escaped(t) == spec_escape_byte(s[0]) + (spec_escaped(s.drop_first())
            + spec_escape_byte(b)));
        assert(spec_escape_byte(s[0]) + (spec_escaped(s.drop_first()) + spec_escape_byte(b)) =~= (
        spec_escape_byte(s[0]) + spec_escaped(s.drop_first())) + spec_escape_byte(b));
    }
}

/// The POST body for a submission: a JSON object of the four fields and
/// the CAPTCHA token, in this fixed order, each value JSON-escaped.
pub open spec fn spec_payload(
    name: Seq<char>,
    email: Seq<char>,
    subject: Seq<char>,
    message: Seq<char>,
    token: Seq<char>,
) -> Seq<u8> {
    encode_utf8("{\"name\":\""@) + spec_escaped(encode_utf8(name)) + encode_utf8(
        "\",\"email\":\""@,
    ) + spec_escaped(encode_utf8(email)) + encode_utf8("\",\"subject\":\""@) + spec_escaped(
        encode_utf8(subject),
    ) + encode_utf8("\",\"message\":\""@) + spec_escaped(encode_utf8(message)) + encode_utf8(
        "\",\"g-recaptcha-response\":\""@,
    ) + spec_escaped(encode_utf8(token)) + encode_utf8("\"}"@)
}

/// Appends a byte slice unchanged.
fn push_bytes(out: &mut Vec<u8>, s: &[u8])
    ensures
        final(out)@ == old(out)@ + s@,
{
    let mut i: usize = 0;
    while i < s.len()
        invariant
            i <= s@.len(),
            out@ == old(out)@ + s@.take(i as int),
        decreases s@.len() - i,
    {
        out.push(s[i]);
        proof {
            assert(s@.take(i + 1) =~= s@.take(i as int).push(s@[i as int]));
            assert(old(out)@ + s@.take(i + 1) =~= (old(out)@ + s@.take(i as int)).push(
                s@[i as int],
            ));
        }
        i += 1;
    }
    proof {
        assert(s@.take(s@.len() as int) =~= s@);
    }
}

/// The lowercase hexadecimal digit for a value below sixteen.
fn hex_digit(d: u8) -> (r: u8)
    requires
        d < 16,
    ensures
        r == spec_hex_digit(d as int),
{
    if d < 10 {
        0x30 + d
    } else {
        0x57 + d
    }
}

/// Appends the JSON escape of a string's UTF-8 bytes.
fn push_escaped(out: &mut Vec<u8>, s: &str)
    ensures
        final(out)@ == old(out)@ + spec_escaped(encode_utf8(s@)),
{
    let bs = s.as_bytes();
    let mut i: usize = 0;
    while i < bs.len()
        invariant
            i <= bs@.len(),
            out@ == old(out)@ + spec_escaped(bs@.take(i as int)),
        decreases bs@.len() - i,
    {
        let ghost done = bs@.take(i as int);
        let b = bs[i];
        if b == 0x22 {
            out.push(0x5c);
            out.push(0x22);
        } else if b == 0x5c {
            out.push(0x5c);
            out.push(0x5c);
        } else if b == 0x08 {
            out.push(0x5c);
            out.push(0x62);
        } else if b == 0x09 {
            out.push(0x5c);
            out.push(0x74);
        } else if b == 0x0a {
            out.push(0x5c);
            out.push(0x6e);
        } else if b == 0x0c {
            out.push(0x5c);
            out.push(0x66);
        } else if b == 0x0d {
            out.push(0x5c);
            out.push(0x72);
        } else if b < 0x20 {
            out.push(0x5c);
            out.push(0x75);
            out.push(0x30);
            out.push(0x30);
            out.push(hex_digit(b / 16));
            out.push(hex_digit(b % 16));
        } else {
            out.push(b);
        }
        proof {
            assert(out@ =~= old(out)@ + spec_escaped(done) + spec_escape_byte(b));
            assert(bs@.take(i + 1) =~= done.push(b));
            lemma_escaped_snoc(done, b);
            assert(out@ =~= old(out)@ + spec_escaped(bs@.take(i + 1)));
        }
        i += 1;
    }
    proof {
        assert(bs@.take(bs@.len() as int) =~= bs@);
    }
}

/// Serializes a submission to the JSON bytes the endpoint expects, as
/// `spec_payload` describes.
pub fn encode_payload(fields: &ContactFields, token: &str) -> (out: Vec<u8>)
    ensures
        out@ == spec_payload(
            fields.name@,
            fields.email@,
            fields.subject@,
            fields.message@,
            token@,
        ),
{
    let mut out: Vec<u8> = Vec::new();
    push_bytes(&mut out, "{\"name\":\"".as_bytes());
    push_escaped(&mut out, fields.name.as_str());
    push_bytes(&mut out, "\",\"email\":\"".as_bytes());
    push_escaped(&mut out, fields.email.as_str());
    push_bytes(&mut out, "\",\"subject\":\"".as_bytes());
    push_escaped(&mut out, fields.subject.as_str());
    push_bytes(&mut out, "\",\"message\":\"".as_bytes());
    push_escaped(&mut out, fields.message.as_str());
    push_bytes(&mut out, "\",\"g-recaptcha-response\":\"".as_bytes());
    push_escaped(&mut out, token);
    push_bytes(&mut out, "\"}".as_bytes());
    proof {
        assert(out@ =~= spec_payload(
            fields.name@,
            fields.email@,
            fields.subject@,
            fields.message@,
            token@,
        ));
    }
    out
}

/// The failure detail for an HTTP response outside the success range.
pub open spec fn spec_http_error(status: int, body: Seq<char>) -> Seq<char> {
    "HTTP "@ + spec_dec(status) + " error: "@ + body
}

/// The failure detail when no response arrived: a cross-origin failure
/// gets its own explanation, anything else is reported as a network
/// error with the transport's message.
pub open spec fn spec_network_error(message: Seq<char>) -> Seq<char> {
    if spec_contains(message, "CORS"@) || spec_contains(message, "Failed to fetch"@) {
        "CORS error: Make sure Google Apps Script is properly configured and deployed as a web app with 'Anyone' access."@
    } else {
        "Network error: "@ + message
    }
}

/// Whether the transport outcome counts as success: any HTTP response
/// in the 2xx range, whatever its body says.
pub open spec fn spec_outcome_ok(o: SubmitOutcome) -> bool {
    o matches SubmitOutcome::Http { status, .. } && 200 <= status < 300
}

/// The full inline failure text for a failed outcome.
pub open spec fn spec_failure_text(o: SubmitOutcome) -> Seq<char> {
    "Error sending message: "@ + match o {
        SubmitOutcome::Http { status, body } => spec_http_error(status as int, body@),
        SubmitOutcome::Network { message } => spec_network_error(message@),
    }
}

/// Renders the failure detail for an HTTP error response, as
/// `spec_http_error` describes.
pub fn http_error_text(status: u16, body: &str) -> (s: String)
    ensures
        s@ == spec_http_error(status as int, body@),
{
    let mut s = "HTTP ".to_owned();
    let digits = fmt_u16(status);
    s.append(digits.as_str());
    s.append(" error: ");
    s.append(body);
    s
}

/// Classifies a transport failure, as `spec_network_error` describes.
pub fn classify_network_error(message: &str) -> (s: String)
    ensures
        s@ == spec_network_error(message@),
{
    if contains_sub(message, "CORS") || contains_sub(message, "Failed to fetch") {
        "CORS error: Make sure Google Apps Script is properly configured and deployed as a web app with 'Anyone' access.".to_owned()
    } else {
        let mut s = "Network error: ".to_owned();
        s.append(message);
        s
    }
}

impl StatusMessage {
    /// The text of this message as shown inline.
    pub open spec fn spec_text(self) -> Seq<char> {
        match self {
            StatusMessage::CaptchaRequired => "Please complete the reCAPTCHA verification."@,
            StatusMessage::Sent => "Message submitted successfully. I'll get back to you soon."@,
            StatusMessage::Failed(m) => m@,
        }
    }

    /// Renders the message, as `spec_text` describes.
    pub fn text(&self) -> (s: String)
        ensures
            s@ == self.spec_text(),
    {
        match self {
            StatusMessage::CaptchaRequired => "Please complete the reCAPTCHA verification.".to_owned(),
            StatusMessage::Sent => "Message submitted successfully. I'll get back to you soon.".to_owned(),
            StatusMessage::Failed(m) => m.clone(),
        }
    }

    /// Whether the message reports a successful submission; failure and
    /// validation messages are styled differently.
    pub fn is_success(&self) -> (b: bool)
        ensures
            b == (self is Sent),
    {
        match self {
            StatusMessage::Sent => true,
            _ => false,
        }
    }
}

impl ContactFields {
    /// Whether every field is empty, as after a successful submission.
    pub open spec fn spec_is_empty(self) -> bool {
        self.name@.len() == 0 && self.email@.len() == 0 && self.subject@.len() == 0
            && self.message@.len() == 0
    }

    /// Four empty fields.
    pub fn new() -> (f: ContactFields)
        ensures
            f.spec_is_empty(),
    {
        ContactFields {
            name: String::new(),
            email: String::new(),
            subject: String::new(),
            message: String::new(),
        }
    }
}

/// The contact form: its fields, whether a submission is in flight, and
/// the inline message shown, if any.
pub struct ContactForm {
    pub fields: ContactFields,
    pub busy: bool,
    pub status: Option<StatusMessage>,
}

impl ContactForm {
    /// An empty, idle form with no message.
    pub fn new() -> (f: ContactForm)
        ensures
            f.fields.spec_is_empty(),
            !f.busy,
            f.status is None,
    {
        ContactForm { fields: ContactFields::new(), busy: false, status: None }
    }

    /// Decides a submit request. While a submission is in flight the
    /// request is ignored outright. With no CAPTCHA token it is blocked:
    /// the validation message is shown and no network action happens.
    /// Otherwise the form goes busy, the message is cleared, and the
    /// exact bytes to POST are returned.
    pub fn submit(&mut self, captcha_token: &str) -> (a: SubmitAction)
        ensures
            old(self).busy ==> *final(self) == *old(self) && a is Ignored,
            !old(self).busy && captcha_token@.len() == 0 ==> {
                &&& a is Blocked
                &&& !final(self).busy
                &&& final(self).fields == old(self).fields
                &&& final(self).status == Some(StatusMessage::CaptchaRequired)
            },
            !old(self).busy && captcha_token@.len() > 0 ==> {
                &&& final(self).busy
                &&& final(self).fields == old(self).fields
                &&& final(self).status is None
                &&& a matches SubmitAction::Post(p) && p@ == spec_payload(
                    old(self).fields.name@,
                    old(self).fields.email@,
                    old(self).fields.subject@,
                    old(self).fields.message@,
                    captcha_token@,
                )
            },
    {
        if self.busy {
            return SubmitAction::Ignored;
        }
        if captcha_token.is_empty() {
            self.status = Some(StatusMessage::CaptchaRequired);
            return SubmitAction::Blocked;
        }
        self.busy = true;
        self.status = None;
        let payload = encode_payload(&self.fields, captcha_token);
        SubmitAction::Post(payload)
    }

    /// Resolves the submission in flight. Success (any 2xx response)
    /// clears the fields and shows the success message; any other
    /// outcome keeps the fields for retry and shows the failure text.
    /// Either way the form goes idle again, and the caller should reset
    /// the CAPTCHA widget.
    pub fn resolve(&mut self, outcome: SubmitOutcome)
        ensures
            !final(self).busy,
            spec_outcome_ok(outcome) ==> {
                &&& final(self).fields.spec_is_empty()
                &&& final(self).status == Some(StatusMessage::Sent)
            },
            !spec_outcome_ok(outcome) ==> {
                &&& final(self).fields == old(self).fields
                &&& final(self).status matches Some(StatusMessage::Failed(m)) && m@
                    == spec_failure_text(outcome)
            },
    {
        self.busy = false;
        match outcome {
            SubmitOutcome::Http { status, body } => {
                if status >= 200 && status < 300 {
                    self.fields = ContactFields::new();
                    self.status = Some(StatusMessage::Sent);
                } else {
                    let detail = http_error_text(status, body.as_str());
                    let mut text = "Error sending message: ".to_owned();
                    text.append(detail.as_str());
                    self.status = Some(StatusMessage::Failed(text));
                }
            },
            SubmitOutcome::Network { message } => {
                let detail = classify_network_error(message.as_str());
                let mut text = "Error sending message: ".to_owned();
                text.append(detail.as_str());
                self.status = Some(StatusMessage::Failed(text));
            },
        }
    }
}

/// The success message mentions "success", so a reader of the inline
/// text can tell a successful submission apart.
pub proof fn lemma_sent_text_mentions_success()
    ensures
        spec_contains(StatusMessage::Sent.spec_text(), "success"@),
{
    reveal_strlit("Message submitted successfully. I'll get back to you soon.");
    reveal_strlit("success");
    assert(StatusMessage::Sent.spec_text().subrange(18, 18 + "success"@.len() as int)
        =~= "success"@);
}

} // verus!
