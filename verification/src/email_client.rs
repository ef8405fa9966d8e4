//! The request that asks the email provider to send one email, and the error
//! of a delivery that failed.

use crate::domain::subscriber_email::{is_valid_email, SubscriberEmail};
use crate::secret::SecretText;
use std::time::Duration;
use url::Url;
use vstd::prelude::*;

verus! {

/// The HTTP method of a send request.
pub const SEND_METHOD: &'static str = "POST";

/// The path of a send request, relative to the provider's base URL.
pub const SEND_PATH: &'static str = "email";

/// The header that carries the server token.
pub const TOKEN_HEADER: &'static str = "X-Postmark-Server-Token";

/// Why an email was not handed to the provider. A failed delivery leaves what
/// was stored before it untouched.
#[derive(Debug, PartialEq, Eq)]
pub enum DeliveryError {
    /// The base URL, carried here, is no URL that the send path can be put
    /// under.
    InvalidEndpoint(String),
    /// The provider did not answer within the configured time.
    TimedOut,
    /// The request failed for the reason carried here.
    Failed(String),
}

impl DeliveryError {
    /// Classifies a failed transport: a timeout is reported as such, any
    /// other failure with its detail.
    pub fn from_transport(timed_out: bool, detail: String) -> (error: DeliveryError)
        ensures
            timed_out ==> error is TimedOut,
            !timed_out ==> error == DeliveryError::Failed(detail),
    {
        if timed_out {
            DeliveryError::TimedOut
        } else {
            DeliveryError::Failed(detail)
        }
    }
}

/// The body of a send request. On the wire it is a JSON object whose keys
/// are those of [`SendEmailRequest::wire_fields`].
#[derive(Debug)]
pub struct SendEmailRequest {
    pub from: String,
    pub to: String,
    pub subject: String,
    pub html_body: String,
    pub text_body: String,
}

impl SendEmailRequest {
    /// The keys of the body on the wire, in order.
    pub open spec fn wire_keys() -> Seq<Seq<char>> {
        seq!["From"@, "To"@, "Subject"@, "HtmlBody"@, "TextBody"@]
    }

    /// The values of the body, in the order of [`SendEmailRequest::wire_keys`].
    pub open spec fn wire_values(self) -> Seq<Seq<char>> {
        seq![self.from@, self.to@, self.subject@, self.html_body@, self.text_body@]
    }

    /// The body as pairs of key and value, in wire order: `From`, `To`,
    /// `Subject`, `HtmlBody`, `TextBody`.
    pub fn wire_fields(&self) -> (fields: Vec<(&'static str, String)>)
        ensures
            fields.len() == 5,
            forall|i: int|
                0 <= i < 5 ==> (#[trigger] fields[i]).0@ == SendEmailRequest::wire_keys()[i]
                    && fields[i].1@ == self.wire_values()[i],
    {
        let mut fields: Vec<(&'static str, String)> = Vec::new();
        fields.push(("From", self.from.clone()));
        fields.push(("To", self.to.clone()));
        fields.push(("Subject", self.subject.clone()));
        fields.push(("HtmlBody", self.html_body.clone()));
        fields.push(("TextBody", self.text_body.clone()));
        fields
    }
}

/// All that one send request consists of. It is sent with [`SEND_METHOD`],
/// and the token travels in the header [`TOKEN_HEADER`].
#[derive(Debug)]
pub struct EmailRequest {
    /// The URL to send to.
    pub url: String,
    /// The server token.
    pub token: SecretText,
    /// The body.
    pub body: SendEmailRequest,
    /// How long to wait for the provider.
    pub timeout: Duration,
}

/// The URL that `path` names relative to `base`, by the URL standard's rules
/// for relative references; `None` if `base` is no absolute URL or `path`
/// cannot be resolved against it.
pub uninterp spec fn resolved_url(base: Seq<char>, path: Seq<char>) -> Option<Seq<char>>;

/// Resolves `path` against `base` with `url::Url::parse` and
/// `url::Url::join`, and hands out the URL's own serialization. Whether a URL
/// results, and which, is a function of the two texts alone and goes by the
/// name [`resolved_url`].
#[verifier::external_body]
fn resolve_url(base: &str, path: &str) -> (url: Option<String>)
    ensures
        match resolved_url(base@, path@) {
            Some(text) => url matches Some(u) && u@ == text,
            None => url is None,
        },
{
    match Url::parse(base) {
        Ok(base) => match base.join(path) {
            Ok(url) => Some(url.into()),
            Err(_) => None,
        },
        Err(_) => None,
    }
}

/// A client of the email provider: where the provider is, who sends, the
/// server token, and how long a request may take.
#[derive(Debug)]
pub struct EmailClient {
    base_url: String,
    sender: SubscriberEmail,
    auth_token: SecretText,
    timeout: Duration,
}

/// What an [`EmailClient`] holds.
pub ghost struct EmailClientView {
    pub base_url: Seq<char>,
    pub sender: Seq<char>,
    pub auth_token: Seq<char>,
    pub timeout: Duration,
}

impl View for EmailClient {
    type V = EmailClientView;

    closed spec fn view(&self) -> EmailClientView {
        EmailClientView {
            base_url: self.base_url@,
            sender: self.sender@,
            auth_token: self.auth_token@,
            timeout: self.timeout,
        }
    }
}

impl Clone for EmailClient {
    fn clone(&self) -> (copy: EmailClient)
        ensures
            copy@ == self@,
    {
        EmailClient {
            base_url: self.base_url.clone(),
            sender: self.sender.clone(),
            auth_token: self.auth_token.clone(),
            timeout: self.timeout,
        }
    }
}

impl EmailClient {
    /// The URL that send requests go to, if the base URL admits one.
    pub open spec fn send_url(self) -> Option<Seq<char>> {
        resolved_url(self@.base_url, SEND_PATH@)
    }

    /// Whether `request` is the send request of this client to `url` for the
    /// given recipient and contents.
    pub open spec fn is_request(
        self,
        request: EmailRequest,
        url: Seq<char>,
        recipient: Seq<char>,
        subject: Seq<char>,
        html_content: Seq<char>,
        text_content: Seq<char>,
    ) -> bool {
        &&& request.url@ == url
        &&& request.token@ == self@.auth_token
        &&& request.timeout == self@.timeout
        &&& request.body.from@ == self@.sender
        &&& request.body.to@ == recipient
        &&& request.body.subject@ == subject
        &&& request.body.html_body@ == html_content
        &&& request.body.text_body@ == text_content
    }

    /// A client that sends as `sender` through the provider at `base_url`.
    pub fn new(
        base_url: String,
        sender: SubscriberEmail,
        auth_token: SecretText,
        timeout: Duration,
    ) -> (client: EmailClient)
        ensures
            client@ == (EmailClientView {
                base_url: base_url@,
                sender: sender@,
                auth_token: auth_token@,
                timeout,
            }),
    {
        EmailClient { base_url, sender, auth_token, timeout }
    }

    /// The provider's base URL.
    pub fn base_url(&self) -> (base_url: &str)
        ensures
            base_url@ == self@.base_url,
    {
        self.base_url.as_str()
    }

    /// The sender's address.
    pub fn sender(&self) -> (sender: &SubscriberEmail)
        ensures
            sender@ == self@.sender,
    {
        &self.sender
    }

    /// How long a request may take.
    pub fn timeout(&self) -> (timeout: Duration)
        ensures
            timeout == self@.timeout,
    {
        self.timeout
    }

    /// The URL that send requests go to: [`SEND_PATH`] resolved against the
    /// base URL. `None` if the base URL admits no such URL.
    pub fn endpoint(&self) -> (url: Option<String>)
        ensures
            match self.send_url() {
                Some(text) => url matches Some(u) && u@ == text,
                None => url is None,
            },
    {
        resolve_url(self.base_url.as_str(), SEND_PATH)
    }

    /// The send request to `url`: from the client's sender to `recipient`,
    /// with the given subject and the two renderings of the content.
    pub fn request_to(
        &self,
        url: String,
        recipient: SubscriberEmail,
        subject: &str,
        html_content: &str,
        text_content: &str,
    ) -> (request: EmailRequest)
        ensures
            self.is_request(request, url@, recipient@, subject@, html_content@, text_content@),
            is_valid_email(request.body.from@),
            is_valid_email(request.body.to@),
    {
        let body = SendEmailRequest {
            from: self.sender.as_ref().to_owned(),
            to: recipient.as_ref().to_owned(),
            subject: subject.to_owned(),
            html_body: html_content.to_owned(),
            text_body: text_content.to_owned(),
        };
        EmailRequest { url, token: self.auth_token.clone(), body, timeout: self.timeout }
    }

    /// The request that sends one email to `recipient`. It goes to
    /// [`EmailClient::send_url`]; where the base URL admits none, nothing can
    /// be sent and the error carries the base URL.
    pub fn send_email(
        &self,
        recipient: SubscriberEmail,
        subject: &str,
        html_content: &str,
        text_content: &str,
    ) -> (res: Result<EmailRequest, DeliveryError>)
        ensures
            match self.send_url() {
                Some(url) => res matches Ok(request) && self.is_request(
                    request,
                    url,
                    recipient@,
                    subject@,
                    html_content@,
                    text_content@,
                ) && is_valid_email(request.body.from@) && is_valid_email(request.body.to@),
                None => res matches Err(e) && e matches DeliveryError::InvalidEndpoint(base)
                    && base@ == self@.base_url,
            },
    {
        match self.endpoint() {
            Some(url) => Ok(self.request_to(url, recipient, subject, html_content, text_content)),
            None => Err(DeliveryError::InvalidEndpoint(self.base_url.clone())),
        }
    }
}

} // verus!
