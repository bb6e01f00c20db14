use crate::validation::ValidatedEmail;
use vstd::prelude::*;
use vstd::string::StringExecFns;

verus! {

/// Where confirmation messages are posted and who sends them. The transport
/// that posts them lives outside the library.
#[derive(Debug)]
pub struct EmailClient {
    pub email_server_url: String,
    pub sender: ValidatedEmail,
    pub authorization_token: String,
}

/// The JSON body of one delivery request.
#[derive(Debug)]
pub struct SendEmailRequest {
    pub from: String,
    pub to: String,
    pub subject: String,
    pub html_body: String,
    pub text_body: String,
}

/// Whether a delivery attempt succeeded, given the status of the answer, or
/// `None` where no answer came (connection refused, timeout): only a 2xx
/// status is a success.
pub fn delivery_succeeded(status: Option<u16>) -> (r: bool)
    ensures
        r == (status matches Some(s) && 200 <= s && s < 300),
{
    match status {
        Some(s) => 200 <= s && s < 300,
        None => false,
    }
}

impl EmailClient {
    pub fn new(base_url: &str, sender: ValidatedEmail, authorization_token: &str) -> (r: EmailClient)
        ensures
            r.email_server_url@ == base_url@,
            r.sender == sender,
            r.authorization_token@ == authorization_token@,
    {
        EmailClient {
            email_server_url: String::from_str(base_url),
            sender,
            authorization_token: String::from_str(authorization_token),
        }
    }

    /// The base address of the delivery service.
    pub fn url(&self) -> (r: &str)
        ensures
            r@ == self.email_server_url@,
    {
        self.email_server_url.as_str()
    }

    /// The address that delivery requests are posted to.
    pub fn email_url(&self) -> (r: String)
        ensures
            r@ == self.email_server_url@ + "/email"@,
    {
        let mut s = self.email_server_url.clone();
        s.append("/email");
        s
    }

    /// The request that delivers one message from the configured sender.
    pub fn request(&self, recipient: &str, subject: &str, html_content: &str, text_content: &str) -> (r:
        SendEmailRequest)
        ensures
            r.from@ == self.sender.view(),
            r.to@ == recipient@,
            r.subject@ == subject@,
            r.html_body@ == html_content@,
            r.text_body@ == text_content@,
    {
        SendEmailRequest {
            from: String::from_str(self.sender.as_str()),
            to: String::from_str(recipient),
            subject: String::from_str(subject),
            html_body: String::from_str(html_content),
            text_body: String::from_str(text_content),
        }
    }
}

} // verus!
