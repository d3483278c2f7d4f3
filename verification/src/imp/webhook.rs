//! OneBot 12 webhook, implementation side: how the webhook's HTTP client
//! identifies itself.
use vstd::prelude::*;

use crate::app::compat::http::bearer;
use crate::interface::Error;
use crate::outside::{header_value_check, valid_header_bytes};

verus! {

/// Settings of a webhook implementation.
#[derive(Debug, Clone)]
pub struct WebhookCreate {
    url: String,
    user_agent: String,
    auth_header: Option<String>,
    impl_name: String,
}

impl WebhookCreate {
    /// The URL events are posted to.
    pub closed spec fn spec_url(&self) -> Seq<char> {
        self.url@
    }

    /// The `User-Agent` header.
    pub closed spec fn spec_user_agent(&self) -> Seq<char> {
        self.user_agent@
    }

    /// The `Authorization` header, if any.
    pub closed spec fn spec_auth_header(&self) -> Option<Seq<char>> {
        match self.auth_header {
            Some(h) => Some(h@),
            None => None,
        }
    }

    /// The `X-Impl` header.
    pub closed spec fn spec_impl_name(&self) -> Seq<char> {
        self.impl_name@
    }

    /// A webhook posting to `url`, with this library's user agent and
    /// implementation name.
    pub fn new(url: String) -> (w: WebhookCreate)
        ensures
            w.spec_url() == url@,
            w.spec_user_agent() == "OneBot/12 (Webhook) OneBot-Connect-Rust/0.1.0"@,
            w.spec_impl_name() == "rs"@,
            w.spec_auth_header() is None,
    {
        WebhookCreate::with_config(url, String::from_str("OneBot/12 (Webhook) OneBot-Connect-Rust/0.1.0"), String::from_str("rs"))
    }

    /// A webhook posting to `url` with the given user agent and
    /// implementation name.
    pub fn with_config(url: String, user_agent: String, impl_name: String) -> (w: WebhookCreate)
        ensures
            w.spec_url() == url@,
            w.spec_user_agent() == user_agent@,
            w.spec_impl_name() == impl_name@,
            w.spec_auth_header() is None,
    {
        WebhookCreate { url, user_agent, auth_header: None, impl_name }
    }

    /// The same webhook, sending `Authorization: Bearer <token>`.
    pub fn with_authorization(self, access_token: &str) -> (w: WebhookCreate)
        ensures
            w.spec_url() == self.spec_url(),
            w.spec_user_agent() == self.spec_user_agent(),
            w.spec_impl_name() == self.spec_impl_name(),
            w.spec_auth_header() == Some("Bearer "@ + access_token@),
    {
        WebhookCreate { auth_header: Some(bearer(access_token)), ..self }
    }

    /// The URL events are posted to.
    pub fn url(&self) -> (u: &String)
        ensures
            u@ == self.spec_url(),
    {
        &self.url
    }

    /// The headers every post carries, in order: `authorization` when set,
    /// `user-agent`, `X-OneBot-Version` (`12`) and `X-Impl`. A value that
    /// `http` refuses is an error carrying the refusal's text; the constant
    /// version is always accepted.
    pub fn request_headers(&self) -> (r: Result<Vec<(String, String)>, Error>)
        ensures
            match r {
                Ok(h) => {
                    &&& (match self.spec_auth_header() {
                        Some(a) => valid_header_bytes(vstd::utf8::encode_utf8(a)),
                        None => true,
                    })
                    &&& valid_header_bytes(vstd::utf8::encode_utf8(self.spec_user_agent()))
                    &&& valid_header_bytes(vstd::utf8::encode_utf8(self.spec_impl_name()))
                    &&& h@.len() == (if self.spec_auth_header() is Some { 4int } else { 3int })
                    &&& (match self.spec_auth_header() {
                        Some(a) => h@[0].0@ == "authorization"@ && h@[0].1@ == a,
                        None => true,
                    })
                    &&& h@[h@.len() - 3].0@ == "user-agent"@ && h@[h@.len() - 3].1@ == self.spec_user_agent()
                    &&& h@[h@.len() - 2].0@ == "X-OneBot-Version"@ && h@[h@.len() - 2].1@ == "12"@
                    &&& h@[h@.len() - 1].0@ == "X-Impl"@ && h@[h@.len() - 1].1@ == self.spec_impl_name()
                },
                Err(e) => e matches Error::Other(m) && m@ == "failed to parse header value"@ && !({
                    &&& (match self.spec_auth_header() {
                        Some(a) => valid_header_bytes(vstd::utf8::encode_utf8(a)),
                        None => true,
                    })
                    &&& valid_header_bytes(vstd::utf8::encode_utf8(self.spec_user_agent()))
                    &&& valid_header_bytes(vstd::utf8::encode_utf8(self.spec_impl_name()))
                }),
            },
    {
        let mut headers: Vec<(String, String)> = Vec::new();
        match &self.auth_header {
            Some(a) => {
                match header_value_check(a.as_str()) {
                    Err(e) => {
                        return Err(Error::Other(e));
                    },
                    Ok(()) => {},
                }
                headers.push((String::from_str("authorization"), a.clone()));
            },
            None => {},
        }
        match header_value_check(self.user_agent.as_str()) {
            Err(e) => {
                return Err(Error::Other(e));
            },
            Ok(()) => {},
        }
        headers.push((String::from_str("user-agent"), self.user_agent.clone()));
        headers.push((String::from_str("X-OneBot-Version"), String::from_str("12")));
        match header_value_check(self.impl_name.as_str()) {
            Err(e) => {
                return Err(Error::Other(e));
            },
            Ok(()) => {},
        }
        headers.push((String::from_str("X-Impl"), self.impl_name.clone()));
        Ok(headers)
    }
}

} // verus!
