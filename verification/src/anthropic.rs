//! The request side of the remote text transformation: the client's
//! settings, the prompt that is sent, and what a reply means.
//!
//! The host sends the request; nothing here touches the network.

use crate::text::{
    append_decimal, append_str, contains, contains_chars, decimal, from_chars, replace_all,
    replace_all_chars, to_chars,
};
use vstd::prelude::*;

verus! {

/// What can go wrong with a remote call.
#[derive(Debug)]
pub enum ApiError {
    /// The request did not get through.
    NetworkError(String),
    /// The service answered with an error status.
    ApiError { status: u16, message: String },
    /// The reply could not be read.
    ParseError(String),
    /// The prompt template is not usable.
    TemplateError(String),
}

/// The token of a template that stands for the clipboard text.
pub open spec fn placeholder() -> Seq<char> {
    "{clipboard_text}"@
}

/// Whether a template holds the placeholder.
pub open spec fn has_placeholder(template: Seq<char>) -> bool {
    contains(template, placeholder())
}

/// The template with the text in the place of every placeholder.
pub open spec fn substituted(template: Seq<char>, text: Seq<char>) -> Seq<char> {
    replace_all(template, placeholder(), text)
}

/// The report of a template without the placeholder.
pub open spec fn missing_placeholder() -> Seq<char> {
    "Template must contain {clipboard_text} placeholder"@
}

/// Whether a template holds the placeholder.
pub fn contains_placeholder(template: &str) -> (b: bool)
    ensures
        b == has_placeholder(template@),
{
    let chars = to_chars(template);
    let token = to_chars("{clipboard_text}");
    contains_chars(&chars, &token)
}

/// The prompt to send: the template with the text in the place of every
/// placeholder. A template without the placeholder is refused.
pub fn format_prompt(template: &str, clipboard_text: &str) -> (r: Result<String, ApiError>)
    ensures
        has_placeholder(template@) ==> (r matches Ok(p) && p@ == substituted(
            template@,
            clipboard_text@,
        )),
        !has_placeholder(template@) ==> (r matches Err(ApiError::TemplateError(m)) && m@
            == missing_placeholder()),
{
    let chars = to_chars(template);
    let token = to_chars("{clipboard_text}");
    if !contains_chars(&chars, &token) {
        return Err(
            ApiError::TemplateError(
                from_chars(&to_chars("Template must contain {clipboard_text} placeholder")),
            ),
        );
    }
    let text = to_chars(clipboard_text);
    Ok(from_chars(&replace_all_chars(&chars, &token, &text)))
}

/// Whether an HTTP status reports success: one from 200 to 299.
pub fn is_success(status: u16) -> (b: bool)
    ensures
        b == (200 <= status < 300),
{
    200 <= status && status < 300
}

/// The report of a reply without content.
pub open spec fn no_content() -> Seq<char> {
    "No content in API response"@
}

/// The text of a reply: that of its first content block.
pub fn extract_text(content: Vec<String>) -> (r: Result<String, ApiError>)
    ensures
        content.len() > 0 ==> r == Ok::<String, ApiError>(content[0]),
        content.len() == 0 ==> (r matches Err(ApiError::ParseError(m)) && m@ == no_content()),
{
    if content.len() > 0 {
        Ok(content[0].clone())
    } else {
        Err(ApiError::ParseError(from_chars(&to_chars("No content in API response"))))
    }
}

/// The words for a remote error.
pub open spec fn api_message(e: ApiError) -> Seq<char> {
    match e {
        ApiError::NetworkError(d) => "Network error: "@ + d@,
        ApiError::ApiError { status, message } => "API error (status "@ + decimal(status as nat)
            + "): "@ + message@,
        ApiError::ParseError(d) => "Failed to parse response: "@ + d@,
        ApiError::TemplateError(d) => "Template error: "@ + d@,
    }
}

impl ApiError {
    /// The words for this error.
    pub fn message(&self) -> (r: String)
        ensures
            r@ == api_message(*self),
    {
        let mut out: Vec<char> = Vec::new();
        match self {
            ApiError::NetworkError(d) => {
                append_str(&mut out, "Network error: ");
                append_str(&mut out, d.as_str());
            },
            ApiError::ApiError { status, message } => {
                append_str(&mut out, "API error (status ");
                append_decimal(&mut out, *status as usize);
                append_str(&mut out, "): ");
                append_str(&mut out, message.as_str());
            },
            ApiError::ParseError(d) => {
                append_str(&mut out, "Failed to parse response: ");
                append_str(&mut out, d.as_str());
            },
            ApiError::TemplateError(d) => {
                append_str(&mut out, "Template error: ");
                append_str(&mut out, d.as_str());
            },
        }
        assert(out@ =~= api_message(*self));
        from_chars(&out)
    }
}

/// The settings of the client for the remote service.
#[derive(Debug)]
pub struct ApiClient {
    /// The key that the service knows the user by.
    pub api_key: String,
    /// The model that requests name; where there is none, the host's choice.
    pub model: Option<String>,
}

impl ApiClient {
    /// A client for the key given, and for the model given if there is one.
    pub fn new(api_key: String, model: Option<String>) -> (r: ApiClient)
        ensures
            r.api_key == api_key,
            r.model == model,
    {
        ApiClient { api_key, model }
    }

    /// The model that a request names: the client's own, or else `fallback`.
    pub fn model_or(&self, fallback: &str) -> (r: String)
        ensures
            r@ == match self.model {
                Some(m) => m@,
                None => fallback@,
            },
    {
        match &self.model {
            Some(m) => m.clone(),
            None => from_chars(&to_chars(fallback)),
        }
    }

    /// The prompt to send for a template and the clipboard text.
    pub fn format_prompt(&self, template: &str, clipboard_text: &str) -> (r: Result<
        String,
        ApiError,
    >)
        ensures
            has_placeholder(template@) ==> (r matches Ok(p) && p@ == substituted(
                template@,
                clipboard_text@,
            )),
            !has_placeholder(template@) ==> (r matches Err(ApiError::TemplateError(m)) && m@
                == missing_placeholder()),
    {
        format_prompt(template, clipboard_text)
    }
}

} // verus!
