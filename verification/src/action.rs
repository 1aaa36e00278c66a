//! Actions: what a configured action asks for, before anything is sent
//! or run, and how the result of a shell command is judged.

use vstd::prelude::*;
use crate::config::schema::ActionConfig;
use crate::error::{DeckError, ErrorView};
use crate::event::DeckEvent;
use crate::strings::{concat2, owned, str_eq};
use crate::table::StringMap;

verus! {

/// The request methods that an HTTP action may use.
#[derive(Debug, Clone, Copy, PartialEq, Eq, Structural)]
pub enum HttpMethod {
    Get,
    Post,
    Put,
    Delete,
    Patch,
}

/// The uppercase equivalent of a string, as `str::to_uppercase` of the
/// standard library gives it.
pub uninterp spec fn uppercased(s: Seq<char>) -> Seq<char>;

/// Calls `str::to_uppercase`.
#[verifier::external_body]
fn to_uppercase(s: &str) -> (upper: String)
    ensures
        upper@ == uppercased(s@),
{
    s.to_uppercase()
}

/// The method that an uppercase name stands for.
pub open spec fn method_named(upper: Seq<char>) -> Option<HttpMethod> {
    if upper == "GET"@ {
        Some(HttpMethod::Get)
    } else if upper == "POST"@ {
        Some(HttpMethod::Post)
    } else if upper == "PUT"@ {
        Some(HttpMethod::Put)
    } else if upper == "DELETE"@ {
        Some(HttpMethod::Delete)
    } else if upper == "PATCH"@ {
        Some(HttpMethod::Patch)
    } else {
        None
    }
}

/// The method for a name in uppercase. Any name but the five supported
/// ones is an error that quotes it.
pub fn method_of(upper: &str) -> (method: Result<HttpMethod, DeckError>)
    ensures
        match method_named(upper@) {
            Some(m) => method == Ok::<HttpMethod, DeckError>(m),
            None => method matches Err(DeckError::Action(message)) && message@
                == "unsupported HTTP method: "@ + upper@,
        },
{
    if str_eq(upper, "GET") {
        Ok(HttpMethod::Get)
    } else if str_eq(upper, "POST") {
        Ok(HttpMethod::Post)
    } else if str_eq(upper, "PUT") {
        Ok(HttpMethod::Put)
    } else if str_eq(upper, "DELETE") {
        Ok(HttpMethod::Delete)
    } else if str_eq(upper, "PATCH") {
        Ok(HttpMethod::Patch)
    } else {
        Err(DeckError::Action(concat2("unsupported HTTP method: ", upper)))
    }
}

/// One HTTP request, ready to be sent.
#[derive(Debug, Clone, Copy)]
pub struct HttpRequest<'a> {
    pub method: HttpMethod,
    pub url: &'a str,
    /// The headers to set, each once.
    pub headers: &'a StringMap<String>,
    pub body: Option<&'a str>,
}

/// The request of an HTTP action. The method's name counts in any case.
pub fn http_request<'a>(
    method: &str,
    url: &'a str,
    headers: &'a StringMap<String>,
    body: Option<&'a str>,
) -> (request: Result<HttpRequest<'a>, DeckError>)
    ensures
        match method_named(uppercased(method@)) {
            Some(m) => request matches Ok(r) && r.method == m && r.url@ == url@ && r.headers
                == headers && r.body == body,
            None => request matches Err(DeckError::Action(message)) && message@
                == "unsupported HTTP method: "@ + uppercased(method@),
        },
{
    let upper = to_uppercase(method);
    match method_of(upper.as_str()) {
        Ok(method) => Ok(HttpRequest { method, url, headers, body }),
        Err(error) => Err(error),
    }
}

/// What carrying out an action takes.
#[derive(Debug)]
pub enum ActionPlan<'a> {
    /// Send this request. Whatever status comes back, the action is
    /// done; only a failure to send is an error.
    Http(HttpRequest<'a>),
    /// Run this command line through the shell.
    Shell { command: &'a str },
    /// Publish this event on the bus.
    Publish(DeckEvent),
}

/// Plans an action. Navigation is done by publishing an event; a request
/// or a command is handed back to be sent or run.
pub fn plan_action<'a>(action: &'a ActionConfig) -> (plan: Result<ActionPlan<'a>, DeckError>)
    ensures
        match *action {
            ActionConfig::Http { method, url, headers, body } => match method_named(
                uppercased(method@),
            ) {
                Some(m) => plan matches Ok(ActionPlan::Http(r)) && r.method == m && r.url@ == url@
                    && *r.headers == headers && (match body {
                    Some(b) => r.body matches Some(text) && text@ == b@,
                    None => r.body is None,
                }),
                None => plan matches Err(DeckError::Action(message)) && message@
                    == "unsupported HTTP method: "@ + uppercased(method@),
            },
            ActionConfig::Shell { command } => plan matches Ok(ActionPlan::Shell { command: c })
                && c@ == command@,
            ActionConfig::Navigate { page } => plan matches Ok(
                ActionPlan::Publish(DeckEvent::NavigateTo(id)),
            ) && id@ == page@,
            ActionConfig::Back => plan matches Ok(ActionPlan::Publish(DeckEvent::NavigateBack)),
            ActionConfig::Home => plan matches Ok(ActionPlan::Publish(DeckEvent::NavigateHome)),
        },
{
    match action {
        ActionConfig::Http { method, url, headers, body } => {
            let body: Option<&'a str> = match body {
                Some(text) => Some(text.as_str()),
                None => None,
            };
            match http_request(method.as_str(), url.as_str(), headers, body) {
                Ok(request) => Ok(ActionPlan::Http(request)),
                Err(error) => Err(error),
            }
        },
        ActionConfig::Shell { command } => Ok(ActionPlan::Shell { command: command.as_str() }),
        ActionConfig::Navigate { page } => Ok(
            ActionPlan::Publish(DeckEvent::NavigateTo(page.clone())),
        ),
        ActionConfig::Back => Ok(ActionPlan::Publish(DeckEvent::NavigateBack)),
        ActionConfig::Home => Ok(ActionPlan::Publish(DeckEvent::NavigateHome)),
    }
}

/// Judges a shell command that has ended: a command that did not end
/// with success is an error that carries the command and what it wrote
/// to its error output.
pub fn shell_result(command: &str, success: bool, stderr: &str) -> (result: Result<(), DeckError>)
    ensures
        success ==> result is Ok,
        !success ==> (result matches Err(error) && error@ == ErrorView::Shell {
            command: command@,
            message: stderr@,
        }),
{
    if success {
        Ok(())
    } else {
        Err(DeckError::Shell { command: owned(command), message: owned(stderr) })
    }
}

} // verus!
