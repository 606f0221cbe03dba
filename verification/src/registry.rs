//! What is asked of the registry, how a search can fail, and what is shown
//! for its outcome.

use crate::models::Crate;
use crate::render::{table, tabulate};
use crate::widths::measured;
use vstd::prelude::*;

verus! {

/// The address of the search, up to and without the term searched for.
pub const SEARCH_ENDPOINT: &'static str = "https://crates.io/api/v1/crates?q=";

/// The name under which this client presents itself to the registry.
pub const USER_AGENT: &'static str = "check-crates-client";

/// The ways in which a search can fail, each with the words of its cause.
#[derive(Debug, Clone, PartialEq, Eq)]
pub enum FetchError {
    /// The call to the registry could not be completed.
    Transport(String),
    /// The call succeeded, but the body of the answer could not be read.
    ResponseRead(String),
    /// The body was read, but is not an answer of the expected shape.
    Decode(String),
}

impl FetchError {
    /// The message of the failure: what failed, then the words of the cause.
    pub open spec fn text(self) -> Seq<char> {
        match self {
            FetchError::Transport(cause) => "failed to call api :"@ + cause@,
            FetchError::ResponseRead(cause) => "failed to parse response: "@ + cause@,
            FetchError::Decode(cause) => "failed to deserialize: "@ + cause@,
        }
    }

    /// Writes the message of the failure.
    pub fn message(&self) -> (text: String)
        ensures
            text@ == self.text(),
    {
        match self {
            FetchError::Transport(cause) => {
                let mut text = "failed to call api :".to_owned();
                text.append(cause.as_str());
                text
            },
            FetchError::ResponseRead(cause) => {
                let mut text = "failed to parse response: ".to_owned();
                text.append(cause.as_str());
                text
            },
            FetchError::Decode(cause) => {
                let mut text = "failed to deserialize: ".to_owned();
                text.append(cause.as_str());
                text
            },
        }
    }
}

/// Whether `name` can be searched for: any text but the empty one.
pub fn is_search_term(name: &str) -> (accepted: bool)
    ensures
        accepted == (name@.len() > 0),
{
    !name.is_empty()
}

/// The address to ask for the packages that match `name`.
pub fn search_url(name: &str) -> (url: String)
    ensures
        url@ == SEARCH_ENDPOINT@ + name@,
{
    let mut url = SEARCH_ENDPOINT.to_owned();
    url.append(name);
    url
}

/// What is shown for the outcome of a search: for the packages found, the
/// lines of their table; for a failure, its message and no line at all.
pub fn report(outcome: Result<Vec<Crate>, FetchError>) -> (shown: Result<Vec<String>, String>)
    ensures
        match outcome {
            Ok(crates) => shown is Ok && shown->Ok_0.deep_view() == table(
                crates.deep_view(),
                measured(crates.deep_view()),
            ),
            Err(error) => shown is Err && shown->Err_0@ == error.text(),
        },
{
    match outcome {
        Ok(crates) => Ok(tabulate(&crates)),
        Err(error) => Err(error.message()),
    }
}

} // verus!
