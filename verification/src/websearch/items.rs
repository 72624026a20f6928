//! The plugin's configuration, the pages that the search service reports,
//! and the service's answers.

use crate::text::{truncate_string, truncated};
use vstd::prelude::*;

verus! {

/// The variable of the environment that may hold the key to the service.
pub const API_KEY_VARIABLE: &'static str = "EXA_API_KEY";

/// The address at which the search service takes queries.
pub const SEARCH_ENDPOINT: &'static str = "https://api.exa.ai/search";

/// The number of results asked for when the configuration names none.
pub const DEFAULT_NUM_RESULTS: u32 = 8;

/// The number of characters of page text asked for with each result.
pub const MAX_CHARACTERS: u32 = 200;

/// The number of characters of page text shown in a row.
pub const SNIPPET_CHARS: usize = 100;

/// What the user configured.
#[derive(Debug, Clone, PartialEq, Eq)]
pub struct Config {
    pub api_key: Option<String>,
    pub num_results: Option<u32>,
}

pub struct ConfigView {
    pub api_key: Option<Seq<char>>,
    pub num_results: Option<u32>,
}

impl View for Config {
    type V = ConfigView;

    open spec fn view(&self) -> ConfigView {
        ConfigView { api_key: self.api_key.deep_view(), num_results: self.num_results }
    }
}

impl DeepView for Config {
    type V = ConfigView;

    open spec fn deep_view(&self) -> ConfigView {
        self@
    }
}

impl ConfigView {
    /// The configuration that names nothing.
    pub open spec fn empty() -> ConfigView {
        ConfigView { api_key: None, num_results: None }
    }

    /// The configuration in force: a key from the environment wins and comes
    /// with the default number of results; otherwise the stored
    /// configuration counts, if there is one.
    pub open spec fn resolve(from_env: Option<Seq<char>>, stored: Option<ConfigView>) -> ConfigView {
        match from_env {
            Some(api_key) => ConfigView {
                api_key: Some(api_key),
                num_results: Some(DEFAULT_NUM_RESULTS),
            },
            None => match stored {
                Some(config) => config,
                None => ConfigView::empty(),
            },
        }
    }

    /// The number of results to ask the service for.
    pub open spec fn requested_results(self) -> u32 {
        match self.num_results {
            Some(n) => n,
            None => DEFAULT_NUM_RESULTS,
        }
    }
}

impl Default for Config {
    fn default() -> (config: Self)
        ensures
            config@ == ConfigView::empty(),
    {
        Config { api_key: None, num_results: None }
    }
}

impl Config {
    /// Settles the configuration from the key found in the environment and
    /// the configuration found in the user's file, either of which may be
    /// missing.
    pub fn load(from_env: Option<String>, stored: Option<Config>) -> (config: Self)
        ensures
            config@ == ConfigView::resolve(from_env.deep_view(), stored.deep_view()),
    {
        match from_env {
            Some(api_key) => Config {
                api_key: Some(api_key),
                num_results: Some(DEFAULT_NUM_RESULTS),
            },
            None => match stored {
                Some(config) => config,
                None => Config { api_key: None, num_results: None },
            },
        }
    }

    /// The number of results to ask the service for.
    pub fn requested_results(&self) -> (n: u32)
        ensures
            n == self@.requested_results(),
    {
        match self.num_results {
            Some(n) => n,
            None => DEFAULT_NUM_RESULTS,
        }
    }
}

/// One page found by the search service.
#[derive(Debug, Clone, PartialEq, Eq)]
pub struct ExaResult {
    pub title: Option<String>,
    pub url: String,
    pub text: Option<String>,
}

pub struct ResultView {
    pub title: Option<Seq<char>>,
    pub url: Seq<char>,
    pub text: Option<Seq<char>>,
}

impl View for ExaResult {
    type V = ResultView;

    open spec fn view(&self) -> ResultView {
        ResultView { title: self.title.deep_view(), url: self.url@, text: self.text.deep_view() }
    }
}

impl DeepView for ExaResult {
    type V = ResultView;

    open spec fn deep_view(&self) -> ResultView {
        self@
    }
}

impl ResultView {
    /// The title under which the page is listed.
    pub open spec fn display_title(self) -> Seq<char> {
        match self.title {
            Some(title) => title,
            None => "Untitled"@,
        }
    }

    /// The line shown below the title: the start of the page's text, or the
    /// page's address when the service sent no text.
    pub open spec fn display_description(self) -> Seq<char> {
        match self.text {
            Some(text) => truncated(text, SNIPPET_CHARS as int),
            None => self.url,
        }
    }
}

/// The title under which a page is listed.
pub fn display_title(result: &ExaResult) -> (out: String)
    ensures
        out@ == result@.display_title(),
{
    match &result.title {
        Some(title) => title.clone(),
        None => "Untitled".to_owned(),
    }
}

/// The line shown below the title of a page.
pub fn display_description(result: &ExaResult) -> (out: String)
    ensures
        out@ == result@.display_description(),
{
    match &result.text {
        Some(text) => truncate_string(text.as_str(), SNIPPET_CHARS),
        None => result.url.clone(),
    }
}

/// How a query to the search service ended.
#[derive(Debug, Clone, PartialEq, Eq)]
pub enum SearchReply {
    /// The request could not be made; the text says why.
    Unreachable(String),
    /// The service answered with an error status; the text is that status.
    Rejected(String),
    /// The service's answer was not a list of results; the text says why.
    Malformed(String),
    /// The pages found, in the order in which the service gave them.
    Results(Vec<ExaResult>),
}

pub enum SearchReplyView {
    Unreachable(Seq<char>),
    Rejected(Seq<char>),
    Malformed(Seq<char>),
    Results(Seq<ResultView>),
}

impl View for SearchReply {
    type V = SearchReplyView;

    open spec fn view(&self) -> SearchReplyView {
        match self {
            SearchReply::Unreachable(text) => SearchReplyView::Unreachable(text@),
            SearchReply::Rejected(text) => SearchReplyView::Rejected(text@),
            SearchReply::Malformed(text) => SearchReplyView::Malformed(text@),
            SearchReply::Results(results) => SearchReplyView::Results(results.deep_view()),
        }
    }
}

} // verus!
