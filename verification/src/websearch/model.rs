//! The web-search plugin as a state machine over mathematical values.
//!
//! Every handler of [`crate::websearch::plugin::Plugin`] is specified by one
//! of the transition functions below.

use crate::listing::first_n;
use crate::codec::reader::decoded;
use crate::protocol::{
    error_row, plain_row, ContextOptionView, RequestView, ResponseView, SearchResultView,
};
use crate::step::{EffectView, NextView, StepView};
use crate::text::query_text;
use crate::websearch::items::{ConfigView, ResultView, SearchReplyView, MAX_CHARACTERS};
use vstd::prelude::*;

verus! {

/// The largest number of pages listed for one search. The service decides
/// how many pages it sends; this bound only keeps row identifiers distinct.
pub const MAX_ROWS: usize = 0xFFFF_FFFF;

/// The keyword in front of a query that the host routes to this plugin.
pub open spec fn keyword() -> Seq<char> {
    "exa "@
}

/// The table that holds the addresses of `results` under their positions.
pub open spec fn table_of(results: Seq<ResultView>) -> Map<u32, Seq<char>> {
    Map::new(|id: u32| (id as int) < results.len(), |id: u32| results[id as int].url)
}

/// The row shown while the query is still empty.
pub open spec fn placeholder_row() -> SearchResultView {
    plain_row(0, "Exa Search"@, "Type to search the web..."@, "web-browser"@)
}

/// The row under which a page is listed.
pub open spec fn result_row(id: u32, result: ResultView) -> SearchResultView {
    plain_row(id, result.display_title(), result.display_description(), "web-browser"@)
}

/// One `Append` per page, each under the page's position.
pub open spec fn rows_of(results: Seq<ResultView>) -> Seq<ResponseView> {
    Seq::new(results.len(), |i: int| ResponseView::Append(result_row(i as u32, results[i])))
}

/// The row that reports a problem with the given message.
pub open spec fn problem_row(message: Seq<char>) -> SearchResultView {
    error_row("Error"@, message)
}

/// The text of the row shown when nothing matches `query`.
pub open spec fn no_results_message(query: Seq<char>) -> Seq<char> {
    "No results found for '"@ + query + "'"@
}

/// The secondary actions of a page, in the order of their selectors.
pub open spec fn context_options() -> Seq<ContextOptionView> {
    seq![
        ContextOptionView { id: 0, name: "Open in browser"@ },
        ContextOptionView { id: 1, name: "Copy URL to clipboard"@ },
    ]
}

/// What a context selector does with the address of a page.
pub open spec fn selected_effect(context: u32, url: Seq<char>) -> Option<EffectView> {
    if context == 0 {
        Some(EffectView::OpenUrl(url))
    } else if context == 1 {
        Some(EffectView::CopyToClipboard(url))
    } else {
        None
    }
}

/// The outside work that the plugin is waiting for.
pub enum PendingView {
    /// None.
    Idle,
    /// The service's answer to the search for `query`.
    Searching { query: Seq<char> },
}

/// The state of the web-search plugin.
pub struct PluginView {
    /// What the user configured.
    pub config: ConfigView,
    /// The addresses listed by the last search, by row identifier.
    pub results: Map<u32, Seq<char>>,
    /// The outside work in flight.
    pub pending: PendingView,
}

impl PluginView {
    /// The state at the start of a session.
    pub open spec fn fresh(config: ConfigView) -> PluginView {
        PluginView { config, results: Map::empty(), pending: PendingView::Idle }
    }

    /// What holds of the table at all times: its rows are numbered from zero
    /// without a gap, and there are at most `MAX_ROWS` of them.
    pub open spec fn well_formed(self) -> bool {
        &&& self.results.dom().finite()
        &&& self.results.dom().len() <= MAX_ROWS
        &&& forall|id: u32|
            self.results.dom().contains(id) <==> (id as int) < self.results.dom().len()
    }

    /// This state with other work in flight.
    pub open spec fn waiting_for(self, pending: PendingView) -> PluginView {
        PluginView { pending, ..self }
    }

    /// A search request arrives.
    ///
    /// The table is emptied and `Clear` is sent. An empty query is answered
    /// at once with the placeholder row, and a query without a configured
    /// key with one error row. Otherwise the plugin asks for the search.
    pub open spec fn search_started(self, query: Seq<char>) -> (PluginView, StepView) {
        let text = query_text(query, keyword());
        let cleared = PluginView {
            config: self.config,
            results: Map::empty(),
            pending: PendingView::Idle,
        };
        if text.len() == 0 {
            (
                cleared,
                StepView::say(
                    seq![
                        ResponseView::Clear,
                        ResponseView::Append(placeholder_row()),
                        ResponseView::Finished,
                    ],
                ),
            )
        } else {
            match self.config.api_key {
                Some(api_key) => (
                    cleared.waiting_for(PendingView::Searching { query: text }),
                    StepView::ask(
                        seq![ResponseView::Clear],
                        NextView::SearchWeb {
                            query: text,
                            api_key,
                            num_results: self.config.requested_results(),
                            max_characters: MAX_CHARACTERS,
                        },
                    ),
                ),
                None => (
                    cleared,
                    StepView::say(
                        seq![
                            ResponseView::Clear,
                            ResponseView::Append(problem_row("No API key configured"@)),
                            ResponseView::Finished,
                        ],
                    ),
                ),
            }
        }
    }

    /// The rows that answer a search, without the closing `Finished`.
    pub open spec fn search_rows(query: Seq<char>, reply: SearchReplyView) -> Seq<ResponseView> {
        match reply {
            SearchReplyView::Unreachable(reason) => seq![
                ResponseView::Append(problem_row("Request failed: "@ + reason)),
            ],
            SearchReplyView::Rejected(status) => seq![
                ResponseView::Append(problem_row("API error: "@ + status)),
            ],
            SearchReplyView::Malformed(reason) => seq![
                ResponseView::Append(problem_row("Parse error: "@ + reason)),
            ],
            SearchReplyView::Results(results) => if results.len() == 0 {
                seq![ResponseView::Append(error_row("No results"@, no_results_message(query)))]
            } else {
                rows_of(first_n(results, MAX_ROWS as int))
            },
        }
    }

    /// The table after a search was answered.
    pub open spec fn search_table(reply: SearchReplyView) -> Map<u32, Seq<char>> {
        match reply {
            SearchReplyView::Results(results) => table_of(first_n(results, MAX_ROWS as int)),
            _ => Map::empty(),
        }
    }

    /// The driver reports how the query to the service ended.
    ///
    /// While a search is in flight the answer becomes the rows of the burst,
    /// closed by `Finished`, and the addresses listed become the table. An
    /// answer that the plugin did not ask for changes nothing.
    pub open spec fn search_replied(self, reply: SearchReplyView) -> (PluginView, StepView) {
        match self.pending {
            PendingView::Searching { query } => (
                PluginView {
                    config: self.config,
                    results: Self::search_table(reply),
                    pending: PendingView::Idle,
                },
                StepView::say(Self::search_rows(query, reply).push(ResponseView::Finished)),
            ),
            _ => (self, StepView::silent()),
        }
    }

    /// The host asks for the default action of the row `id`: open the page.
    /// For a row that is not in the table nothing happens.
    pub open spec fn activated(self, id: u32) -> (PluginView, StepView) {
        if self.results.dom().contains(id) {
            (
                self.waiting_for(PendingView::Idle),
                StepView::act(
                    Some(EffectView::OpenUrl(self.results[id])),
                    seq![ResponseView::Close],
                ),
            )
        } else {
            (self.waiting_for(PendingView::Idle), StepView::silent())
        }
    }

    /// The host asks for the secondary action `context` of the row `id`.
    /// For a row that is not in the table nothing happens. For a row that
    /// is, the launcher is closed, whether or not the selector stands for an
    /// action.
    pub open spec fn context_activated(self, id: u32, context: u32) -> (PluginView, StepView) {
        if self.results.dom().contains(id) {
            (
                self.waiting_for(PendingView::Idle),
                StepView::act(
                    selected_effect(context, self.results[id]),
                    seq![ResponseView::Close],
                ),
            )
        } else {
            (self.waiting_for(PendingView::Idle), StepView::silent())
        }
    }

    /// The host asks for the secondary actions of the row `id`. The state
    /// does not change.
    pub open spec fn context_requested(self, id: u32) -> StepView {
        if self.results.dom().contains(id) {
            StepView::say(seq![ResponseView::Context { id, options: context_options() }])
        } else {
            StepView::silent()
        }
    }

    /// A request arrives. Whatever was in flight is abandoned. `Complete`,
    /// `Quit` and `Interrupt` are answered with `Finished` alone, and `Exit`
    /// ends the session.
    pub open spec fn requested(self, request: RequestView) -> (PluginView, StepView) {
        let idle = self.waiting_for(PendingView::Idle);
        match request {
            RequestView::Search(query) => idle.search_started(query),
            RequestView::Activate(id) => idle.activated(id),
            RequestView::ActivateContext { id, context } => idle.context_activated(id, context),
            RequestView::Context(id) => (idle, idle.context_requested(id)),
            RequestView::Exit => (idle, StepView::leave()),
            RequestView::Complete(_) | RequestView::Quit(_) | RequestView::Interrupt => (
                idle,
                StepView::say(seq![ResponseView::Finished]),
            ),
        }
    }

    /// A line of input arrives. An empty line and a line that stands for no
    /// request are skipped: nothing changes and nothing is sent.
    pub open spec fn line_received(self, line: Seq<char>) -> (PluginView, StepView) {
        if line.len() == 0 {
            (self, StepView::silent())
        } else {
            match decoded(line) {
                Some(request) => self.requested(request),
                None => (self, StepView::silent()),
            }
        }
    }
}

} // verus!
