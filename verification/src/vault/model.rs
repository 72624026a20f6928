//! The vault plugin as a state machine over mathematical values.
//!
//! Every handler of [`crate::vault::plugin::Plugin`] is specified by one of
//! the transition functions below, which map the state before an event to the
//! state after it and to the step handed to the driver.

use crate::listing::first_n;
use crate::codec::reader::decoded;
use crate::protocol::{
    error_row, plain_row, ContextOptionView, RequestView, ResponseView, SearchResultView,
};
use crate::step::{CredentialType, EffectView, NextView, SessionSource, StepView};
use crate::text::{has_substring, query_text, trim};
use crate::vault::items::{FieldReplyView, ItemView, SearchReplyView};
use vstd::prelude::*;

verus! {

/// The variable of the environment that may hold the session token.
pub const SESSION_VARIABLE: &'static str = "BW_SESSION";

/// The attribute under which the credential store files the session token.
pub const KEYRING_ATTRIBUTE: &'static str = "session";

/// The value of that attribute: the name of this plugin.
pub const KEYRING_SERVICE: &'static str = "bw-launcher";

/// The largest number of items listed for one search.
pub const MAX_RESULTS: usize = 10;

/// The keyword in front of a query that the host routes to this plugin.
pub open spec fn keyword() -> Seq<char> {
    "bw "@
}

/// The table that holds `items` under their positions.
pub open spec fn table_of(items: Seq<ItemView>) -> Map<u32, ItemView> {
    Map::new(|id: u32| (id as int) < items.len(), |id: u32| items[id as int])
}

/// The row shown while the query is still empty.
pub open spec fn placeholder_row() -> SearchResultView {
    plain_row(0, "Bitwarden Search"@, "Type to search your vault..."@, "bitwarden"@)
}

/// The row under which an item is listed.
pub open spec fn item_row(id: u32, item: ItemView) -> SearchResultView {
    plain_row(id, item.name, item.description(), "dialog-password"@)
}

/// One `Append` per item, each under the item's position.
pub open spec fn rows_of(items: Seq<ItemView>) -> Seq<ResponseView> {
    Seq::new(items.len(), |i: int| ResponseView::Append(item_row(i as u32, items[i])))
}

/// Whether the vault tool's diagnostic output says that the session token
/// is no longer good.
pub open spec fn session_rejected(diagnostic: Seq<char>) -> bool {
    has_substring(diagnostic, "Invalid session"@) || has_substring(diagnostic, "not logged in"@)
}

/// The text of the row shown when nothing matches `query`.
pub open spec fn no_results_message(query: Seq<char>) -> Seq<char> {
    "No items found for '"@ + query + "'"@
}

/// The secondary actions of an item, in the order of their selectors.
pub open spec fn context_options(item: ItemView) -> Seq<ContextOptionView> {
    let always = seq![
        ContextOptionView { id: 0, name: "Copy password"@ },
        ContextOptionView { id: 1, name: "Copy username"@ },
    ];
    if item.has_totp() {
        always.push(ContextOptionView { id: 2, name: "Copy TOTP code"@ })
    } else {
        always
    }
}

/// The field that a context selector stands for.
pub open spec fn selected_field(context: u32) -> Option<CredentialType> {
    if context == 0 {
        Some(CredentialType::Password)
    } else if context == 1 {
        Some(CredentialType::Username)
    } else if context == 2 {
        Some(CredentialType::Totp)
    } else {
        None
    }
}

/// The diagnostic written when the vault tool could not hand out a field.
pub open spec fn fetch_failure_message(field: CredentialType, diagnostic: Seq<char>) -> Seq<char> {
    "Failed to get "@ + field.label() + ": "@ + diagnostic
}

/// The diagnostic written when the vault tool could not be started.
pub open spec fn launch_failure_message(reason: Seq<char>) -> Seq<char> {
    "Failed to run bw: "@ + reason
}

/// The outside work that the plugin is waiting for.
pub enum PendingView {
    /// None.
    Idle,
    /// The session token from `source`, to search for `query` with it.
    SearchNeedsSession { query: Seq<char>, source: SessionSource },
    /// The vault's answer to the search for `query`.
    Searching { query: Seq<char> },
    /// The session token from `source`, to fetch `field` of the item
    /// `item_id` with it.
    CopyNeedsSession { item_id: Seq<char>, field: CredentialType, source: SessionSource },
    /// The vault's answer to the request for `field`.
    Fetching { field: CredentialType },
}

/// The state of the vault plugin.
pub struct PluginView {
    /// The items listed by the last search, by row identifier.
    pub results: Map<u32, ItemView>,
    /// The session token, once one was found.
    pub session: Option<Seq<char>>,
    /// The outside work in flight.
    pub pending: PendingView,
}

impl PluginView {
    /// The state at the start of a session.
    pub open spec fn fresh() -> PluginView {
        PluginView { results: Map::empty(), session: None, pending: PendingView::Idle }
    }

    /// What holds of the table at all times: its rows are numbered from zero
    /// without a gap, and there are at most `MAX_RESULTS` of them.
    pub open spec fn well_formed(self) -> bool {
        &&& self.results.dom().finite()
        &&& self.results.dom().len() <= MAX_RESULTS
        &&& forall|id: u32|
            self.results.dom().contains(id) <==> (id as int) < self.results.dom().len()
    }

    /// This state with other work in flight.
    pub open spec fn waiting_for(self, pending: PendingView) -> PluginView {
        PluginView { pending, ..self }
    }

    /// A search request arrives.
    ///
    /// The table is emptied and `Clear` is sent. An empty query is answered
    /// at once with the placeholder row. Otherwise the plugin asks for the
    /// vault search if it holds a session token, and for the token if not.
    pub open spec fn search_started(self, query: Seq<char>) -> (PluginView, StepView) {
        let text = query_text(query, keyword());
        let cleared = PluginView {
            results: Map::empty(),
            session: self.session,
            pending: PendingView::Idle,
        };
        if text.len() == 0 {
            (
                cleared,
                StepView::say(
                    seq![
                        ResponseView::Clear,
                        ResponseView::Append(placeholder_row()),
                        ResponseView::Finished,
                    ],
                ),
            )
        } else {
            match self.session {
                Some(session) => (
                    cleared.waiting_for(PendingView::Searching { query: text }),
                    StepView::ask(
                        seq![ResponseView::Clear],
                        NextView::SearchVault { query: text, session },
                    ),
                ),
                None => (
                    cleared.waiting_for(
                        PendingView::SearchNeedsSession {
                            query: text,
                            source: SessionSource::Environment,
                        },
                    ),
                    StepView::ask(
                        seq![ResponseView::Clear],
                        NextView::ResolveSession { source: SessionSource::Environment },
                    ),
                ),
            }
        }
    }

    /// The driver reports what the lookup of the session token found.
    ///
    /// A token that was found is kept for the rest of the session and the
    /// interrupted work goes on with it. When the environment holds none,
    /// the plugin asks for the one in the credential store. When that holds
    /// none either, the work ends without the vault being asked: a search
    /// with one error row and `Finished`, a copy with `Close`, as after any
    /// copy that did not succeed. A report that the plugin did not ask for
    /// changes nothing.
    pub open spec fn session_resolved(self, found: Option<Seq<char>>) -> (PluginView, StepView) {
        match self.pending {
            PendingView::SearchNeedsSession { query, source } => match found {
                Some(session) => (
                    PluginView {
                        results: self.results,
                        session: Some(session),
                        pending: PendingView::Searching { query },
                    },
                    StepView::ask(Seq::empty(), NextView::SearchVault { query, session }),
                ),
                None => match source {
                    SessionSource::Environment => (
                        self.waiting_for(
                            PendingView::SearchNeedsSession {
                                query,
                                source: SessionSource::CredentialStore,
                            },
                        ),
                        StepView::ask(
                            Seq::empty(),
                            NextView::ResolveSession { source: SessionSource::CredentialStore },
                        ),
                    ),
                    SessionSource::CredentialStore => (
                        self.waiting_for(PendingView::Idle),
                        StepView::say(
                            seq![
                                ResponseView::Append(
                                    error_row(
                                        "Vault locked"@,
                                        "Run 'bw unlock' and store session with 'bw-session-store'"@,
                                    ),
                                ),
                                ResponseView::Finished,
                            ],
                        ),
                    ),
                },
            },
            PendingView::CopyNeedsSession { item_id, field, source } => match found {
                Some(session) => (
                    PluginView {
                        results: self.results,
                        session: Some(session),
                        pending: PendingView::Fetching { field },
                    },
                    StepView::ask(Seq::empty(), NextView::FetchField { field, item_id, session }),
                ),
                None => match source {
                    SessionSource::Environment => (
                        self.waiting_for(
                            PendingView::CopyNeedsSession {
                                item_id,
                                field,
                                source: SessionSource::CredentialStore,
                            },
                        ),
                        StepView::ask(
                            Seq::empty(),
                            NextView::ResolveSession { source: SessionSource::CredentialStore },
                        ),
                    ),
                    SessionSource::CredentialStore => (
                        self.waiting_for(PendingView::Idle),
                        StepView::say(seq![ResponseView::Close]),
                    ),
                },
            },
            _ => (self, StepView::silent()),
        }
    }

    /// The rows that answer a search, without the closing `Finished`.
    pub open spec fn search_rows(query: Seq<char>, reply: SearchReplyView) -> Seq<ResponseView> {
        match reply {
            SearchReplyView::Unavailable(reason) => seq![
                ResponseView::Append(error_row("Failed to run bw"@, reason)),
            ],
            SearchReplyView::Failed(diagnostic) => if session_rejected(diagnostic) {
                seq![
                    ResponseView::Append(
                        error_row("Session expired"@, "Run 'bw unlock' and store session again"@),
                    ),
                ]
            } else {
                seq![ResponseView::Append(error_row("Bitwarden error"@, diagnostic))]
            },
            SearchReplyView::Malformed(reason) => seq![
                ResponseView::Append(error_row("Parse error"@, reason)),
            ],
            SearchReplyView::Items(items) => if items.len() == 0 {
                seq![ResponseView::Append(error_row("No results"@, no_results_message(query)))]
            } else {
                rows_of(first_n(items, MAX_RESULTS as int))
            },
        }
    }

    /// The table after a search was answered.
    pub open spec fn search_table(reply: SearchReplyView) -> Map<u32, ItemView> {
        match reply {
            SearchReplyView::Items(items) => table_of(first_n(items, MAX_RESULTS as int)),
            _ => Map::empty(),
        }
    }

    /// The session token after a search was answered: forgotten when the
    /// vault rejected it, kept otherwise.
    pub open spec fn search_session(self, reply: SearchReplyView) -> Option<Seq<char>> {
        match reply {
            SearchReplyView::Failed(diagnostic) => if session_rejected(diagnostic) {
                None
            } else {
                self.session
            },
            _ => self.session,
        }
    }

    /// The driver reports how the vault search ended.
    ///
    /// While a search is in flight the answer becomes the rows of the burst,
    /// closed by `Finished`, and the items listed become the table. An answer
    /// that the plugin did not ask for changes nothing.
    pub open spec fn search_replied(self, reply: SearchReplyView) -> (PluginView, StepView) {
        match self.pending {
            PendingView::Searching { query } => (
                PluginView {
                    results: Self::search_table(reply),
                    session: self.search_session(reply),
                    pending: PendingView::Idle,
                },
                StepView::say(Self::search_rows(query, reply).push(ResponseView::Finished)),
            ),
            _ => (self, StepView::silent()),
        }
    }

    /// The host asks to copy `field` of the row `id`.
    ///
    /// For a row that is not in the table nothing happens. Otherwise the
    /// plugin asks for the field if it holds a session token, and for the
    /// token if not. Whatever comes of it, the burst of a row that is in the
    /// table ends with `Close`.
    pub open spec fn copy_started(self, id: u32, field: CredentialType) -> (PluginView, StepView) {
        if !self.results.dom().contains(id) {
            (self.waiting_for(PendingView::Idle), StepView::silent())
        } else {
            let item_id = self.results[id].id;
            match self.session {
                Some(session) => (
                    self.waiting_for(PendingView::Fetching { field }),
                    StepView::ask(Seq::empty(), NextView::FetchField { field, item_id, session }),
                ),
                None => (
                    self.waiting_for(
                        PendingView::CopyNeedsSession {
                            item_id,
                            field,
                            source: SessionSource::Environment,
                        },
                    ),
                    StepView::ask(
                        Seq::empty(),
                        NextView::ResolveSession { source: SessionSource::Environment },
                    ),
                ),
            }
        }
    }

    /// The side effect that answers the retrieval of a field.
    pub open spec fn field_effect(field: CredentialType, reply: FieldReplyView) -> EffectView {
        match reply {
            FieldReplyView::Value(value) => EffectView::CopyToClipboard(trim(value)),
            FieldReplyView::Failed(diagnostic) => EffectView::Log(
                fetch_failure_message(field, diagnostic),
            ),
            FieldReplyView::Unavailable(reason) => EffectView::Log(launch_failure_message(reason)),
        }
    }

    /// The driver reports how the retrieval of a field ended.
    ///
    /// While a retrieval is in flight the value goes to the clipboard, or the
    /// failure to the diagnostic output, and `Close` is sent either way. An
    /// answer that the plugin did not ask for changes nothing.
    pub open spec fn field_replied(self, reply: FieldReplyView) -> (PluginView, StepView) {
        match self.pending {
            PendingView::Fetching { field } => (
                self.waiting_for(PendingView::Idle),
                StepView::act(Some(Self::field_effect(field, reply)), seq![ResponseView::Close]),
            ),
            _ => (self, StepView::silent()),
        }
    }

    /// The host asks for the default action of the row `id`: copy the
    /// password.
    pub open spec fn activated(self, id: u32) -> (PluginView, StepView) {
        self.copy_started(id, CredentialType::Password)
    }

    /// The host asks for the secondary action `context` of the row `id`.
    /// A selector that stands for no field is ignored.
    pub open spec fn context_activated(self, id: u32, context: u32) -> (PluginView, StepView) {
        match selected_field(context) {
            Some(field) => self.copy_started(id, field),
            None => (self.waiting_for(PendingView::Idle), StepView::silent()),
        }
    }

    /// The host asks for the secondary actions of the row `id`. The state
    /// does not change.
    pub open spec fn context_requested(self, id: u32) -> StepView {
        if self.results.dom().contains(id) {
            StepView::say(
                seq![ResponseView::Context { id, options: context_options(self.results[id]) }],
            )
        } else {
            StepView::silent()
        }
    }

    /// A request arrives. Whatever was in flight is abandoned. `Complete`,
    /// `Quit` and `Interrupt` are answered with `Finished` alone, and `Exit`
    /// ends the session.
    pub open spec fn requested(self, request: RequestView) -> (PluginView, StepView) {
        let idle = self.waiting_for(PendingView::Idle);
        match request {
            RequestView::Search(query) => idle.search_started(query),
            RequestView::Activate(id) => idle.activated(id),
            RequestView::ActivateContext { id, context } => idle.context_activated(id, context),
            RequestView::Context(id) => (idle, idle.context_requested(id)),
            RequestView::Exit => (idle, StepView::leave()),
            RequestView::Complete(_) | RequestView::Quit(_) | RequestView::Interrupt => (
                idle,
                StepView::say(seq![ResponseView::Finished]),
            ),
        }
    }

    /// A line of input arrives. An empty line and a line that stands for no
    /// request are skipped: nothing changes and nothing is sent.
    pub open spec fn line_received(self, line: Seq<char>) -> (PluginView, StepView) {
        if line.len() == 0 {
            (self, StepView::silent())
        } else {
            match decoded(line) {
                Some(request) => self.requested(request),
                None => (self, StepView::silent()),
            }
        }
    }
}

} // verus!
