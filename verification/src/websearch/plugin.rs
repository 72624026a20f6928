//! The web-search plugin's session state and its handlers.

use crate::codec::reader::decode;
use crate::listing::first_n;
use crate::protocol::{
    send, send_finished, ContextOption, PluginResponse, PluginSearchResult, Request, ResponseView,
};
use crate::step::{no_replies, Effect, Next, Step, StepView};
use crate::text::{concat, concat3, strip_keyword};
use crate::websearch::items::{
    display_description, display_title, Config, ExaResult, SearchReply, MAX_CHARACTERS,
};
use crate::websearch::laws::{
    lemma_empty_table_well_formed, lemma_replied_well_formed, lemma_requested_well_formed,
};
use crate::websearch::model::{
    context_options, problem_row, result_row, rows_of, selected_effect, table_of, PendingView,
    PluginView, MAX_ROWS,
};
use std::collections::HashMap;
use vstd::prelude::*;
use vstd::string::*;

verus! {

/// The outside work that the plugin is waiting for.
#[derive(Debug, Clone, PartialEq, Eq)]
pub enum Pending {
    Idle,
    Searching { query: String },
}

impl View for Pending {
    type V = PendingView;

    open spec fn view(&self) -> PendingView {
        match self {
            Pending::Idle => PendingView::Idle,
            Pending::Searching { query } => PendingView::Searching { query: query@ },
        }
    }
}

/// The views of the addresses of a table, under the same identifiers.
pub open spec fn table_view(results: Map<u32, String>) -> Map<u32, Seq<char>> {
    Map::new(|id: u32| results.dom().contains(id), |id: u32| results[id]@)
}

/// The web-search plugin: the configuration, the addresses of the last
/// search and the outside work in flight.
pub struct Plugin {
    config: Config,
    results: HashMap<u32, String>,
    pending: Pending,
}

impl View for Plugin {
    type V = PluginView;

    closed spec fn view(&self) -> PluginView {
        PluginView {
            config: self.config@,
            results: table_view(self.results@),
            pending: self.pending@,
        }
    }
}

/// The secondary actions of a page, in the order of their selectors.
pub fn context_menu() -> (options: Vec<ContextOption>)
    ensures
        options.deep_view() == context_options(),
{
    let mut options: Vec<ContextOption> = Vec::new();
    options.push(ContextOption { id: 0, name: "Open in browser".to_owned() });
    options.push(ContextOption { id: 1, name: "Copy URL to clipboard".to_owned() });
    assert(options.deep_view() =~= context_options());
    options
}

/// What a context selector does with the address of a page.
pub fn effect_of_selector(context: u32, url: &String) -> (effect: Option<Effect>)
    ensures
        effect.deep_view() == selected_effect(context, url@),
{
    if context == 0 {
        Some(Effect::OpenUrl(url.clone()))
    } else if context == 1 {
        Some(Effect::CopyToClipboard(url.clone()))
    } else {
        None
    }
}

/// Appends the row that reports a problem to the messages of a burst.
pub fn send_error_result(replies: &mut Vec<PluginResponse>, message: &str)
    ensures
        final(replies).deep_view() == old(replies).deep_view().push(
            ResponseView::Append(problem_row(message@)),
        ),
{
    crate::protocol::send_error_result(replies, "Error", message);
}

impl Plugin {
    /// A plugin at the start of a session: no rows, nothing in flight.
    pub fn new(config: Config) -> (plugin: Self)
        ensures
            plugin@ == PluginView::fresh(config@),
            plugin@.well_formed(),
    {
        let plugin = Plugin { config, results: HashMap::new(), pending: Pending::Idle };
        assert(plugin@.results =~= Map::empty());
        proof {
            lemma_empty_table_well_formed(plugin@);
        }
        plugin
    }

    /// The number of rows in the table.
    pub fn result_count(&self) -> (n: usize)
        ensures
            n == self@.results.dom().len(),
            self@.well_formed() ==> n <= MAX_ROWS,
    {
        proof {
            assert(self@.results.dom() =~= self.results@.dom());
        }
        self.results.len()
    }

    /// The address listed under `id`, if there is one.
    pub fn result(&self, id: u32) -> (url: Option<&String>)
        ensures
            url.deep_view() == (if self@.results.dom().contains(id) {
                Some(self@.results[id])
            } else {
                None
            }),
    {
        self.results.get(&id)
    }

    /// The configuration that the plugin was started with.
    pub fn config(&self) -> (config: &Config)
        ensures
            config@ == self@.config,
    {
        &self.config
    }

    /// Handles a search request: see [`PluginView::search_started`].
    pub fn handle_search(&mut self, query: &str) -> (step: Step)
        ensures
            (final(self)@, step@) == old(self)@.search_started(query@),
            final(self)@.well_formed(),
    {
        self.results.clear();
        self.pending = Pending::Idle;
        assert(self@.results =~= Map::empty());
        proof {
            lemma_empty_table_well_formed(self@);
        }
        let mut replies = no_replies();
        send(&mut replies, PluginResponse::Clear);
        let text = strip_keyword(query, "exa ");
        if text.as_str().unicode_len() == 0 {
            let row = PluginSearchResult::plain(
                0,
                "Exa Search".to_owned(),
                "Type to search the web...".to_owned(),
                "web-browser",
            );
            send(&mut replies, PluginResponse::Append(row));
            send_finished(&mut replies);
            assert(replies.deep_view() =~= old(self)@.search_started(query@).1.replies);
            return Step::say(replies);
        }
        match &self.config.api_key {
            Some(api_key) => {
                let next = Next::SearchWeb {
                    query: text.clone(),
                    api_key: api_key.clone(),
                    num_results: self.config.requested_results(),
                    max_characters: MAX_CHARACTERS,
                };
                self.pending = Pending::Searching { query: text };
                assert(replies.deep_view() =~= seq![ResponseView::Clear]);
                Step::ask(replies, next)
            },
            None => {
                send_error_result(&mut replies, "No API key configured");
                send_finished(&mut replies);
                assert(replies.deep_view() =~= old(self)@.search_started(query@).1.replies);
                Step::say(replies)
            },
        }
    }

    /// Lists the pages of a search answer: one row each, in the order given,
    /// and their addresses into the table under the same identifiers.
    fn list_results(&mut self, results: Vec<ExaResult>, replies: &mut Vec<PluginResponse>)
        requires
            old(self)@.results == Map::<u32, Seq<char>>::empty(),
        ensures
            final(self)@ == (PluginView {
                results: table_of(first_n(results.deep_view(), MAX_ROWS as int)),
                ..old(self)@
            }),
            final(replies).deep_view() == old(replies).deep_view() + rows_of(
                first_n(results.deep_view(), MAX_ROWS as int),
            ),
    {
        let ghost all = results.deep_view();
        let ghost before = replies.deep_view();
        let mut results = results;
        results.truncate(MAX_ROWS);
        let ghost kept = results.deep_view();
        assert(kept =~= first_n(all, MAX_ROWS as int));
        assert(self@.results =~= table_of(kept.take(0)));
        assert(replies.deep_view() =~= before + rows_of(kept.take(0)));
        let mut id: u32 = 0;
        for result in it: results
            invariant
                id == it.index(),
                it.seq().len() <= MAX_ROWS,
                it.seq().len() == kept.len(),
                forall|j: int| 0 <= j < kept.len() ==> (#[trigger] it.seq()[j])@ == kept[j],
                self@ == (PluginView { results: table_of(kept.take(id as int)), ..old(self)@ }),
                replies.deep_view() == before + rows_of(kept.take(id as int)),
        {
            let row = PluginSearchResult::plain(
                id,
                display_title(&result),
                display_description(&result),
                "web-browser",
            );
            let ghost table_before = self.results@;
            self.results.insert(id, result.url);
            send(replies, PluginResponse::Append(row));
            proof {
                let want = table_of(kept.take(id as int + 1));
                let have = table_view(self.results@);
                assert forall|k: u32| #[trigger] have.dom().contains(k) == want.dom().contains(
                    k,
                ) by {
                    assert(table_view(table_before).dom().contains(k) == table_of(
                        kept.take(id as int),
                    ).dom().contains(k));
                }
                assert forall|k: u32| #[trigger] have.dom().contains(k) implies have[k] == want[k] by {
                    if k != id {
                        assert(table_view(table_before).dom().contains(k));
                        assert(table_view(table_before)[k] == table_of(kept.take(id as int))[k]);
                    }
                }
                assert(have =~= want);
                assert(row@ == result_row(id, kept[id as int]));
                assert(replies.deep_view() =~= before + rows_of(kept.take(id as int + 1)));
            }
            id = id + 1;
        }
        assert(kept.take(id as int) =~= kept);
    }

    /// Takes the service's answer to a search: see
    /// [`PluginView::search_replied`].
    pub fn search_replied(&mut self, reply: SearchReply) -> (step: Step)
        ensures
            (final(self)@, step@) == old(self)@.search_replied(reply@),
            old(self)@.well_formed() ==> final(self)@.well_formed(),
    {
        proof {
            if old(self)@.well_formed() {
                lemma_replied_well_formed(old(self)@, reply@);
            }
        }
        let mut pending = Pending::Idle;
        std::mem::swap(&mut pending, &mut self.pending);
        match pending {
            Pending::Searching { query } => {
                self.results.clear();
                assert(self@.results =~= Map::empty());
                let mut replies = no_replies();
                match reply {
                    SearchReply::Unreachable(reason) => {
                        let message = concat("Request failed: ", reason.as_str());
                        send_error_result(&mut replies, message.as_str());
                    },
                    SearchReply::Rejected(status) => {
                        let message = concat("API error: ", status.as_str());
                        send_error_result(&mut replies, message.as_str());
                    },
                    SearchReply::Malformed(reason) => {
                        let message = concat("Parse error: ", reason.as_str());
                        send_error_result(&mut replies, message.as_str());
                    },
                    SearchReply::Results(results) => {
                        if results.len() == 0 {
                            let message = concat3("No results found for '", query.as_str(), "'");
                            crate::protocol::send_error_result(
                                &mut replies,
                                "No results",
                                message.as_str(),
                            );
                        } else {
                            self.list_results(results, &mut replies);
                        }
                    },
                }
                assert(replies.deep_view() =~= PluginView::search_rows(query@, reply@));
                send_finished(&mut replies);
                assert(self@.results == PluginView::search_table(reply@));
                Step::say(replies)
            },
            other => {
                self.pending = other;
                Step::silent()
            },
        }
    }

    /// Handles the default action of a row, which opens the page: see
    /// [`PluginView::activated`].
    pub fn handle_activate(&mut self, id: u32) -> (step: Step)
        ensures
            (final(self)@, step@) == old(self)@.activated(id),
            !old(self)@.results.dom().contains(id) ==> step@ == StepView::silent(),
            old(self)@.well_formed() ==> final(self)@.well_formed(),
    {
        self.pending = Pending::Idle;
        match self.results.get(&id) {
            Some(url) => {
                let effect = Effect::OpenUrl(url.clone());
                let mut replies = no_replies();
                send(&mut replies, PluginResponse::Close);
                assert(replies.deep_view() =~= seq![ResponseView::Close]);
                Step::act(Some(effect), replies)
            },
            None => Step::silent(),
        }
    }

    /// Handles a secondary action of a row: see
    /// [`PluginView::context_activated`].
    pub fn handle_activate_context(&mut self, id: u32, context: u32) -> (step: Step)
        ensures
            (final(self)@, step@) == old(self)@.context_activated(id, context),
            old(self)@.well_formed() ==> final(self)@.well_formed(),
    {
        self.pending = Pending::Idle;
        match self.results.get(&id) {
            Some(url) => {
                let effect = effect_of_selector(context, url);
                let mut replies = no_replies();
                send(&mut replies, PluginResponse::Close);
                assert(replies.deep_view() =~= seq![ResponseView::Close]);
                Step::act(effect, replies)
            },
            None => Step::silent(),
        }
    }

    /// Lists the secondary actions of a row: see
    /// [`PluginView::context_requested`].
    pub fn handle_context(&self, id: u32) -> (step: Step)
        ensures
            step@ == self@.context_requested(id),
    {
        if self.results.contains_key(&id) {
            let mut replies = no_replies();
            send(&mut replies, PluginResponse::Context { id, options: context_menu() });
            assert(replies.deep_view() =~= self@.context_requested(id).replies);
            Step::say(replies)
        } else {
            Step::silent()
        }
    }

    /// Handles one request: see [`PluginView::requested`].
    pub fn dispatch(&mut self, request: Request) -> (step: Step)
        ensures
            (final(self)@, step@) == old(self)@.requested(request@),
            old(self)@.well_formed() ==> final(self)@.well_formed(),
    {
        proof {
            if old(self)@.well_formed() {
                lemma_requested_well_formed(old(self)@, request@);
            }
        }
        self.pending = Pending::Idle;
        match request {
            Request::Search(query) => self.handle_search(query.as_str()),
            Request::Activate(id) => self.handle_activate(id),
            Request::ActivateContext { id, context } => self.handle_activate_context(id, context),
            Request::Context(id) => self.handle_context(id),
            Request::Exit => Step::leave(),
            Request::Complete(_) => Step::finished(),
            Request::Quit(_) => Step::finished(),
            Request::Interrupt => Step::finished(),
        }
    }

    /// Handles one line of input: see [`PluginView::line_received`].
    pub fn handle_line(&mut self, line: &str) -> (step: Step)
        ensures
            (final(self)@, step@) == old(self)@.line_received(line@),
            old(self)@.well_formed() ==> final(self)@.well_formed(),
    {
        if line.unicode_len() == 0 {
            return Step::silent();
        }
        match decode(line) {
            Some(request) => self.dispatch(request),
            None => Step::silent(),
        }
    }
}

} // verus!
