//! The vault plugin's session state and its handlers.

use crate::codec::reader::decode;
use crate::listing::first_n;
use crate::protocol::{
    send, send_error_result, send_finished, ContextOption, PluginResponse, PluginSearchResult,
    Request, ResponseView,
};
use crate::step::{no_replies, CredentialType, Effect, Next, SessionSource, Step, StepView};
use crate::text::{concat, concat3, contains, domain_of, strip_keyword, trimmed};
use crate::vault::items::{has_totp, BitwardenItem, FieldReply, ItemView, SearchReply};
use crate::vault::laws::{
    lemma_empty_table_well_formed, lemma_replied_well_formed, lemma_requested_well_formed,
};
use crate::vault::model::{
    context_options, item_row, rows_of, selected_field, session_rejected, table_of,
    PendingView, PluginView, MAX_RESULTS,
};
use std::collections::HashMap;
use vstd::prelude::*;
use vstd::string::*;

verus! {

/// The outside work that the plugin is waiting for.
#[derive(Debug, Clone, PartialEq, Eq)]
pub enum Pending {
    Idle,
    SearchNeedsSession { query: String, source: SessionSource },
    Searching { query: String },
    CopyNeedsSession { item_id: String, field: CredentialType, source: SessionSource },
    Fetching { field: CredentialType },
}

impl View for Pending {
    type V = PendingView;

    open spec fn view(&self) -> PendingView {
        match self {
            Pending::Idle => PendingView::Idle,
            Pending::SearchNeedsSession { query, source } => PendingView::SearchNeedsSession {
                query: query@,
                source: *source,
            },
            Pending::Searching { query } => PendingView::Searching { query: query@ },
            Pending::CopyNeedsSession { item_id, field, source } => PendingView::CopyNeedsSession {
                item_id: item_id@,
                field: *field,
                source: *source,
            },
            Pending::Fetching { field } => PendingView::Fetching { field: *field },
        }
    }
}

/// The views of the items of a table, under the same identifiers.
pub open spec fn table_view(results: Map<u32, BitwardenItem>) -> Map<u32, ItemView> {
    Map::new(|id: u32| results.dom().contains(id), |id: u32| results[id]@)
}

/// The vault plugin: the rows of the last search, the session token and the
/// outside work in flight.
pub struct Plugin {
    results: HashMap<u32, BitwardenItem>,
    session: Option<String>,
    pending: Pending,
}

impl View for Plugin {
    type V = PluginView;

    closed spec fn view(&self) -> PluginView {
        PluginView {
            results: table_view(self.results@),
            session: self.session.deep_view(),
            pending: self.pending@,
        }
    }
}

/// The secondary actions of an item, in the order of their selectors.
pub fn context_menu(item: &BitwardenItem) -> (options: Vec<ContextOption>)
    ensures
        options.deep_view() == context_options(item@),
{
    let mut options: Vec<ContextOption> = Vec::new();
    options.push(ContextOption { id: 0, name: "Copy password".to_owned() });
    options.push(ContextOption { id: 1, name: "Copy username".to_owned() });
    if has_totp(item) {
        options.push(ContextOption { id: 2, name: "Copy TOTP code".to_owned() });
    }
    assert(options.deep_view() =~= context_options(item@));
    options
}

/// The field that a context selector stands for.
pub fn field_of_selector(context: u32) -> (field: Option<CredentialType>)
    ensures
        field == selected_field(context),
{
    if context == 0 {
        Some(CredentialType::Password)
    } else if context == 1 {
        Some(CredentialType::Username)
    } else if context == 2 {
        Some(CredentialType::Totp)
    } else {
        None
    }
}

/// Tells whether the vault tool's diagnostic output says that the session
/// token is no longer good.
pub fn is_session_rejected(diagnostic: &str) -> (b: bool)
    ensures
        b == session_rejected(diagnostic@),
{
    contains(diagnostic, "Invalid session") || contains(diagnostic, "not logged in")
}

impl Plugin {
    /// A plugin at the start of a session: no rows, no token, nothing in
    /// flight.
    pub fn new() -> (plugin: Self)
        ensures
            plugin@ == PluginView::fresh(),
            plugin@.well_formed(),
    {
        let plugin = Plugin { results: HashMap::new(), session: None, pending: Pending::Idle };
        assert(plugin@.results =~= Map::empty());
        proof {
            lemma_empty_table_well_formed(plugin@);
        }
        plugin
    }

    /// The number of rows in the table.
    pub fn result_count(&self) -> (n: usize)
        ensures
            n == self@.results.dom().len(),
            self@.well_formed() ==> n <= MAX_RESULTS,
    {
        proof {
            assert(self@.results.dom() =~= self.results@.dom());
        }
        self.results.len()
    }

    /// The item listed under `id`, if there is one.
    pub fn result(&self, id: u32) -> (item: Option<&BitwardenItem>)
        ensures
            item.deep_view() == (if self@.results.dom().contains(id) {
                Some(self@.results[id])
            } else {
                None
            }),
    {
        self.results.get(&id)
    }

    /// The session token that the plugin holds, if any.
    pub fn get_session(&self) -> (session: Option<String>)
        ensures
            session.deep_view() == self@.session,
    {
        match &self.session {
            Some(session) => Some(session.clone()),
            None => None,
        }
    }

    /// Forgets the session token, so that the next search looks it up again.
    pub fn invalidate_session(&mut self)
        ensures
            final(self)@ == (PluginView { session: None, ..old(self)@ }),
            old(self)@.well_formed() ==> final(self)@.well_formed(),
    {
        self.session = None;
    }

    /// Handles a search request: see [`PluginView::search_started`].
    pub fn handle_search(&mut self, query: &str) -> (step: Step)
        ensures
            (final(self)@, step@) == old(self)@.search_started(query@),
            final(self)@.well_formed(),
    {
        self.results.clear();
        self.pending = Pending::Idle;
        assert(self@.results =~= Map::empty());
        proof {
            lemma_empty_table_well_formed(self@);
        }
        let mut replies = no_replies();
        send(&mut replies, PluginResponse::Clear);
        let text = strip_keyword(query, "bw ");
        if text.as_str().unicode_len() == 0 {
            let row = PluginSearchResult::plain(
                0,
                "Bitwarden Search".to_owned(),
                "Type to search your vault...".to_owned(),
                "bitwarden",
            );
            send(&mut replies, PluginResponse::Append(row));
            send_finished(&mut replies);
            assert(replies.deep_view() =~= old(self)@.search_started(query@).1.replies);
            return Step::say(replies);
        }
        assert(replies.deep_view() =~= seq![ResponseView::Clear]);
        match self.get_session() {
            Some(session) => {
                self.pending = Pending::Searching { query: text.clone() };
                Step::ask(replies, Next::SearchVault { query: text, session })
            },
            None => {
                let source = SessionSource::Environment;
                self.pending = Pending::SearchNeedsSession { query: text, source };
                Step::ask(replies, Next::ResolveSession { source })
            },
        }
    }

    /// Takes what the lookup of the session token found: see
    /// [`PluginView::session_resolved`].
    pub fn session_resolved(&mut self, found: Option<String>) -> (step: Step)
        ensures
            (final(self)@, step@) == old(self)@.session_resolved(found.deep_view()),
            old(self)@.well_formed() ==> final(self)@.well_formed(),
    {
        let mut pending = Pending::Idle;
        std::mem::swap(&mut pending, &mut self.pending);
        match pending {
            Pending::SearchNeedsSession { query, source } => match found {
                Some(session) => {
                    self.session = Some(session.clone());
                    self.pending = Pending::Searching { query: query.clone() };
                    Step::ask(no_replies(), Next::SearchVault { query, session })
                },
                None => match source {
                    SessionSource::Environment => {
                        let source = SessionSource::CredentialStore;
                        self.pending = Pending::SearchNeedsSession { query, source };
                        Step::ask(no_replies(), Next::ResolveSession { source })
                    },
                    SessionSource::CredentialStore => {
                        let mut replies = no_replies();
                        send_error_result(
                            &mut replies,
                            "Vault locked",
                            "Run 'bw unlock' and store session with 'bw-session-store'",
                        );
                        send_finished(&mut replies);
                        assert(replies.deep_view() =~= old(self)@.session_resolved(
                            found.deep_view(),
                        ).1.replies);
                        Step::say(replies)
                    },
                },
            },
            Pending::CopyNeedsSession { item_id, field, source } => match found {
                Some(session) => {
                    self.session = Some(session.clone());
                    self.pending = Pending::Fetching { field };
                    Step::ask(no_replies(), Next::FetchField { field, item_id, session })
                },
                None => match source {
                    SessionSource::Environment => {
                        let source = SessionSource::CredentialStore;
                        self.pending = Pending::CopyNeedsSession { item_id, field, source };
                        Step::ask(no_replies(), Next::ResolveSession { source })
                    },
                    SessionSource::CredentialStore => {
                        let mut replies = no_replies();
                        send(&mut replies, PluginResponse::Close);
                        assert(replies.deep_view() =~= seq![ResponseView::Close]);
                        Step::say(replies)
                    },
                },
            },
            other => {
                self.pending = other;
                Step::silent()
            },
        }
    }

    /// Renders the one-line description under which an item is listed.
    pub fn format_item_description(&self, item: &BitwardenItem) -> (out: String)
        ensures
            out@ == item@.description(),
    {
        let mut username: Option<&String> = None;
        let mut domain: Option<String> = None;
        if let Some(login) = &item.login {
            username = login.username.as_ref();
            if login.uris.len() > 0 {
                if let Some(uri) = &login.uris[0].uri {
                    domain = Some(domain_of(uri.as_str()));
                }
            }
        }
        match (username, domain) {
            (Some(username), Some(domain)) => concat3(
                username.as_str(),
                " \u{2022} ",
                domain.as_str(),
            ),
            (Some(username), None) => username.clone(),
            (None, Some(domain)) => domain,
            (None, None) => "Login item".to_owned(),
        }
    }

    /// Lists the items of a search answer: one row each, in the order given,
    /// and the same items into the table under the same identifiers.
    fn list_items(&mut self, items: Vec<BitwardenItem>, replies: &mut Vec<PluginResponse>)
        requires
            old(self)@.results == Map::<u32, ItemView>::empty(),
        ensures
            final(self)@ == (PluginView {
                results: table_of(first_n(items.deep_view(), MAX_RESULTS as int)),
                ..old(self)@
            }),
            final(replies).deep_view() == old(replies).deep_view() + rows_of(
                first_n(items.deep_view(), MAX_RESULTS as int),
            ),
    {
        let ghost all = items.deep_view();
        let ghost before = replies.deep_view();
        let mut items = items;
        items.truncate(MAX_RESULTS);
        let ghost kept = items.deep_view();
        assert(kept =~= first_n(all, MAX_RESULTS as int));
        assert(self@.results =~= table_of(kept.take(0)));
        assert(replies.deep_view() =~= before + rows_of(kept.take(0)));
        let mut id: u32 = 0;
        for item in it: items
            invariant
                id == it.index(),
                it.seq().len() <= MAX_RESULTS,
                it.seq().len() == kept.len(),
                forall|j: int| 0 <= j < kept.len() ==> (#[trigger] it.seq()[j])@ == kept[j],
                self@ == (PluginView { results: table_of(kept.take(id as int)), ..old(self)@ }),
                replies.deep_view() == before + rows_of(kept.take(id as int)),
        {
            let description = self.format_item_description(&item);
            let row = PluginSearchResult::plain(id, item.name.clone(), description, "dialog-password");
            let ghost table_before = self.results@;
            let ghost replies_before = replies.deep_view();
            self.results.insert(id, item);
            send(replies, PluginResponse::Append(row));
            proof {
                let want = table_of(kept.take(id as int + 1));
                let have = table_view(self.results@);
                assert forall|k: u32| #[trigger] have.dom().contains(k) == want.dom().contains(
                    k,
                ) by {
                    assert(table_view(table_before).dom().contains(k) == table_of(
                        kept.take(id as int),
                    ).dom().contains(k));
                }
                assert forall|k: u32| #[trigger] have.dom().contains(k) implies have[k] == want[k] by {
                    if k != id {
                        assert(table_view(table_before).dom().contains(k));
                        assert(table_view(table_before)[k] == table_of(kept.take(id as int))[k]);
                    }
                }
                assert(have =~= want);
                assert(row@ == item_row(id, kept[id as int]));
                assert(replies.deep_view() =~= before + rows_of(kept.take(id as int + 1)));
            }
            id = id + 1;
        }
        assert(kept.take(id as int) =~= kept);
    }

    /// Takes the vault's answer to a search: see
    /// [`PluginView::search_replied`].
    pub fn search_replied(&mut self, reply: SearchReply) -> (step: Step)
        ensures
            (final(self)@, step@) == old(self)@.search_replied(reply@),
            old(self)@.well_formed() ==> final(self)@.well_formed(),
    {
        proof {
            if old(self)@.well_formed() {
                lemma_replied_well_formed(old(self)@, reply@);
            }
        }
        let mut pending = Pending::Idle;
        std::mem::swap(&mut pending, &mut self.pending);
        match pending {
            Pending::Searching { query } => {
                self.results.clear();
                assert(self@.results =~= Map::empty());
                let mut replies = no_replies();
                match reply {
                    SearchReply::Unavailable(reason) => {
                        send_error_result(&mut replies, "Failed to run bw", reason.as_str());
                    },
                    SearchReply::Failed(diagnostic) => {
                        if is_session_rejected(diagnostic.as_str()) {
                            self.invalidate_session();
                            send_error_result(
                                &mut replies,
                                "Session expired",
                                "Run 'bw unlock' and store session again",
                            );
                        } else {
                            send_error_result(&mut replies, "Bitwarden error", diagnostic.as_str());
                        }
                    },
                    SearchReply::Malformed(reason) => {
                        send_error_result(&mut replies, "Parse error", reason.as_str());
                    },
                    SearchReply::Items(items) => {
                        if items.len() == 0 {
                            let message = concat3("No items found for '", query.as_str(), "'");
                            send_error_result(&mut replies, "No results", message.as_str());
                        } else {
                            self.list_items(items, &mut replies);
                        }
                    },
                }
                assert(replies.deep_view() =~= PluginView::search_rows(query@, reply@));
                send_finished(&mut replies);
                assert(self@.results == PluginView::search_table(reply@));
                Step::say(replies)
            },
            other => {
                self.pending = other;
                Step::silent()
            },
        }
    }

    /// Starts copying `field` of the row `id`: see
    /// [`PluginView::copy_started`].
    pub fn copy_credential(&mut self, id: u32, credential_type: CredentialType) -> (step: Step)
        ensures
            (final(self)@, step@) == old(self)@.copy_started(id, credential_type),
            old(self)@.well_formed() ==> final(self)@.well_formed(),
    {
        self.pending = Pending::Idle;
        let item_id = match self.results.get(&id) {
            Some(item) => item.id.clone(),
            None => {
                return Step::silent();
            },
        };
        match self.get_session() {
            Some(session) => {
                self.pending = Pending::Fetching { field: credential_type };
                Step::ask(no_replies(), Next::FetchField { field: credential_type, item_id, session })
            },
            None => {
                let source = SessionSource::Environment;
                self.pending = Pending::CopyNeedsSession { item_id, field: credential_type, source };
                Step::ask(no_replies(), Next::ResolveSession { source })
            },
        }
    }

    /// Takes the vault's answer to the retrieval of a field: see
    /// [`PluginView::field_replied`].
    pub fn field_replied(&mut self, reply: FieldReply) -> (step: Step)
        ensures
            (final(self)@, step@) == old(self)@.field_replied(reply@),
            old(self)@.well_formed() ==> final(self)@.well_formed(),
    {
        let mut pending = Pending::Idle;
        std::mem::swap(&mut pending, &mut self.pending);
        match pending {
            Pending::Fetching { field } => {
                let effect = match reply {
                    FieldReply::Value(value) => Effect::CopyToClipboard(trimmed(value.as_str())),
                    FieldReply::Failed(diagnostic) => {
                        let mut message = concat3("Failed to get ", field.label_name(), ": ");
                        message.append(diagnostic.as_str());
                        Effect::Log(message)
                    },
                    FieldReply::Unavailable(reason) => {
                        Effect::Log(concat("Failed to run bw: ", reason.as_str()))
                    },
                };
                let mut replies = no_replies();
                send(&mut replies, PluginResponse::Close);
                assert(replies.deep_view() =~= seq![ResponseView::Close]);
                Step::act(Some(effect), replies)
            },
            other => {
                self.pending = other;
                Step::silent()
            },
        }
    }

    /// Handles the default action of a row, which copies the password: see
    /// [`PluginView::activated`].
    pub fn handle_activate(&mut self, id: u32) -> (step: Step)
        ensures
            (final(self)@, step@) == old(self)@.activated(id),
            !old(self)@.results.dom().contains(id) ==> step@ == StepView::silent(),
            old(self)@.well_formed() ==> final(self)@.well_formed(),
    {
        self.copy_credential(id, CredentialType::Password)
    }

    /// Handles a secondary action of a row: see
    /// [`PluginView::context_activated`].
    pub fn handle_activate_context(&mut self, id: u32, context: u32) -> (step: Step)
        ensures
            (final(self)@, step@) == old(self)@.context_activated(id, context),
            old(self)@.well_formed() ==> final(self)@.well_formed(),
    {
        match field_of_selector(context) {
            Some(field) => self.copy_credential(id, field),
            None => {
                self.pending = Pending::Idle;
                Step::silent()
            },
        }
    }

    /// Lists the secondary actions of a row: see
    /// [`PluginView::context_requested`].
    pub fn handle_context(&self, id: u32) -> (step: Step)
        ensures
            step@ == self@.context_requested(id),
    {
        match self.results.get(&id) {
            Some(item) => {
                let mut replies = no_replies();
                send(&mut replies, PluginResponse::Context { id, options: context_menu(item) });
                assert(replies.deep_view() =~= self@.context_requested(id).replies);
                Step::say(replies)
            },
            None => Step::silent(),
        }
    }

    /// Handles one request: see [`PluginView::requested`].
    pub fn dispatch(&mut self, request: Request) -> (step: Step)
        ensures
            (final(self)@, step@) == old(self)@.requested(request@),
            old(self)@.well_formed() ==> final(self)@.well_formed(),
    {
        proof {
            if old(self)@.well_formed() {
                lemma_requested_well_formed(old(self)@, request@);
            }
        }
        self.pending = Pending::Idle;
        match request {
            Request::Search(query) => self.handle_search(query.as_str()),
            Request::Activate(id) => self.handle_activate(id),
            Request::ActivateContext { id, context } => self.handle_activate_context(id, context),
            Request::Context(id) => self.handle_context(id),
            Request::Exit => Step::leave(),
            Request::Complete(_) => Step::finished(),
            Request::Quit(_) => Step::finished(),
            Request::Interrupt => Step::finished(),
        }
    }

    /// Handles one line of input: see [`PluginView::line_received`].
    pub fn handle_line(&mut self, line: &str) -> (step: Step)
        ensures
            (final(self)@, step@) == old(self)@.line_received(line@),
            old(self)@.well_formed() ==> final(self)@.well_formed(),
    {
        if line.unicode_len() == 0 {
            return Step::silent();
        }
        match decode(line) {
            Some(request) => self.dispatch(request),
            None => Step::silent(),
        }
    }
}

} // verus!
