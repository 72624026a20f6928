//! What holds of every session of the vault plugin.

use crate::codec::reader::decoded;
use crate::listing::{first_n, lemma_first_n};
use crate::protocol::{plain_row, RequestView, ResponseView};
use crate::step::{CredentialType, NextView, SessionSource, StepView};
use crate::text::query_text;
use crate::vault::items::{FieldReplyView, ItemView, SearchReplyView};
use crate::vault::model::{
    context_options, keyword, rows_of, selected_field, session_rejected, table_of, PendingView,
    PluginView, MAX_RESULTS,
};
use vstd::math::min;
use vstd::prelude::*;

verus! {

/// What the world outside answers while one request is handled: what each
/// lookup of the session token finds, and what the vault says to a search
/// and to the retrieval of a field. Of these only the ones that the plugin
/// asks for come into play.
pub struct Answers {
    pub from_environment: Option<Seq<char>>,
    pub from_store: Option<Seq<char>>,
    pub search: SearchReplyView,
    pub field: FieldReplyView,
}

impl Answers {
    /// What the lookup of the session token in `source` finds.
    pub open spec fn session_from(self, source: SessionSource) -> Option<Seq<char>> {
        match source {
            SessionSource::Environment => self.from_environment,
            SessionSource::CredentialStore => self.from_store,
        }
    }
}

/// The step that sends nothing and passes a request for outside work on.
pub open spec fn passed_on(next: NextView) -> StepView {
    StepView { effect: None, replies: Seq::empty(), next }
}

/// The step after `step`: the driver does the outside work that `step` asks
/// for and hands the answer to the plugin. Where `step` asks for nothing,
/// nothing happens.
pub open spec fn answered(state: PluginView, step: StepView, answers: Answers) -> (
    PluginView,
    StepView,
) {
    match step.next {
        NextView::ResolveSession { source } => state.session_resolved(
            answers.session_from(source),
        ),
        NextView::SearchVault { .. } => state.search_replied(answers.search),
        NextView::FetchField { .. } => state.field_replied(answers.field),
        _ => (state, passed_on(step.next)),
    }
}

/// One request from its arrival to the end of its burst: the state
/// afterwards, every message sent on the way, in order, and what the plugin
/// asks for at the end. The plugin asks for outside work at most three times
/// in a row: for the session token twice and for the vault once.
pub open spec fn request_outcome(state: PluginView, request: RequestView, answers: Answers) -> (
    PluginView,
    Seq<ResponseView>,
    NextView,
) {
    let (arrived, first) = state.requested(request);
    let (looked, second) = answered(arrived, first, answers);
    let (resolved, third) = answered(looked, second, answers);
    let (ended, fourth) = answered(resolved, third, answers);
    (ended, first.replies + second.replies + third.replies + fourth.replies, fourth.next)
}

/// Whether a search with these inputs gets as far as asking the vault: the
/// query is not empty, and a session token is held or found.
pub open spec fn reaches_vault(state: PluginView, query: Seq<char>, answers: Answers) -> bool {
    query_text(query, keyword()).len() > 0 && session_in_force(state, answers) is Some
}

/// The session token with which the plugin asks the vault: the one that the
/// plugin holds, else the one in the environment, else the one in the
/// credential store.
pub open spec fn session_in_force(state: PluginView, answers: Answers) -> Option<Seq<char>> {
    if state.session is Some {
        state.session
    } else if answers.from_environment is Some {
        answers.from_environment
    } else {
        answers.from_store
    }
}

/// The items that a search lists: the first `MAX_RESULTS` of the vault's
/// answer if the vault was asked and answered with a list, none otherwise.
pub open spec fn listed_items(asked: bool, reply: SearchReplyView) -> Seq<ItemView> {
    if asked && reply is Items {
        first_n(reply->Items_0, MAX_RESULTS as int)
    } else {
        Seq::empty()
    }
}

/// The answer to an activation: `Close` alone if the row is in the table,
/// nothing if it is not.
pub open spec fn closed_if_listed(state: PluginView, id: u32) -> Seq<ResponseView> {
    if state.results.dom().contains(id) {
        seq![ResponseView::Close]
    } else {
        Seq::empty()
    }
}

/// The shape of the answer to a search: `Clear` first, `Finished` last, and
/// rows in between.
pub open spec fn is_search_burst(burst: Seq<ResponseView>) -> bool {
    &&& burst.len() >= 2
    &&& burst[0] == ResponseView::Clear
    &&& burst.last() == ResponseView::Finished
    &&& forall|i: int| 0 < i < burst.len() - 1 ==> #[trigger] burst[i] is Append
}

/// Whatever the query, the state before it, the outcome of the token
/// lookups and the vault's answer: the burst of a search is one `Clear`,
/// then rows only, then one `Finished`.
pub proof fn lemma_search_burst(state: PluginView, query: Seq<char>, answers: Answers)
    ensures
        is_search_burst(request_outcome(state, RequestView::Search(query), answers).1),
{
    let text = query_text(query, keyword());
    let burst = request_outcome(state, RequestView::Search(query), answers).1;
    if reaches_vault(state, query, answers) {
        let rows = PluginView::search_rows(text, answers.search);
        assert forall|i: int| 0 <= i < rows.len() implies #[trigger] rows[i] is Append by {}
        assert(burst =~= seq![ResponseView::Clear] + rows.push(ResponseView::Finished));
    } else {
        assert(burst.len() == 3);
    }
}

/// Every request is handled to its end: after at most three answers from
/// outside the plugin asks for nothing more and has nothing in flight. Only
/// `Exit` ends the session.
pub proof fn lemma_request_completes(state: PluginView, request: RequestView, answers: Answers)
    ensures
        ({
            let (after, burst, next) = request_outcome(state, request, answers);
            &&& after.pending == PendingView::Idle
            &&& next == (if request is Exit {
                NextView::Exit
            } else {
                NextView::Done
            })
        }),
{
}

/// The burst of every request ends as its kind of request demands: a search
/// with one `Finished`; `Complete`, `Quit` and `Interrupt` with `Finished`
/// alone; an activation of a row that is in the table with `Close` alone,
/// and never with `Finished`, whether or not a session token was found and
/// whatever the vault answered; a request for the context menu with the
/// menu alone. Where the row is not in the table, or the selector of an
/// activation stands for no field, nothing is sent, and `Exit` is answered
/// with nothing.
pub proof fn lemma_burst_shape(state: PluginView, request: RequestView, answers: Answers)
    ensures
        ({
            let burst = request_outcome(state, request, answers).1;
            match request {
                RequestView::Search(query) => is_search_burst(burst),
                RequestView::Complete(_) | RequestView::Quit(_) | RequestView::Interrupt => burst
                    == seq![ResponseView::Finished],
                RequestView::Activate(id) => burst == closed_if_listed(state, id),
                RequestView::ActivateContext { id, context } => burst == (if selected_field(
                    context,
                ) is Some {
                    closed_if_listed(state, id)
                } else {
                    Seq::empty()
                }),
                RequestView::Context(id) => burst == (if state.results.dom().contains(id) {
                    seq![ResponseView::Context { id, options: context_options(state.results[id]) }]
                } else {
                    Seq::empty()
                }),
                RequestView::Exit => burst == Seq::<ResponseView>::empty(),
            }
        }),
{
    let burst = request_outcome(state, request, answers).1;
    match request {
        RequestView::Search(query) => {
            lemma_search_burst(state, query, answers);
        },
        RequestView::Activate(id) => {
            assert(burst =~= seq![ResponseView::Close] || burst =~= Seq::<ResponseView>::empty());
        },
        RequestView::ActivateContext { id, context } => {
            assert(burst =~= seq![ResponseView::Close] || burst =~= Seq::<ResponseView>::empty());
        },
        RequestView::Complete(_) | RequestView::Quit(_) | RequestView::Interrupt => {
            assert(burst =~= seq![ResponseView::Finished]);
        },
        RequestView::Context(id) => {
            assert(burst =~= state.context_requested(id).replies);
        },
        RequestView::Exit => {
            assert(burst =~= Seq::<ResponseView>::empty());
        },
    }
}

/// After a search the table holds the first `MAX_RESULTS` items of the
/// vault's answer, each under its position in that answer, and nothing
/// else: of `n` items it holds `min(n, MAX_RESULTS)`, under the identifiers
/// from zero up. It is empty when the vault was not asked or gave no list.
pub proof fn lemma_search_table(state: PluginView, query: Seq<char>, answers: Answers)
    ensures
        ({
            let after = request_outcome(state, RequestView::Search(query), answers).0;
            let asked = reaches_vault(state, query, answers);
            let listed = listed_items(asked, answers.search);
            &&& asked && answers.search is Items ==> listed.len() == min(
                answers.search->Items_0.len() as int,
                MAX_RESULTS as int,
            )
            &&& asked && answers.search is Items ==> forall|i: int|
                0 <= i < listed.len() ==> listed[i] == answers.search->Items_0[i]
            &&& after.results == table_of(listed)
            &&& after.results.dom().finite()
            &&& after.results.dom().len() == listed.len()
            &&& forall|id: u32| after.results.dom().contains(id) <==> (id as int) < listed.len()
            &&& forall|id: u32|
                (id as int) < listed.len() ==> #[trigger] after.results[id] == listed[id as int]
        }),
{
    let after = request_outcome(state, RequestView::Search(query), answers).0;
    let asked = reaches_vault(state, query, answers);
    let listed = listed_items(asked, answers.search);
    if asked && answers.search is Items {
        lemma_first_n(answers.search->Items_0, MAX_RESULTS as int);
    }
    assert(after.results =~= table_of(listed));
    lemma_table_size(listed);
}

/// A search that the vault answers with items lists the first
/// `MAX_RESULTS` of them: the burst is `Clear`, one row per listed item in
/// the order of the answer, and `Finished`. The row of an item carries the
/// item's position as its identifier, its name and its description.
pub proof fn lemma_search_rows(state: PluginView, query: Seq<char>, answers: Answers)
    requires
        reaches_vault(state, query, answers),
        answers.search is Items,
        answers.search->Items_0.len() > 0,
    ensures
        ({
            let burst = request_outcome(state, RequestView::Search(query), answers).1;
            let listed = listed_items(true, answers.search);
            &&& burst == seq![ResponseView::Clear] + rows_of(listed) + seq![ResponseView::Finished]
            &&& forall|i: int|
                0 <= i < listed.len() ==> (#[trigger] rows_of(listed)[i]) == ResponseView::Append(
                    plain_row(
                        i as u32,
                        listed[i].name,
                        listed[i].description(),
                        "dialog-password"@,
                    ),
                )
        }),
{
    let burst = request_outcome(state, RequestView::Search(query), answers).1;
    let listed = listed_items(true, answers.search);
    assert(burst =~= seq![ResponseView::Clear] + rows_of(listed) + seq![ResponseView::Finished]);
}

/// A session token is looked up only while the plugin holds none, first in
/// the environment and then in the credential store. The token found is
/// kept, and the one that the vault rejects is forgotten.
pub proof fn lemma_search_session(state: PluginView, query: Seq<char>, answers: Answers)
    ensures
        ({
            let after = request_outcome(state, RequestView::Search(query), answers).0;
            let rejected = answers.search is Failed && session_rejected(answers.search->Failed_0);
            if query_text(query, keyword()).len() == 0 {
                after.session == state.session
            } else if reaches_vault(state, query, answers) && rejected {
                after.session is None
            } else {
                after.session == session_in_force(state, answers)
            }
        }),
{
}

/// A request that names a row which is not in the table is answered with
/// nothing at all: no message, no side effect, no outside work. The table
/// stays as it is.
pub proof fn lemma_unknown_row_is_ignored(state: PluginView, id: u32, context: u32)
    requires
        !state.results.dom().contains(id),
    ensures
        state.activated(id).1 == StepView::silent(),
        state.context_activated(id, context).1 == StepView::silent(),
        state.context_requested(id) == StepView::silent(),
        state.requested(RequestView::Activate(id)).1 == StepView::silent(),
        state.requested(RequestView::ActivateContext { id, context }).1 == StepView::silent(),
        state.requested(RequestView::Context(id)).1 == StepView::silent(),
        state.activated(id).0.results == state.results,
        state.context_activated(id, context).0.results == state.results,
{
}

/// The context menu and the selectors agree: the option at position `k` of
/// an item's menu carries the identifier `k`, and the selector `k` stands
/// for the field that the option names. An item has the two options for
/// password and user name, and a third for the one-time password exactly
/// when it carries one.
pub proof fn lemma_menu_matches_selectors(item: ItemView)
    ensures
        context_options(item).len() == (if item.has_totp() {
            3int
        } else {
            2int
        }),
        forall|k: int|
            0 <= k < context_options(item).len() ==> (#[trigger] context_options(item)[k]).id
                == k,
        context_options(item)[0].name == "Copy password"@ && selected_field(0) == Some(
            CredentialType::Password,
        ),
        context_options(item)[1].name == "Copy username"@ && selected_field(1) == Some(
            CredentialType::Username,
        ),
        item.has_totp() ==> context_options(item)[2].name == "Copy TOTP code"@ && selected_field(2)
            == Some(CredentialType::Totp),
{
}

/// The rows of a search are numbered by position: the row at position `i`
/// carries the identifier `i` and describes the item that the table holds
/// under `i`.
pub proof fn lemma_rows_match_table(items: Seq<ItemView>, i: int)
    requires
        0 <= i < items.len() <= u32::MAX + 1,
    ensures
        rows_of(items)[i] is Append,
        rows_of(items)[i]->Append_0.id == i,
        table_of(items).dom().contains(i as u32),
        rows_of(items)[i]->Append_0.name == table_of(items)[i as u32].name,
        rows_of(items)[i]->Append_0.description == table_of(items)[i as u32].description(),
{
}

/// A table of at most 2^32 items has one entry per item.
pub proof fn lemma_table_size(items: Seq<ItemView>)
    requires
        items.len() <= u32::MAX + 1,
    ensures
        table_of(items).dom().finite(),
        table_of(items).dom().len() == items.len(),
    decreases items.len(),
{
    if items.len() == 0 {
        assert(table_of(items).dom() =~= Set::empty());
    } else {
        let shorter = items.drop_last();
        lemma_table_size(shorter);
        let last = (items.len() - 1) as u32;
        assert(table_of(items).dom() =~= table_of(shorter).dom().insert(last));
    }
}

/// A table filled from a list of at most `MAX_RESULTS` items is numbered
/// from zero without a gap.
pub proof fn lemma_table_well_formed(state: PluginView, items: Seq<ItemView>)
    requires
        items.len() <= MAX_RESULTS,
        state.results == table_of(items),
    ensures
        state.well_formed(),
{
    lemma_table_size(items);
}

/// An empty table is well formed.
pub proof fn lemma_empty_table_well_formed(state: PluginView)
    requires
        state.results == Map::<u32, ItemView>::empty(),
    ensures
        state.well_formed(),
{
    assert(table_of(Seq::<ItemView>::empty()) =~= Map::<u32, ItemView>::empty());
    lemma_table_well_formed(state, Seq::empty());
}

/// The vault's answer to a search leaves the table well formed.
pub proof fn lemma_replied_well_formed(state: PluginView, reply: SearchReplyView)
    requires
        state.well_formed(),
    ensures
        state.search_replied(reply).0.well_formed(),
{
    if state.pending is Searching {
        assert(table_of(Seq::<ItemView>::empty()) =~= Map::<u32, ItemView>::empty());
        lemma_table_well_formed(state.search_replied(reply).0, listed_items(true, reply));
    }
}

/// A request leaves the table well formed.
pub proof fn lemma_requested_well_formed(state: PluginView, request: RequestView)
    requires
        state.well_formed(),
    ensures
        state.requested(request).0.well_formed(),
{
    if request is Search {
        lemma_empty_table_well_formed(state.requested(request).0);
    }
}

/// The table is well formed at the start of a session and stays so whatever
/// arrives: no line of input, no outcome of a lookup and no answer of the
/// vault can leave a gap in the numbering or more than `MAX_RESULTS` rows.
pub proof fn lemma_well_formed_always(state: PluginView)
    requires
        state.well_formed(),
    ensures
        PluginView::fresh().well_formed(),
        forall|line: Seq<char>| (#[trigger] state.line_received(line)).0.well_formed(),
        forall|request: RequestView| (#[trigger] state.requested(request)).0.well_formed(),
        forall|found: Option<Seq<char>>| (#[trigger] state.session_resolved(found)).0.well_formed(),
        forall|reply: SearchReplyView| (#[trigger] state.search_replied(reply)).0.well_formed(),
        forall|reply: FieldReplyView| (#[trigger] state.field_replied(reply)).0.well_formed(),
{
    lemma_empty_table_well_formed(PluginView::fresh());
    assert forall|request: RequestView| (#[trigger] state.requested(request)).0.well_formed() by {
        lemma_requested_well_formed(state, request);
    }
    assert forall|line: Seq<char>| (#[trigger] state.line_received(line)).0.well_formed() by {
        if line.len() > 0 && decoded(line) is Some {
            lemma_requested_well_formed(state, decoded(line)->Some_0);
        }
    }
    assert forall|reply: SearchReplyView| (#[trigger] state.search_replied(reply)).0.well_formed() by {
        lemma_replied_well_formed(state, reply);
    }
}

} // verus!
