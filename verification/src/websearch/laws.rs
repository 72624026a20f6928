//! What holds of every session of the web-search plugin.

use crate::codec::reader::decoded;
use crate::listing::{first_n, lemma_first_n};
use crate::protocol::{plain_row, RequestView, ResponseView};
use crate::step::{EffectView, NextView, StepView};
use crate::text::query_text;
use crate::websearch::items::{ConfigView, ResultView, SearchReplyView};
use crate::websearch::model::{
    context_options, keyword, rows_of, selected_effect, table_of, PendingView, PluginView,
    MAX_ROWS,
};
use vstd::math::min;
use vstd::prelude::*;

verus! {

/// The step that sends nothing and passes a request for outside work on.
pub open spec fn passed_on(next: NextView) -> StepView {
    StepView { effect: None, replies: Seq::empty(), next }
}

/// The step after `step`: the driver asks the service if `step` says so and
/// hands the service's answer to the plugin. Where `step` asks for nothing,
/// nothing happens.
pub open spec fn answered(state: PluginView, step: StepView, reply: SearchReplyView) -> (
    PluginView,
    StepView,
) {
    match step.next {
        NextView::SearchWeb { .. } => state.search_replied(reply),
        _ => (state, passed_on(step.next)),
    }
}

/// One request from its arrival to the end of its burst: the state
/// afterwards, every message sent on the way, in order, and what the plugin
/// asks for at the end. `reply` is what the service answers, should the
/// plugin ask it.
pub open spec fn request_outcome(
    state: PluginView,
    request: RequestView,
    reply: SearchReplyView,
) -> (PluginView, Seq<ResponseView>, NextView) {
    let (arrived, first) = state.requested(request);
    let (ended, second) = answered(arrived, first, reply);
    (ended, first.replies + second.replies, second.next)
}

/// Whether a search with these inputs gets as far as asking the service:
/// the query is not empty and a key is configured.
pub open spec fn reaches_service(state: PluginView, query: Seq<char>) -> bool {
    query_text(query, keyword()).len() > 0 && state.config.api_key is Some
}

/// The pages that a search lists: those of the service's answer, up to
/// `MAX_ROWS` of them, if the service was asked and answered with a list,
/// none otherwise.
pub open spec fn listed_pages(asked: bool, reply: SearchReplyView) -> Seq<ResultView> {
    if asked && reply is Results {
        first_n(reply->Results_0, MAX_ROWS as int)
    } else {
        Seq::empty()
    }
}

/// The answer to an activation: `Close` alone if the row is in the table,
/// nothing if it is not.
pub open spec fn closed_if_listed(state: PluginView, id: u32) -> Seq<ResponseView> {
    if state.results.dom().contains(id) {
        seq![ResponseView::Close]
    } else {
        Seq::empty()
    }
}

/// The shape of the answer to a search: `Clear` first, `Finished` last, and
/// rows in between.
pub open spec fn is_search_burst(burst: Seq<ResponseView>) -> bool {
    &&& burst.len() >= 2
    &&& burst[0] == ResponseView::Clear
    &&& burst.last() == ResponseView::Finished
    &&& forall|i: int| 0 < i < burst.len() - 1 ==> #[trigger] burst[i] is Append
}

/// Whatever the query, the state before it and the service's answer: the
/// burst of a search is one `Clear`, then rows only, then one `Finished`.
pub proof fn lemma_search_burst(state: PluginView, query: Seq<char>, reply: SearchReplyView)
    ensures
        is_search_burst(request_outcome(state, RequestView::Search(query), reply).1),
{
    let text = query_text(query, keyword());
    let burst = request_outcome(state, RequestView::Search(query), reply).1;
    if reaches_service(state, query) {
        let rows = PluginView::search_rows(text, reply);
        assert forall|i: int| 0 <= i < rows.len() implies #[trigger] rows[i] is Append by {}
        assert(burst =~= seq![ResponseView::Clear] + rows.push(ResponseView::Finished));
    } else {
        assert(burst.len() == 3);
    }
}

/// Every request is handled to its end: after at most one answer from the
/// service the plugin asks for nothing more and has nothing in flight. Only
/// `Exit` ends the session.
pub proof fn lemma_request_completes(
    state: PluginView,
    request: RequestView,
    reply: SearchReplyView,
)
    ensures
        ({
            let (after, burst, next) = request_outcome(state, request, reply);
            &&& after.pending == PendingView::Idle
            &&& next == (if request is Exit {
                NextView::Exit
            } else {
                NextView::Done
            })
        }),
{
}

/// The burst of every request ends as its kind of request demands: a search
/// with one `Finished`; `Complete`, `Quit` and `Interrupt` with `Finished`
/// alone; an activation with `Close` alone, and never with `Finished`; a
/// request for the context menu with the menu alone. Where the row is not in
/// the table nothing is sent, and `Exit` is answered with nothing.
pub proof fn lemma_burst_shape(state: PluginView, request: RequestView, reply: SearchReplyView)
    ensures
        ({
            let burst = request_outcome(state, request, reply).1;
            match request {
                RequestView::Search(query) => is_search_burst(burst),
                RequestView::Complete(_) | RequestView::Quit(_) | RequestView::Interrupt => burst
                    == seq![ResponseView::Finished],
                RequestView::Activate(id) => burst == closed_if_listed(state, id),
                RequestView::ActivateContext { id, context } => burst == closed_if_listed(
                    state,
                    id,
                ),
                RequestView::Context(id) => burst == (if state.results.dom().contains(id) {
                    seq![ResponseView::Context { id, options: context_options() }]
                } else {
                    Seq::empty()
                }),
                RequestView::Exit => burst == Seq::<ResponseView>::empty(),
            }
        }),
{
    let burst = request_outcome(state, request, reply).1;
    match request {
        RequestView::Search(query) => {
            lemma_search_burst(state, query, reply);
        },
        RequestView::Activate(id) => {
            assert(burst =~= seq![ResponseView::Close] || burst =~= Seq::<ResponseView>::empty());
        },
        RequestView::ActivateContext { id, context } => {
            assert(burst =~= seq![ResponseView::Close] || burst =~= Seq::<ResponseView>::empty());
        },
        RequestView::Complete(_) | RequestView::Quit(_) | RequestView::Interrupt => {
            assert(burst =~= seq![ResponseView::Finished]);
        },
        RequestView::Context(id) => {
            assert(burst =~= state.context_requested(id).replies);
        },
        RequestView::Exit => {
            assert(burst =~= Seq::<ResponseView>::empty());
        },
    }
}

/// After a search the table holds the address of every page of the
/// service's answer, up to `MAX_ROWS` of them, each under the page's
/// position in that answer, and nothing else: of `n` pages it holds
/// `min(n, MAX_ROWS)`, under the identifiers from zero up. It is empty when
/// the service was not asked or gave no list.
pub proof fn lemma_search_table(state: PluginView, query: Seq<char>, reply: SearchReplyView)
    ensures
        ({
            let after = request_outcome(state, RequestView::Search(query), reply).0;
            let asked = reaches_service(state, query);
            let listed = listed_pages(asked, reply);
            &&& asked && reply is Results ==> listed.len() == min(
                reply->Results_0.len() as int,
                MAX_ROWS as int,
            )
            &&& asked && reply is Results ==> forall|i: int|
                0 <= i < listed.len() ==> listed[i] == reply->Results_0[i]
            &&& after.results == table_of(listed)
            &&& after.results.dom().finite()
            &&& after.results.dom().len() == listed.len()
            &&& forall|id: u32| after.results.dom().contains(id) <==> (id as int) < listed.len()
            &&& forall|id: u32|
                (id as int) < listed.len() ==> #[trigger] after.results[id] == listed[id as int].url
        }),
{
    let after = request_outcome(state, RequestView::Search(query), reply).0;
    let asked = reaches_service(state, query);
    let listed = listed_pages(asked, reply);
    if asked && reply is Results {
        lemma_first_n(reply->Results_0, MAX_ROWS as int);
    }
    assert(after.results =~= table_of(listed));
    lemma_table_size(listed);
}

/// A search that the service answers with pages lists every one of them,
/// as long as row identifiers last: the burst is `Clear`, one row per page
/// in the order of the answer, and `Finished`, and the table holds as many
/// addresses as the answer has pages. The row of a page carries the page's
/// position as its identifier, its title, or `Untitled` where it has none,
/// and the start of its text, or its address where it has none.
pub proof fn lemma_search_lists_every_page(
    state: PluginView,
    query: Seq<char>,
    reply: SearchReplyView,
)
    requires
        reaches_service(state, query),
        reply is Results,
        0 < reply->Results_0.len() <= MAX_ROWS,
    ensures
        ({
            let (after, burst, next) = request_outcome(state, RequestView::Search(query), reply);
            let pages = reply->Results_0;
            &&& burst == seq![ResponseView::Clear] + rows_of(pages) + seq![ResponseView::Finished]
            &&& after.results == table_of(pages)
            &&& after.results.dom().len() == pages.len()
            &&& forall|i: int|
                0 <= i < pages.len() ==> (#[trigger] rows_of(pages)[i]) == ResponseView::Append(
                    plain_row(
                        i as u32,
                        pages[i].display_title(),
                        pages[i].display_description(),
                        "web-browser"@,
                    ),
                )
            &&& forall|i: int|
                0 <= i < pages.len() ==> after.results.dom().contains(i as u32)
                    && #[trigger] after.results[i as u32] == pages[i].url
        }),
{
    let (after, burst, next) = request_outcome(state, RequestView::Search(query), reply);
    let pages = reply->Results_0;
    assert(first_n(pages, MAX_ROWS as int) == pages);
    assert(burst =~= seq![ResponseView::Clear] + rows_of(pages) + seq![ResponseView::Finished]);
    lemma_search_table(state, query, reply);
}

/// A request that names a row which is not in the table is answered with
/// nothing at all: no message, no side effect, no outside work. The table
/// stays as it is.
pub proof fn lemma_unknown_row_is_ignored(state: PluginView, id: u32, context: u32)
    requires
        !state.results.dom().contains(id),
    ensures
        state.activated(id).1 == StepView::silent(),
        state.context_activated(id, context).1 == StepView::silent(),
        state.context_requested(id) == StepView::silent(),
        state.requested(RequestView::Activate(id)).1 == StepView::silent(),
        state.requested(RequestView::ActivateContext { id, context }).1 == StepView::silent(),
        state.requested(RequestView::Context(id)).1 == StepView::silent(),
        state.activated(id).0.results == state.results,
        state.context_activated(id, context).0.results == state.results,
{
}

/// The context menu and the selectors agree: the option at position `k` of
/// the menu carries the identifier `k`, and the selector `k` does what the
/// option names: the first opens the page, the second copies its address.
pub proof fn lemma_menu_matches_selectors(url: Seq<char>)
    ensures
        context_options().len() == 2,
        forall|k: int| 0 <= k < 2 ==> (#[trigger] context_options()[k]).id == k,
        context_options()[0].name == "Open in browser"@ && selected_effect(0, url) == Some(
            EffectView::OpenUrl(url),
        ),
        context_options()[1].name == "Copy URL to clipboard"@ && selected_effect(1, url) == Some(
            EffectView::CopyToClipboard(url),
        ),
        forall|context: u32| context >= 2 ==> selected_effect(context, url) is None,
{
}

/// The rows of a search are numbered by position: the row at position `i`
/// carries the identifier `i`, and the table holds under `i` the address
/// of the page that the row describes.
pub proof fn lemma_rows_match_table(results: Seq<ResultView>, i: int)
    requires
        0 <= i < results.len() <= u32::MAX + 1,
    ensures
        rows_of(results)[i] is Append,
        rows_of(results)[i]->Append_0.id == i,
        rows_of(results)[i]->Append_0.name == results[i].display_title(),
        rows_of(results)[i]->Append_0.description == results[i].display_description(),
        table_of(results).dom().contains(i as u32),
        table_of(results)[i as u32] == results[i].url,
{
}

/// A table of at most 2^32 pages has one entry per page.
pub proof fn lemma_table_size(results: Seq<ResultView>)
    requires
        results.len() <= u32::MAX + 1,
    ensures
        table_of(results).dom().finite(),
        table_of(results).dom().len() == results.len(),
    decreases results.len(),
{
    if results.len() == 0 {
        assert(table_of(results).dom() =~= Set::empty());
    } else {
        let shorter = results.drop_last();
        lemma_table_size(shorter);
        let last = (results.len() - 1) as u32;
        assert(table_of(shorter).dom().insert(last) =~= table_of(results).dom());
    }
}

/// A table filled from a list of at most `MAX_ROWS` pages is numbered from
/// zero without a gap.
pub proof fn lemma_table_well_formed(state: PluginView, results: Seq<ResultView>)
    requires
        results.len() <= MAX_ROWS,
        state.results == table_of(results),
    ensures
        state.well_formed(),
{
    lemma_table_size(results);
}

/// An empty table is well formed.
pub proof fn lemma_empty_table_well_formed(state: PluginView)
    requires
        state.results == Map::<u32, Seq<char>>::empty(),
    ensures
        state.well_formed(),
{
    assert(table_of(Seq::<ResultView>::empty()) =~= Map::<u32, Seq<char>>::empty());
    lemma_table_well_formed(state, Seq::empty());
}

/// The service's answer to a search leaves the table well formed.
pub proof fn lemma_replied_well_formed(state: PluginView, reply: SearchReplyView)
    requires
        state.well_formed(),
    ensures
        state.search_replied(reply).0.well_formed(),
{
    if state.pending is Searching {
        assert(table_of(Seq::<ResultView>::empty()) =~= Map::<u32, Seq<char>>::empty());
        lemma_table_well_formed(state.search_replied(reply).0, listed_pages(true, reply));
    }
}

/// A request leaves the table well formed.
pub proof fn lemma_requested_well_formed(state: PluginView, request: RequestView)
    requires
        state.well_formed(),
    ensures
        state.requested(request).0.well_formed(),
{
    if request is Search {
        lemma_empty_table_well_formed(state.requested(request).0);
    }
}

/// The table is well formed at the start of a session and stays so whatever
/// arrives: no line of input and no answer of the service can leave a gap
/// in the numbering or more than `MAX_ROWS` rows.
pub proof fn lemma_well_formed_always(state: PluginView, config: ConfigView)
    requires
        state.well_formed(),
    ensures
        PluginView::fresh(config).well_formed(),
        forall|line: Seq<char>| (#[trigger] state.line_received(line)).0.well_formed(),
        forall|request: RequestView| (#[trigger] state.requested(request)).0.well_formed(),
        forall|reply: SearchReplyView| (#[trigger] state.search_replied(reply)).0.well_formed(),
{
    lemma_empty_table_well_formed(PluginView::fresh(config));
    assert forall|request: RequestView| (#[trigger] state.requested(request)).0.well_formed() by {
        lemma_requested_well_formed(state, request);
    }
    assert forall|line: Seq<char>| (#[trigger] state.line_received(line)).0.well_formed() by {
        if line.len() > 0 && decoded(line) is Some {
            lemma_requested_well_formed(state, decoded(line)->Some_0);
        }
    }
    assert forall|reply: SearchReplyView| (#[trigger] state.search_replied(reply)).0.well_formed() by {
        lemma_replied_well_formed(state, reply);
    }
}

} // verus!
