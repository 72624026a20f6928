//! The messages exchanged with the launcher host.

use vstd::prelude::*;

verus! {

/// Where the host finds the icon of a row.
#[derive(Debug, Clone, PartialEq, Eq)]
pub enum IconSource {
    Name(String),
    Mime(String),
}

pub enum IconSourceView {
    Name(Seq<char>),
    Mime(Seq<char>),
}

impl View for IconSource {
    type V = IconSourceView;

    open spec fn view(&self) -> IconSourceView {
        match self {
            IconSource::Name(name) => IconSourceView::Name(name@),
            IconSource::Mime(mime) => IconSourceView::Mime(mime@),
        }
    }
}

impl DeepView for IconSource {
    type V = IconSourceView;

    open spec fn deep_view(&self) -> IconSourceView {
        self@
    }
}

/// One display row of a search response.
#[derive(Debug, Clone, PartialEq, Eq)]
pub struct PluginSearchResult {
    pub id: u32,
    pub name: String,
    pub description: String,
    pub keywords: Option<Vec<String>>,
    pub icon: Option<IconSource>,
    pub command: Option<String>,
}

pub struct SearchResultView {
    pub id: u32,
    pub name: Seq<char>,
    pub description: Seq<char>,
    pub keywords: Option<Seq<Seq<char>>>,
    pub icon: Option<IconSourceView>,
    pub command: Option<Seq<char>>,
}

impl View for PluginSearchResult {
    type V = SearchResultView;

    open spec fn view(&self) -> SearchResultView {
        SearchResultView {
            id: self.id,
            name: self.name@,
            description: self.description@,
            keywords: self.keywords.deep_view(),
            icon: self.icon.deep_view(),
            command: self.command.deep_view(),
        }
    }
}

impl DeepView for PluginSearchResult {
    type V = SearchResultView;

    open spec fn deep_view(&self) -> SearchResultView {
        self@
    }
}

/// One entry of the context menu of a row.
#[derive(Debug, Clone, PartialEq, Eq)]
pub struct ContextOption {
    pub id: u32,
    pub name: String,
}

pub struct ContextOptionView {
    pub id: u32,
    pub name: Seq<char>,
}

impl View for ContextOption {
    type V = ContextOptionView;

    open spec fn view(&self) -> ContextOptionView {
        ContextOptionView { id: self.id, name: self.name@ }
    }
}

impl DeepView for ContextOption {
    type V = ContextOptionView;

    open spec fn deep_view(&self) -> ContextOptionView {
        self@
    }
}

/// A message from the plugin to the host.
#[derive(Debug, Clone, PartialEq, Eq)]
pub enum PluginResponse {
    /// Adds one row to the displayed results.
    Append(PluginSearchResult),
    /// Discards the rows displayed so far.
    Clear,
    /// Asks the host to dismiss the launcher.
    Close,
    /// Replaces the text of the query field.
    Fill(String),
    /// Ends the answer to the current request.
    Finished,
    /// Lists the secondary actions of the row `id`.
    Context { id: u32, options: Vec<ContextOption> },
}

pub enum ResponseView {
    Append(SearchResultView),
    Clear,
    Close,
    Fill(Seq<char>),
    Finished,
    Context { id: u32, options: Seq<ContextOptionView> },
}

impl View for PluginResponse {
    type V = ResponseView;

    open spec fn view(&self) -> ResponseView {
        match self {
            PluginResponse::Append(row) => ResponseView::Append(row@),
            PluginResponse::Clear => ResponseView::Clear,
            PluginResponse::Close => ResponseView::Close,
            PluginResponse::Fill(text) => ResponseView::Fill(text@),
            PluginResponse::Finished => ResponseView::Finished,
            PluginResponse::Context { id, options } => ResponseView::Context {
                id: *id,
                options: options.deep_view(),
            },
        }
    }
}

impl DeepView for PluginResponse {
    type V = ResponseView;

    open spec fn deep_view(&self) -> ResponseView {
        self@
    }
}

/// A message from the host to the plugin.
#[derive(Debug, Clone, PartialEq, Eq)]
pub enum Request {
    /// Perform the default action of a row.
    Activate(u32),
    /// Perform the secondary action `context` of the row `id`.
    ActivateContext { id: u32, context: u32 },
    /// Tab completion of a row; answered without any action.
    Complete(u32),
    /// List the secondary actions of a row.
    Context(u32),
    /// A row's close button; answered without any action.
    Quit(u32),
    /// Search for the given query.
    Search(String),
    /// End the session.
    Exit,
    /// Abandon the current answer.
    Interrupt,
}

pub enum RequestView {
    Activate(u32),
    ActivateContext { id: u32, context: u32 },
    Complete(u32),
    Context(u32),
    Quit(u32),
    Search(Seq<char>),
    Exit,
    Interrupt,
}

impl View for Request {
    type V = RequestView;

    open spec fn view(&self) -> RequestView {
        match self {
            Request::Activate(id) => RequestView::Activate(*id),
            Request::ActivateContext { id, context } => RequestView::ActivateContext {
                id: *id,
                context: *context,
            },
            Request::Complete(id) => RequestView::Complete(*id),
            Request::Context(id) => RequestView::Context(*id),
            Request::Quit(id) => RequestView::Quit(*id),
            Request::Search(query) => RequestView::Search(query@),
            Request::Exit => RequestView::Exit,
            Request::Interrupt => RequestView::Interrupt,
        }
    }
}

impl DeepView for Request {
    type V = RequestView;

    open spec fn deep_view(&self) -> RequestView {
        self@
    }
}

/// The identifier carried by every row that reports a problem.
pub const ERROR_ROW_ID: u32 = 999;

/// A row whose only content is a title, a description and a named icon.
pub open spec fn plain_row(
    id: u32,
    name: Seq<char>,
    description: Seq<char>,
    icon: Seq<char>,
) -> SearchResultView {
    SearchResultView {
        id,
        name,
        description,
        keywords: None,
        icon: Some(IconSourceView::Name(icon)),
        command: None,
    }
}

/// The row that reports a problem to the user.
pub open spec fn error_row(title: Seq<char>, message: Seq<char>) -> SearchResultView {
    plain_row(ERROR_ROW_ID, title, message, "dialog-error"@)
}

impl PluginSearchResult {
    /// Builds a row that has a title, a description and a named icon, and
    /// nothing else.
    pub fn plain(id: u32, name: String, description: String, icon: &str) -> (row: Self)
        ensures
            row@ == plain_row(id, name@, description@, icon@),
    {
        PluginSearchResult {
            id,
            name,
            description,
            keywords: None,
            icon: Some(IconSource::Name(icon.to_owned())),
            command: None,
        }
    }

    /// Builds the row that reports a problem to the user.
    pub fn error(title: &str, message: &str) -> (row: Self)
        ensures
            row@ == error_row(title@, message@),
    {
        PluginSearchResult::plain(ERROR_ROW_ID, title.to_owned(), message.to_owned(), "dialog-error")
    }
}

/// Appends the row that reports a problem to the messages of a burst.
pub fn send_error_result(replies: &mut Vec<PluginResponse>, title: &str, message: &str)
    ensures
        final(replies).deep_view() == old(replies).deep_view().push(
            ResponseView::Append(error_row(title@, message@)),
        ),
{
    let ghost before = replies.deep_view();
    replies.push(PluginResponse::Append(PluginSearchResult::error(title, message)));
    assert(replies.deep_view() =~= before.push(
        ResponseView::Append(error_row(title@, message@)),
    ));
}

/// Appends the message that ends a burst.
pub fn send_finished(replies: &mut Vec<PluginResponse>)
    ensures
        final(replies).deep_view() == old(replies).deep_view().push(ResponseView::Finished),
{
    let ghost before = replies.deep_view();
    replies.push(PluginResponse::Finished);
    assert(replies.deep_view() =~= before.push(ResponseView::Finished));
}

/// Appends one message to the messages of a burst.
pub fn send(replies: &mut Vec<PluginResponse>, response: PluginResponse)
    ensures
        final(replies).deep_view() == old(replies).deep_view().push(response@),
{
    let ghost before = replies.deep_view();
    replies.push(response);
    assert(replies.deep_view() =~= before.push(response@));
}

} // verus!
