//! What a handler hands back to the driver that owns the input and output.

use crate::protocol::{PluginResponse, ResponseView};
use vstd::prelude::*;

verus! {

/// The field of a vault item that can be copied.
#[derive(Debug, Clone, Copy, PartialEq, Eq, Structural)]
pub enum CredentialType {
    Password,
    Username,
    Totp,
}

impl CredentialType {
    /// The name by which the vault tool knows the field.
    pub open spec fn selector(self) -> Seq<char> {
        match self {
            CredentialType::Password => "password"@,
            CredentialType::Username => "username"@,
            CredentialType::Totp => "totp"@,
        }
    }

    /// The name of the field in diagnostics.
    pub open spec fn label(self) -> Seq<char> {
        match self {
            CredentialType::Password => "Password"@,
            CredentialType::Username => "Username"@,
            CredentialType::Totp => "TOTP"@,
        }
    }

    /// The name by which the vault tool knows the field.
    pub fn selector_name(self) -> (name: &'static str)
        ensures
            name@ == self.selector(),
    {
        match self {
            CredentialType::Password => "password",
            CredentialType::Username => "username",
            CredentialType::Totp => "totp",
        }
    }

    /// The name of the field in diagnostics.
    pub fn label_name(self) -> (name: &'static str)
        ensures
            name@ == self.label(),
    {
        match self {
            CredentialType::Password => "Password",
            CredentialType::Username => "Username",
            CredentialType::Totp => "TOTP",
        }
    }
}

/// A place where the session token of the vault may be found.
#[derive(Debug, Clone, Copy, PartialEq, Eq, Structural)]
pub enum SessionSource {
    /// The environment of the process.
    Environment,
    /// The credential store of the desktop.
    CredentialStore,
}

/// A side effect that the driver carries out before it sends the messages of
/// the same step.
#[derive(Debug, Clone, PartialEq, Eq)]
pub enum Effect {
    /// Put the text on the clipboard.
    CopyToClipboard(String),
    /// Open the address with the desktop's default handler.
    OpenUrl(String),
    /// Write the text to the diagnostic output.
    Log(String),
}

pub enum EffectView {
    CopyToClipboard(Seq<char>),
    OpenUrl(Seq<char>),
    Log(Seq<char>),
}

impl View for Effect {
    type V = EffectView;

    open spec fn view(&self) -> EffectView {
        match self {
            Effect::CopyToClipboard(text) => EffectView::CopyToClipboard(text@),
            Effect::OpenUrl(url) => EffectView::OpenUrl(url@),
            Effect::Log(text) => EffectView::Log(text@),
        }
    }
}

impl DeepView for Effect {
    type V = EffectView;

    open spec fn deep_view(&self) -> EffectView {
        self@
    }
}

/// The outside work whose answer the plugin waits for after a step.
#[derive(Debug, Clone, PartialEq, Eq)]
pub enum Next {
    /// Nothing: read the next request.
    Done,
    /// End the session.
    Exit,
    /// Look the session token up in `source` and answer with what was found.
    ResolveSession { source: SessionSource },
    /// Ask the vault for the items that match `query`.
    SearchVault { query: String, session: String },
    /// Ask the vault for one field of one item.
    FetchField { field: CredentialType, item_id: String, session: String },
    /// Ask the search service for pages that match `query`.
    SearchWeb { query: String, api_key: String, num_results: u32, max_characters: u32 },
}

pub enum NextView {
    Done,
    Exit,
    ResolveSession { source: SessionSource },
    SearchVault { query: Seq<char>, session: Seq<char> },
    FetchField { field: CredentialType, item_id: Seq<char>, session: Seq<char> },
    SearchWeb { query: Seq<char>, api_key: Seq<char>, num_results: u32, max_characters: u32 },
}

impl View for Next {
    type V = NextView;

    open spec fn view(&self) -> NextView {
        match self {
            Next::Done => NextView::Done,
            Next::Exit => NextView::Exit,
            Next::ResolveSession { source } => NextView::ResolveSession { source: *source },
            Next::SearchVault { query, session } => NextView::SearchVault {
                query: query@,
                session: session@,
            },
            Next::FetchField { field, item_id, session } => NextView::FetchField {
                field: *field,
                item_id: item_id@,
                session: session@,
            },
            Next::SearchWeb { query, api_key, num_results, max_characters } => NextView::SearchWeb {
                query: query@,
                api_key: api_key@,
                num_results: *num_results,
                max_characters: *max_characters,
            },
        }
    }
}

/// The outcome of handling one event.
#[derive(Debug, Clone, PartialEq, Eq)]
pub struct Step {
    /// The side effect to carry out first, if any.
    pub effect: Option<Effect>,
    /// The messages to send to the host, in order.
    pub replies: Vec<PluginResponse>,
    /// What the plugin waits for afterwards.
    pub next: Next,
}

pub struct StepView {
    pub effect: Option<EffectView>,
    pub replies: Seq<ResponseView>,
    pub next: NextView,
}

impl View for Step {
    type V = StepView;

    open spec fn view(&self) -> StepView {
        StepView {
            effect: self.effect.deep_view(),
            replies: self.replies.deep_view(),
            next: self.next@,
        }
    }
}

impl StepView {
    /// The step that sends `replies` and then waits for the next request.
    pub open spec fn say(replies: Seq<ResponseView>) -> StepView {
        StepView { effect: None, replies, next: NextView::Done }
    }

    /// The step that sends nothing and asks for nothing.
    pub open spec fn silent() -> StepView {
        StepView::say(Seq::empty())
    }

    /// The step that sends `replies` and then asks for outside work.
    pub open spec fn ask(replies: Seq<ResponseView>, next: NextView) -> StepView {
        StepView { effect: None, replies, next }
    }

    /// The step that ends the session.
    pub open spec fn leave() -> StepView {
        StepView { effect: None, replies: Seq::empty(), next: NextView::Exit }
    }

    /// The step that carries out `effect` and then sends `replies`.
    pub open spec fn act(effect: Option<EffectView>, replies: Seq<ResponseView>) -> StepView {
        StepView { effect, replies, next: NextView::Done }
    }
}

impl Step {
    /// The step that sends `replies` and then waits for the next request.
    pub fn say(replies: Vec<PluginResponse>) -> (step: Step)
        ensures
            step@ == StepView::say(replies.deep_view()),
    {
        Step { effect: None, replies, next: Next::Done }
    }

    /// The step that sends nothing and asks for nothing.
    pub fn silent() -> (step: Step)
        ensures
            step@ == StepView::silent(),
    {
        let replies: Vec<PluginResponse> = Vec::new();
        assert(replies.deep_view() =~= Seq::empty());
        Step::say(replies)
    }

    /// The step that sends `replies` and then asks for outside work.
    pub fn ask(replies: Vec<PluginResponse>, next: Next) -> (step: Step)
        ensures
            step@ == StepView::ask(replies.deep_view(), next@),
    {
        Step { effect: None, replies, next }
    }

    /// The step that ends the session.
    pub fn leave() -> (step: Step)
        ensures
            step@ == StepView::leave(),
    {
        Step { effect: None, replies: no_replies(), next: Next::Exit }
    }

    /// The step that ends a burst without any row.
    pub fn finished() -> (step: Step)
        ensures
            step@ == StepView::say(seq![ResponseView::Finished]),
    {
        let mut replies = no_replies();
        replies.push(PluginResponse::Finished);
        assert(replies.deep_view() =~= seq![ResponseView::Finished]);
        Step::say(replies)
    }

    /// The step that carries out `effect` and then sends `replies`.
    pub fn act(effect: Option<Effect>, replies: Vec<PluginResponse>) -> (step: Step)
        ensures
            step@ == StepView::act(effect.deep_view(), replies.deep_view()),
    {
        Step { effect, replies, next: Next::Done }
    }
}

/// An empty list of messages.
pub fn no_replies() -> (replies: Vec<PluginResponse>)
    ensures
        replies.deep_view() == Seq::<ResponseView>::empty(),
{
    let replies: Vec<PluginResponse> = Vec::new();
    assert(replies.deep_view() =~= Seq::empty());
    replies
}

} // verus!
