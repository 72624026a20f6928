//! Vault items as the vault tool reports them, and the tool's answers.

use crate::text::host_of;
use vstd::prelude::*;

verus! {

/// One address stored with a login.
#[derive(Debug, Clone, PartialEq, Eq)]
pub struct BitwardenUri {
    pub uri: Option<String>,
}

pub struct UriView {
    pub uri: Option<Seq<char>>,
}

impl View for BitwardenUri {
    type V = UriView;

    open spec fn view(&self) -> UriView {
        UriView { uri: self.uri.deep_view() }
    }
}

impl DeepView for BitwardenUri {
    type V = UriView;

    open spec fn deep_view(&self) -> UriView {
        self@
    }
}

/// The login data of a vault item.
#[derive(Debug, Clone, PartialEq, Eq)]
pub struct BitwardenLogin {
    pub username: Option<String>,
    pub uris: Vec<BitwardenUri>,
    pub totp: Option<String>,
}

pub struct LoginView {
    pub username: Option<Seq<char>>,
    pub uris: Seq<UriView>,
    pub totp: Option<Seq<char>>,
}

impl View for BitwardenLogin {
    type V = LoginView;

    open spec fn view(&self) -> LoginView {
        LoginView {
            username: self.username.deep_view(),
            uris: self.uris.deep_view(),
            totp: self.totp.deep_view(),
        }
    }
}

impl DeepView for BitwardenLogin {
    type V = LoginView;

    open spec fn deep_view(&self) -> LoginView {
        self@
    }
}

/// One item of the vault.
#[derive(Debug, Clone, PartialEq, Eq)]
pub struct BitwardenItem {
    pub id: String,
    pub name: String,
    pub login: Option<BitwardenLogin>,
}

pub struct ItemView {
    pub id: Seq<char>,
    pub name: Seq<char>,
    pub login: Option<LoginView>,
}

impl View for BitwardenItem {
    type V = ItemView;

    open spec fn view(&self) -> ItemView {
        ItemView { id: self.id@, name: self.name@, login: self.login.deep_view() }
    }
}

impl DeepView for BitwardenItem {
    type V = ItemView;

    open spec fn deep_view(&self) -> ItemView {
        self@
    }
}

impl ItemView {
    /// The user name stored with the item, if any.
    pub open spec fn username(self) -> Option<Seq<char>> {
        match self.login {
            Some(login) => login.username,
            None => None,
        }
    }

    /// The host of the item's first address, if the item has an address and
    /// that address is set.
    pub open spec fn domain(self) -> Option<Seq<char>> {
        match self.login {
            Some(login) => if login.uris.len() > 0 {
                match login.uris[0].uri {
                    Some(uri) => Some(host_of(uri)),
                    None => None,
                }
            } else {
                None
            },
            None => None,
        }
    }

    /// Whether the item carries a one-time-password secret.
    pub open spec fn has_totp(self) -> bool {
        match self.login {
            Some(login) => login.totp is Some,
            None => false,
        }
    }

    /// The one-line description of the item: user name and domain, joined
    /// by a bullet when both are there, or a fixed text when neither is.
    pub open spec fn description(self) -> Seq<char> {
        match (self.username(), self.domain()) {
            (Some(username), Some(domain)) => username + " \u{2022} "@ + domain,
            (Some(username), None) => username,
            (None, Some(domain)) => domain,
            (None, None) => "Login item"@,
        }
    }
}

/// Tells whether an item carries a one-time-password secret.
pub fn has_totp(item: &BitwardenItem) -> (b: bool)
    ensures
        b == item@.has_totp(),
{
    match &item.login {
        Some(login) => login.totp.is_some(),
        None => false,
    }
}

/// How a search of the vault ended.
#[derive(Debug, Clone, PartialEq, Eq)]
pub enum SearchReply {
    /// The vault tool could not be started; the text says why.
    Unavailable(String),
    /// The vault tool reported a failure; the text is its diagnostic output.
    Failed(String),
    /// The vault tool's output was not a list of items; the text says why.
    Malformed(String),
    /// The items that match, in the order in which the vault tool gave them.
    Items(Vec<BitwardenItem>),
}

pub enum SearchReplyView {
    Unavailable(Seq<char>),
    Failed(Seq<char>),
    Malformed(Seq<char>),
    Items(Seq<ItemView>),
}

impl View for SearchReply {
    type V = SearchReplyView;

    open spec fn view(&self) -> SearchReplyView {
        match self {
            SearchReply::Unavailable(text) => SearchReplyView::Unavailable(text@),
            SearchReply::Failed(text) => SearchReplyView::Failed(text@),
            SearchReply::Malformed(text) => SearchReplyView::Malformed(text@),
            SearchReply::Items(items) => SearchReplyView::Items(items.deep_view()),
        }
    }
}

/// How the retrieval of one field of an item ended.
#[derive(Debug, Clone, PartialEq, Eq)]
pub enum FieldReply {
    /// The vault tool could not be started; the text says why.
    Unavailable(String),
    /// The vault tool reported a failure; the text is its diagnostic output.
    Failed(String),
    /// The vault tool's output, which holds the field's value.
    Value(String),
}

pub enum FieldReplyView {
    Unavailable(Seq<char>),
    Failed(Seq<char>),
    Value(Seq<char>),
}

impl View for FieldReply {
    type V = FieldReplyView;

    open spec fn view(&self) -> FieldReplyView {
        match self {
            FieldReply::Unavailable(text) => FieldReplyView::Unavailable(text@),
            FieldReply::Failed(text) => FieldReplyView::Failed(text@),
            FieldReply::Value(text) => FieldReplyView::Value(text@),
        }
    }
}

} // verus!
