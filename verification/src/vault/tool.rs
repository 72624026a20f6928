//! The command lines with which the vault's command-line tool is run.

use crate::step::CredentialType;
use vstd::prelude::*;

verus! {

/// The name of the vault's command-line tool.
pub const VAULT_TOOL: &'static str = "bw";

/// The arguments that make the tool list the items that match `query`.
pub open spec fn search_command(query: Seq<char>, session: Seq<char>) -> Seq<Seq<char>> {
    seq!["list"@, "items"@, "--search"@, query, "--session"@, session]
}

/// The arguments that make the tool print one field of one item.
pub open spec fn fetch_command(
    field: CredentialType,
    item_id: Seq<char>,
    session: Seq<char>,
) -> Seq<Seq<char>> {
    seq!["get"@, field.selector(), item_id, "--session"@, session]
}

/// Builds the arguments for a search of the vault.
pub fn search_arguments(query: &str, session: &str) -> (arguments: Vec<String>)
    ensures
        arguments.deep_view() == search_command(query@, session@),
{
    let mut arguments: Vec<String> = Vec::new();
    arguments.push("list".to_owned());
    arguments.push("items".to_owned());
    arguments.push("--search".to_owned());
    arguments.push(query.to_owned());
    arguments.push("--session".to_owned());
    arguments.push(session.to_owned());
    assert(arguments.deep_view() =~= search_command(query@, session@));
    arguments
}

/// Builds the arguments for the retrieval of one field of one item.
pub fn fetch_arguments(field: CredentialType, item_id: &str, session: &str) -> (arguments: Vec<
    String,
>)
    ensures
        arguments.deep_view() == fetch_command(field, item_id@, session@),
{
    let mut arguments: Vec<String> = Vec::new();
    arguments.push("get".to_owned());
    arguments.push(field.selector_name().to_owned());
    arguments.push(item_id.to_owned());
    arguments.push("--session".to_owned());
    arguments.push(session.to_owned());
    assert(arguments.deep_view() =~= fetch_command(field, item_id@, session@));
    arguments
}

} // verus!
