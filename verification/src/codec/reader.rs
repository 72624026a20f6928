//! Reading requests: from a line of input to the request it stands for.
//!
//! A line is read in two steps. First the JSON reader takes the line apart
//! into a [`Document`], which holds as plain values everything a request can
//! consist of. Then the request is picked from the document.

use crate::json::{json_members, json_number, json_text, parse_members, parse_number, parse_text};
use crate::protocol::{Request, RequestView};
use crate::text::same_text;
use vstd::prelude::*;

verus! {

/// One member of a JSON object, read in every way in which a request can
/// hold a value.
#[derive(Debug, Clone, PartialEq, Eq)]
pub struct Member {
    /// The member's key.
    pub key: String,
    /// The member's value as a number, if it is one that a `u32` holds.
    pub number: Option<u32>,
    /// The member's value as a string, if it is one.
    pub text: Option<String>,
    /// If the member's value is an object: the keys of that object, each
    /// with its value as a number, if it is one that a `u32` holds.
    pub numbers: Option<Vec<(String, Option<u32>)>>,
}

pub struct MemberView {
    pub key: Seq<char>,
    pub number: Option<u32>,
    pub text: Option<Seq<char>>,
    pub numbers: Option<Seq<(Seq<char>, Option<u32>)>>,
}

impl View for Member {
    type V = MemberView;

    open spec fn view(&self) -> MemberView {
        MemberView {
            key: self.key@,
            number: self.number,
            text: self.text.deep_view(),
            numbers: self.numbers.deep_view(),
        }
    }
}

impl DeepView for Member {
    type V = MemberView;

    open spec fn deep_view(&self) -> MemberView {
        self@
    }
}

/// One line of input, read as JSON as far as a request needs it.
#[derive(Debug, Clone, PartialEq, Eq)]
pub struct Document {
    /// The string that the line holds, if it is a JSON string.
    pub text: Option<String>,
    /// The members that the line holds, if it is a JSON object.
    pub members: Option<Vec<Member>>,
}

pub struct DocumentView {
    pub text: Option<Seq<char>>,
    pub members: Option<Seq<MemberView>>,
}

impl View for Document {
    type V = DocumentView;

    open spec fn view(&self) -> DocumentView {
        DocumentView { text: self.text.deep_view(), members: self.members.deep_view() }
    }
}

/// The keys of an object's members, each with its value as a number.
pub open spec fn numbers_in(entries: Seq<(Seq<char>, Seq<char>)>) -> Seq<(Seq<char>, Option<u32>)> {
    Seq::new(entries.len(), |i: int| (entries[i].0, json_number(entries[i].1)))
}

/// A member of an object, from its key and the JSON text of its value.
pub open spec fn member_of(key: Seq<char>, value: Seq<char>) -> MemberView {
    MemberView {
        key,
        number: json_number(value),
        text: json_text(value),
        numbers: match json_members(value) {
            Some(entries) => Some(numbers_in(entries)),
            None => None,
        },
    }
}

/// What `scan` reads from a line.
pub open spec fn document(line: Seq<char>) -> DocumentView {
    DocumentView {
        text: json_text(line),
        members: match json_members(line) {
            Some(entries) => Some(
                Seq::new(entries.len(), |i: int| member_of(entries[i].0, entries[i].1)),
            ),
            None => None,
        },
    }
}

/// The first member with the given key.
pub open spec fn member_under(members: Seq<MemberView>, key: Seq<char>) -> Option<MemberView>
    decreases members.len(),
{
    if members.len() == 0 {
        None
    } else if members[0].key == key {
        Some(members[0])
    } else {
        member_under(members.drop_first(), key)
    }
}

/// The number under the first entry with the given key.
pub open spec fn number_under(entries: Seq<(Seq<char>, Option<u32>)>, key: Seq<char>) -> Option<
    u32,
>
    decreases entries.len(),
{
    if entries.len() == 0 {
        None
    } else if entries[0].0 == key {
        entries[0].1
    } else {
        number_under(entries.drop_first(), key)
    }
}

/// The number that an object holds under `key`.
pub open spec fn id_under(members: Seq<MemberView>, key: Seq<char>) -> Option<u32> {
    match member_under(members, key) {
        Some(member) => member.number,
        None => None,
    }
}

/// The string that an object holds under `key`.
pub open spec fn text_under(members: Seq<MemberView>, key: Seq<char>) -> Option<Seq<char>> {
    match member_under(members, key) {
        Some(member) => member.text,
        None => None,
    }
}

/// The row and the selector that an object holds under `key`, as an object
/// with the numbers `id` and `context`.
pub open spec fn selection_under(members: Seq<MemberView>, key: Seq<char>) -> Option<(u32, u32)> {
    match member_under(members, key) {
        Some(member) => match member.numbers {
            Some(entries) => match (number_under(entries, "id"@), number_under(entries, "context"@)) {
                (Some(id), Some(context)) => Some((id, context)),
                _ => None,
            },
            None => None,
        },
        None => None,
    }
}

/// The request that an object stands for: the first of `Activate`,
/// `ActivateContext`, `Complete`, `Context`, `Quit` and `Search` under whose
/// name the object holds a value of the kind that the request carries.
/// Members with other keys are ignored. A line that writes one key more than
/// once is not refused: the JSON reader hands out one member for the key,
/// with the value that the line writes last, and that value counts.
pub open spec fn request_in_object(members: Seq<MemberView>) -> Option<RequestView> {
    if let Some(id) = id_under(members, "Activate"@) {
        Some(RequestView::Activate(id))
    } else if let Some((id, context)) = selection_under(members, "ActivateContext"@) {
        Some(RequestView::ActivateContext { id, context })
    } else if let Some(id) = id_under(members, "Complete"@) {
        Some(RequestView::Complete(id))
    } else if let Some(id) = id_under(members, "Context"@) {
        Some(RequestView::Context(id))
    } else if let Some(id) = id_under(members, "Quit"@) {
        Some(RequestView::Quit(id))
    } else if let Some(query) = text_under(members, "Search"@) {
        Some(RequestView::Search(query))
    } else {
        None
    }
}

/// The request that a string stands for.
pub open spec fn request_in_text(text: Seq<char>) -> Option<RequestView> {
    if text == "Exit"@ {
        Some(RequestView::Exit)
    } else if text == "Interrupt"@ {
        Some(RequestView::Interrupt)
    } else {
        None
    }
}

/// The request that a document stands for, if it stands for one.
pub open spec fn request_in(document: DocumentView) -> Option<RequestView> {
    match document.members {
        Some(members) => request_in_object(members),
        None => match document.text {
            Some(text) => request_in_text(text),
            None => None,
        },
    }
}

/// The request that a line of input stands for, if it stands for one.
pub open spec fn decoded(line: Seq<char>) -> Option<RequestView> {
    request_in(document(line))
}

/// Reads one member of an object from its key and the JSON text of its
/// value.
fn scan_member(key: String, value: &str) -> (member: Member)
    ensures
        member@ == member_of(key@, value@),
{
    let number = parse_number(value);
    let text = parse_text(value);
    let numbers = match parse_members(value) {
        Some(entries) => {
            let ghost all = entries.deep_view();
            let mut numbers: Vec<(String, Option<u32>)> = Vec::new();
            for entry in it: entries
                invariant
                    it.seq().len() == all.len(),
                    forall|j: int|
                        0 <= j < all.len() ==> (#[trigger] it.seq()[j]).deep_view() == all[j],
                    numbers.len() == it.index(),
                    forall|j: int|
                        0 <= j < it.index() ==> (#[trigger] numbers[j]).deep_view() == numbers_in(
                            all,
                        )[j],
            {
                let number = parse_number(entry.1.as_str());
                numbers.push((entry.0, number));
            }
            assert(numbers.deep_view() =~= numbers_in(all));
            Some(numbers)
        },
        None => None,
    };
    Member { key, number, text, numbers }
}

/// Reads a line of input as JSON, as far as a request needs it.
pub fn scan(line: &str) -> (out: Document)
    ensures
        out@ == document(line@),
{
    let text = parse_text(line);
    let members = match parse_members(line) {
        Some(entries) => {
            let ghost all = entries.deep_view();
            let mut members: Vec<Member> = Vec::new();
            for entry in it: entries
                invariant
                    it.seq().len() == all.len(),
                    forall|j: int|
                        0 <= j < all.len() ==> (#[trigger] it.seq()[j]).deep_view() == all[j],
                    members.len() == it.index(),
                    forall|j: int|
                        0 <= j < it.index() ==> (#[trigger] members[j])@ == member_of(
                            all[j].0,
                            all[j].1,
                        ),
            {
                let member = scan_member(entry.0, entry.1.as_str());
                members.push(member);
            }
            assert(members.deep_view() =~= document(line@).members->Some_0);
            Some(members)
        },
        None => None,
    };
    Document { text, members }
}

/// Finds the first member with the given key.
fn find_member<'a>(members: &'a Vec<Member>, key: &str) -> (found: Option<&'a Member>)
    ensures
        found.deep_view() == member_under(members.deep_view(), key@),
{
    let ghost all = members.deep_view();
    let mut i: usize = 0;
    assert(all.skip(0) =~= all);
    while i < members.len()
        invariant
            i <= members.len(),
            all == members.deep_view(),
            member_under(all, key@) == member_under(all.skip(i as int), key@),
        decreases members.len() - i,
    {
        if same_text(members[i].key.as_str(), key) {
            return Some(&members[i]);
        }
        assert(all.skip(i as int).drop_first() =~= all.skip(i as int + 1));
        i = i + 1;
    }
    None
}

/// Finds the number under the first entry with the given key.
fn find_number(entries: &Vec<(String, Option<u32>)>, key: &str) -> (found: Option<u32>)
    ensures
        found == number_under(entries.deep_view(), key@),
{
    let ghost all = entries.deep_view();
    let mut i: usize = 0;
    assert(all.skip(0) =~= all);
    while i < entries.len()
        invariant
            i <= entries.len(),
            all == entries.deep_view(),
            number_under(all, key@) == number_under(all.skip(i as int), key@),
        decreases entries.len() - i,
    {
        if same_text(entries[i].0.as_str(), key) {
            return entries[i].1;
        }
        assert(all.skip(i as int).drop_first() =~= all.skip(i as int + 1));
        i = i + 1;
    }
    None
}

/// The number that an object holds under `key`.
fn find_id(members: &Vec<Member>, key: &str) -> (found: Option<u32>)
    ensures
        found == id_under(members.deep_view(), key@),
{
    match find_member(members, key) {
        Some(member) => member.number,
        None => None,
    }
}

/// The row and the selector that an object holds under `key`.
fn find_selection(members: &Vec<Member>, key: &str) -> (found: Option<(u32, u32)>)
    ensures
        found == selection_under(members.deep_view(), key@),
{
    match find_member(members, key) {
        Some(member) => match &member.numbers {
            Some(entries) => match (find_number(entries, "id"), find_number(entries, "context")) {
                (Some(id), Some(context)) => Some((id, context)),
                _ => None,
            },
            None => None,
        },
        None => None,
    }
}

/// Picks the request that a document stands for, if it stands for one.
pub fn request_of(document: &Document) -> (request: Option<Request>)
    ensures
        request.deep_view() == request_in(document@),
{
    match &document.members {
        Some(members) => {
            if let Some(id) = find_id(members, "Activate") {
                return Some(Request::Activate(id));
            }
            if let Some((id, context)) = find_selection(members, "ActivateContext") {
                return Some(Request::ActivateContext { id, context });
            }
            if let Some(id) = find_id(members, "Complete") {
                return Some(Request::Complete(id));
            }
            if let Some(id) = find_id(members, "Context") {
                return Some(Request::Context(id));
            }
            if let Some(id) = find_id(members, "Quit") {
                return Some(Request::Quit(id));
            }
            match find_member(members, "Search") {
                Some(member) => match &member.text {
                    Some(query) => Some(Request::Search(query.clone())),
                    None => None,
                },
                None => None,
            }
        },
        None => match &document.text {
            Some(text) => {
                if same_text(text.as_str(), "Exit") {
                    Some(Request::Exit)
                } else if same_text(text.as_str(), "Interrupt") {
                    Some(Request::Interrupt)
                } else {
                    None
                }
            },
            None => None,
        },
    }
}

/// Decodes one line of input. A line that stands for no request yields
/// nothing.
pub fn decode(line: &str) -> (request: Option<Request>)
    ensures
        request.deep_view() == decoded(line@),
{
    let document = scan(line);
    request_of(&document)
}

} // verus!
