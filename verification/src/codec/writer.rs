//! Writing messages: from a message to the line that carries it.
//!
//! A message is written in two steps. First every text in it is replaced by
//! its JSON string literal, which the JSON writer supplies. Then the
//! literals and the numbers are laid out as the host expects them. Every
//! message can be written, and what is written stands on one line.

use crate::json::{escaped, escaped_text, json_literal, quote};
use crate::protocol::{
    ContextOption, ContextOptionView, IconSource, IconSourceView, PluginResponse,
    PluginSearchResult, ResponseView, SearchResultView,
};
use crate::text::on_one_line;
use vstd::prelude::*;
use vstd::string::*;

verus! {

/// The character that stands for a digit.
pub open spec fn digit(d: nat) -> char {
    if d == 0 {
        '0'
    } else if d == 1 {
        '1'
    } else if d == 2 {
        '2'
    } else if d == 3 {
        '3'
    } else if d == 4 {
        '4'
    } else if d == 5 {
        '5'
    } else if d == 6 {
        '6'
    } else if d == 7 {
        '7'
    } else if d == 8 {
        '8'
    } else {
        '9'
    }
}

/// A number in decimal notation, without leading zeros.
pub open spec fn decimal(n: nat) -> Seq<char>
    decreases n,
{
    if n < 10 {
        seq![digit(n)]
    } else {
        decimal(n / 10).push(digit(n % 10))
    }
}

/// The text that stands for one digit.
fn digit_text(d: u32) -> (out: &'static str)
    requires
        d < 10,
    ensures
        out@ == seq![digit(d as nat)],
{
    proof {
        reveal_strlit("0");
        reveal_strlit("1");
        reveal_strlit("2");
        reveal_strlit("3");
        reveal_strlit("4");
        reveal_strlit("5");
        reveal_strlit("6");
        reveal_strlit("7");
        reveal_strlit("8");
        reveal_strlit("9");
    }
    let out = if d == 0 {
        "0"
    } else if d == 1 {
        "1"
    } else if d == 2 {
        "2"
    } else if d == 3 {
        "3"
    } else if d == 4 {
        "4"
    } else if d == 5 {
        "5"
    } else if d == 6 {
        "6"
    } else if d == 7 {
        "7"
    } else if d == 8 {
        "8"
    } else {
        "9"
    };
    assert(out@ =~= seq![digit(d as nat)]);
    out
}

/// Writes a number in decimal notation.
pub fn decimal_text(n: u32) -> (out: String)
    ensures
        out@ == decimal(n as nat),
    decreases n,
{
    if n < 10 {
        digit_text(n).to_owned()
    } else {
        let mut out = decimal_text(n / 10);
        out.append(digit_text(n % 10));
        assert(out@ =~= decimal(n as nat));
        out
    }
}

/// The parts joined into one text, with `,` between neighbours.
pub open spec fn comma_joined(parts: Seq<Seq<char>>) -> Seq<char>
    decreases parts.len(),
{
    if parts.len() == 0 {
        Seq::empty()
    } else if parts.len() == 1 {
        parts[0]
    } else {
        comma_joined(parts.drop_last()) + ","@ + parts.last()
    }
}

/// The JSON text of a context option whose name is already a JSON literal.
pub open spec fn rendered_option(option: ContextOptionView) -> Seq<char> {
    "{\"id\":"@ + decimal(option.id as nat) + ",\"name\":"@ + option.name + "}"@
}

/// The JSON text of an icon source whose text is already a JSON literal.
pub open spec fn rendered_icon(icon: IconSourceView) -> Seq<char> {
    match icon {
        IconSourceView::Name(name) => "{\"Name\":"@ + name + "}"@,
        IconSourceView::Mime(mime) => "{\"Mime\":"@ + mime + "}"@,
    }
}

/// The `keywords` member of a row, empty when the row has no keywords.
pub open spec fn rendered_keywords(keywords: Option<Seq<Seq<char>>>) -> Seq<char> {
    match keywords {
        Some(list) => ",\"keywords\":["@ + comma_joined(list) + "]"@,
        None => Seq::empty(),
    }
}

/// The `icon` member of a row, empty when the row has no icon.
pub open spec fn rendered_icon_member(icon: Option<IconSourceView>) -> Seq<char> {
    match icon {
        Some(source) => ",\"icon\":"@ + rendered_icon(source),
        None => Seq::empty(),
    }
}

/// The `exec` member of a row, empty when the row has no command.
pub open spec fn rendered_command(command: Option<Seq<char>>) -> Seq<char> {
    match command {
        Some(text) => ",\"exec\":"@ + text,
        None => Seq::empty(),
    }
}

/// The JSON text of a row whose texts are already JSON literals. A member
/// without a value is left out.
pub open spec fn rendered_row(row: SearchResultView) -> Seq<char> {
    "{\"id\":"@ + decimal(row.id as nat) + ",\"name\":"@ + row.name + ",\"description\":"@
        + row.description + rendered_keywords(row.keywords) + rendered_icon_member(row.icon)
        + rendered_command(row.command) + "}"@
}

/// The JSON text of a message whose texts are already JSON literals.
pub open spec fn rendered(response: ResponseView) -> Seq<char> {
    match response {
        ResponseView::Append(row) => "{\"Append\":"@ + rendered_row(row) + "}"@,
        ResponseView::Clear => "\"Clear\""@,
        ResponseView::Close => "\"Close\""@,
        ResponseView::Fill(text) => "{\"Fill\":"@ + text + "}"@,
        ResponseView::Finished => "\"Finished\""@,
        ResponseView::Context { id, options } => "{\"Context\":{\"id\":"@ + decimal(id as nat)
            + ",\"options\":["@ + comma_joined(options.map_values(|o| rendered_option(o)))
            + "]}}"@,
    }
}

/// Every text of the list as a JSON literal.
pub open spec fn quoted_list(list: Seq<Seq<char>>) -> Seq<Seq<char>> {
    Seq::new(list.len(), |i: int| json_literal(list[i]))
}

/// An optional text as a JSON literal.
pub open spec fn quoted_optional(text: Option<Seq<char>>) -> Option<Seq<char>> {
    match text {
        Some(text) => Some(json_literal(text)),
        None => None,
    }
}

/// Optional keywords as JSON literals.
pub open spec fn quoted_keywords(keywords: Option<Seq<Seq<char>>>) -> Option<Seq<Seq<char>>> {
    match keywords {
        Some(list) => Some(quoted_list(list)),
        None => None,
    }
}

/// An optional icon source with its text as a JSON literal.
pub open spec fn quoted_icon(icon: Option<IconSourceView>) -> Option<IconSourceView> {
    match icon {
        Some(IconSourceView::Name(name)) => Some(IconSourceView::Name(json_literal(name))),
        Some(IconSourceView::Mime(mime)) => Some(IconSourceView::Mime(json_literal(mime))),
        None => None,
    }
}

/// A row with each of its texts replaced by that text's JSON literal.
pub open spec fn quoted_row(row: SearchResultView) -> SearchResultView {
    SearchResultView {
        id: row.id,
        name: json_literal(row.name),
        description: json_literal(row.description),
        keywords: quoted_keywords(row.keywords),
        icon: quoted_icon(row.icon),
        command: quoted_optional(row.command),
    }
}

/// Context options with each name replaced by its JSON literal.
pub open spec fn quoted_options(options: Seq<ContextOptionView>) -> Seq<ContextOptionView> {
    Seq::new(
        options.len(),
        |i: int| ContextOptionView { id: options[i].id, name: json_literal(options[i].name) },
    )
}

/// A message with each of its texts replaced by that text's JSON literal.
pub open spec fn quoted(response: ResponseView) -> ResponseView {
    match response {
        ResponseView::Append(row) => ResponseView::Append(quoted_row(row)),
        ResponseView::Fill(text) => ResponseView::Fill(json_literal(text)),
        ResponseView::Context { id, options } => ResponseView::Context {
            id,
            options: quoted_options(options),
        },
        other => other,
    }
}

/// The line that carries a message to the host: the message's JSON text,
/// with every text of the message as a JSON literal, and a line feed.
pub open spec fn encoded(response: ResponseView) -> Seq<char> {
    rendered(quoted(response)) + "\n"@
}

/// Whether none of the texts of a message holds a line feed.
pub open spec fn texts_on_one_line(response: ResponseView) -> bool {
    match response {
        ResponseView::Append(row) => {
            &&& on_one_line(row.name)
            &&& on_one_line(row.description)
            &&& match row.keywords {
                Some(list) => forall|i: int| 0 <= i < list.len() ==> on_one_line(#[trigger] list[i]),
                None => true,
            }
            &&& match row.icon {
                Some(IconSourceView::Name(name)) => on_one_line(name),
                Some(IconSourceView::Mime(mime)) => on_one_line(mime),
                None => true,
            }
            &&& match row.command {
                Some(text) => on_one_line(text),
                None => true,
            }
        },
        ResponseView::Fill(text) => on_one_line(text),
        ResponseView::Context { id, options } => forall|i: int|
            0 <= i < options.len() ==> on_one_line((#[trigger] options[i]).name),
        _ => true,
    }
}

/// A text holds no line feed once its characters are escaped.
pub proof fn lemma_escaped_text_on_one_line(text: Seq<char>)
    ensures
        on_one_line(escaped_text(text)),
    decreases text.len(),
{
    if text.len() > 0 {
        lemma_escaped_text_on_one_line(text.drop_last());
        assert(on_one_line(escaped(text.last())));
    }
}

/// A JSON literal holds no line feed, whatever the text.
pub proof fn lemma_literal_on_one_line(text: Seq<char>)
    ensures
        on_one_line(json_literal(text)),
{
    lemma_escaped_text_on_one_line(text);
}

/// A message whose texts were replaced by their JSON literals holds no line
/// feed in any of its texts.
pub proof fn lemma_quoted_on_one_line(response: ResponseView)
    ensures
        texts_on_one_line(quoted(response)),
{
    match response {
        ResponseView::Append(row) => {
            lemma_literal_on_one_line(row.name);
            lemma_literal_on_one_line(row.description);
            if let Some(list) = row.keywords {
                assert forall|i: int| 0 <= i < quoted_list(list).len() implies on_one_line(
                    #[trigger] quoted_list(list)[i],
                ) by {
                    lemma_literal_on_one_line(list[i]);
                }
            }
            match row.icon {
                Some(IconSourceView::Name(name)) => lemma_literal_on_one_line(name),
                Some(IconSourceView::Mime(mime)) => lemma_literal_on_one_line(mime),
                None => {},
            }
            if let Some(text) = row.command {
                lemma_literal_on_one_line(text);
            }
        },
        ResponseView::Fill(text) => {
            lemma_literal_on_one_line(text);
        },
        ResponseView::Context { id, options } => {
            assert forall|i: int| 0 <= i < quoted_options(options).len() implies on_one_line(
                (#[trigger] quoted_options(options)[i]).name,
            ) by {
                lemma_literal_on_one_line(options[i].name);
            }
        },
        _ => {},
    }
}

/// Every message is written on one line: the line that carries it ends
/// with a line feed and holds no other.
pub proof fn lemma_encoded_is_one_line(response: ResponseView)
    ensures
        encoded(response).len() > 0,
        encoded(response).last() == '\n',
        on_one_line(encoded(response).drop_last()),
{
    lemma_quoted_on_one_line(response);
    lemma_rendered_on_one_line(quoted(response));
    reveal_strlit("\n");
    assert(encoded(response).drop_last() =~= rendered(quoted(response)));
}

/// A number written in decimal notation holds no line feed.
pub proof fn lemma_decimal_on_one_line(n: nat)
    ensures
        on_one_line(decimal(n)),
    decreases n,
{
    if n >= 10 {
        lemma_decimal_on_one_line(n / 10);
    }
}

/// Texts without a line feed, joined by commas, hold no line feed.
pub proof fn lemma_comma_joined_on_one_line(parts: Seq<Seq<char>>)
    requires
        forall|i: int| 0 <= i < parts.len() ==> on_one_line(#[trigger] parts[i]),
    ensures
        on_one_line(comma_joined(parts)),
    decreases parts.len(),
{
    reveal_strlit(",");
    if parts.len() > 1 {
        lemma_comma_joined_on_one_line(parts.drop_last());
        assert(on_one_line(parts.last()));
    } else if parts.len() == 1 {
        assert(on_one_line(parts[0]));
    }
}

/// A row whose texts hold no line feed is written without one.
pub proof fn lemma_rendered_row_on_one_line(row: SearchResultView)
    requires
        texts_on_one_line(ResponseView::Append(row)),
    ensures
        on_one_line(rendered_row(row)),
{
    reveal_strlit("{\"id\":");
    reveal_strlit(",\"name\":");
    reveal_strlit(",\"description\":");
    reveal_strlit(",\"keywords\":[");
    reveal_strlit("]");
    reveal_strlit(",\"icon\":");
    reveal_strlit("{\"Name\":");
    reveal_strlit("{\"Mime\":");
    reveal_strlit(",\"exec\":");
    reveal_strlit("}");
    lemma_decimal_on_one_line(row.id as nat);
    if let Some(list) = row.keywords {
        lemma_comma_joined_on_one_line(list);
    }
    assert(on_one_line(rendered_keywords(row.keywords)));
    assert(on_one_line(rendered_icon_member(row.icon)));
    assert(on_one_line(rendered_command(row.command)));
}

/// A message whose texts hold no line feed is written without one: all of
/// it stands on one line.
pub proof fn lemma_rendered_on_one_line(response: ResponseView)
    requires
        texts_on_one_line(response),
    ensures
        on_one_line(rendered(response)),
{
    reveal_strlit("{\"Append\":");
    reveal_strlit("}");
    reveal_strlit("\"Clear\"");
    reveal_strlit("\"Close\"");
    reveal_strlit("{\"Fill\":");
    reveal_strlit("\"Finished\"");
    reveal_strlit("{\"Context\":{\"id\":");
    reveal_strlit(",\"options\":[");
    reveal_strlit("]}}");
    match response {
        ResponseView::Append(row) => {
            lemma_rendered_row_on_one_line(row);
        },
        ResponseView::Context { id, options } => {
            reveal_strlit("{\"id\":");
            reveal_strlit(",\"name\":");
            lemma_decimal_on_one_line(id as nat);
            let parts = options.map_values(|o| rendered_option(o));
            assert forall|i: int| 0 <= i < parts.len() implies on_one_line(#[trigger] parts[i]) by {
                lemma_decimal_on_one_line(options[i].id as nat);
                assert(on_one_line(options[i].name));
            }
            lemma_comma_joined_on_one_line(parts);
        },
        _ => {},
    }
}

/// Joins texts with `,` between neighbours.
pub fn comma_join(parts: &Vec<String>) -> (out: String)
    ensures
        out@ == comma_joined(parts.deep_view()),
{
    let ghost all = parts.deep_view();
    let mut out = String::new();
    let mut i: usize = 0;
    assert(all.take(0) =~= Seq::empty());
    while i < parts.len()
        invariant
            i <= parts.len(),
            all == parts.deep_view(),
            out@ == comma_joined(all.take(i as int)),
        decreases parts.len() - i,
    {
        if i > 0 {
            out.append(",");
        }
        out.append(parts[i].as_str());
        proof {
            let next = all.take(i as int + 1);
            assert(next.drop_last() =~= all.take(i as int));
            assert(next.last() == parts[i as int]@);
            if i == 0 {
                assert(out@ =~= next[0]);
            }
        }
        i = i + 1;
    }
    assert(all.take(i as int) =~= all);
    out
}

/// Writes a context option whose name is already a JSON literal.
pub fn render_option(option: &ContextOption) -> (out: String)
    ensures
        out@ == rendered_option(option@),
{
    let mut out = "{\"id\":".to_owned();
    out.append(decimal_text(option.id).as_str());
    out.append(",\"name\":");
    out.append(option.name.as_str());
    out.append("}");
    out
}

/// Writes an icon source whose text is already a JSON literal.
pub fn render_icon(icon: &IconSource) -> (out: String)
    ensures
        out@ == rendered_icon(icon@),
{
    match icon {
        IconSource::Name(name) => {
            let mut out = "{\"Name\":".to_owned();
            out.append(name.as_str());
            out.append("}");
            out
        },
        IconSource::Mime(mime) => {
            let mut out = "{\"Mime\":".to_owned();
            out.append(mime.as_str());
            out.append("}");
            out
        },
    }
}

/// Writes a row whose texts are already JSON literals.
pub fn render_row(row: &PluginSearchResult) -> (out: String)
    ensures
        out@ == rendered_row(row@),
{
    let mut out = "{\"id\":".to_owned();
    out.append(decimal_text(row.id).as_str());
    out.append(",\"name\":");
    out.append(row.name.as_str());
    out.append(",\"description\":");
    out.append(row.description.as_str());
    let ghost head = out@;
    if let Some(keywords) = &row.keywords {
        out.append(",\"keywords\":[");
        out.append(comma_join(keywords).as_str());
        out.append("]");
    }
    assert(out@ =~= head + rendered_keywords(row@.keywords));
    if let Some(icon) = &row.icon {
        out.append(",\"icon\":");
        out.append(render_icon(icon).as_str());
    }
    assert(out@ =~= head + rendered_keywords(row@.keywords) + rendered_icon_member(row@.icon));
    if let Some(command) = &row.command {
        out.append(",\"exec\":");
        out.append(command.as_str());
    }
    assert(out@ =~= head + rendered_keywords(row@.keywords) + rendered_icon_member(row@.icon)
        + rendered_command(row@.command));
    out.append("}");
    out
}

/// Writes each context option of a list.
fn render_options(options: &Vec<ContextOption>) -> (out: Vec<String>)
    ensures
        out.deep_view() == options.deep_view().map_values(|o| rendered_option(o)),
{
    let mut out: Vec<String> = Vec::new();
    let mut i: usize = 0;
    while i < options.len()
        invariant
            i <= options.len(),
            out.len() == i,
            forall|j: int| 0 <= j < i ==> (#[trigger] out[j])@ == rendered_option(options[j]@),
        decreases options.len() - i,
    {
        out.push(render_option(&options[i]));
        i = i + 1;
    }
    assert(out.deep_view() =~= options.deep_view().map_values(|o| rendered_option(o)));
    out
}

/// Writes the JSON text of a message whose texts are already JSON literals.
pub fn render(response: &PluginResponse) -> (out: String)
    ensures
        out@ == rendered(response@),
{
    match response {
        PluginResponse::Append(row) => {
            let mut out = "{\"Append\":".to_owned();
            out.append(render_row(row).as_str());
            out.append("}");
            out
        },
        PluginResponse::Clear => "\"Clear\"".to_owned(),
        PluginResponse::Close => "\"Close\"".to_owned(),
        PluginResponse::Fill(text) => {
            let mut out = "{\"Fill\":".to_owned();
            out.append(text.as_str());
            out.append("}");
            out
        },
        PluginResponse::Finished => "\"Finished\"".to_owned(),
        PluginResponse::Context { id, options } => {
            let mut out = "{\"Context\":{\"id\":".to_owned();
            out.append(decimal_text(*id).as_str());
            out.append(",\"options\":[");
            out.append(comma_join(&render_options(options)).as_str());
            out.append("]}}");
            out
        },
    }
}

/// The JSON literal of a text.
pub fn literal(text: &str) -> (out: String)
    ensures
        out@ == json_literal(text@),
{
    match quote(text) {
        Some(out) => out,
        None => String::new(),
    }
}

/// Turns every text of a list into its JSON literal.
fn quote_list(list: &Vec<String>) -> (out: Vec<String>)
    ensures
        out.deep_view() == quoted_list(list.deep_view()),
{
    let mut literals: Vec<String> = Vec::new();
    let mut i: usize = 0;
    while i < list.len()
        invariant
            i <= list.len(),
            literals.len() == i,
            forall|j: int| 0 <= j < i ==> (#[trigger] literals[j])@ == json_literal(list[j]@),
        decreases list.len() - i,
    {
        literals.push(literal(list[i].as_str()));
        i = i + 1;
    }
    assert(literals.deep_view() =~= quoted_list(list.deep_view()));
    literals
}

/// Turns the name of every context option into its JSON literal.
fn quote_options(options: &Vec<ContextOption>) -> (out: Vec<ContextOption>)
    ensures
        out.deep_view() == quoted_options(options.deep_view()),
{
    let mut literals: Vec<ContextOption> = Vec::new();
    let mut i: usize = 0;
    while i < options.len()
        invariant
            i <= options.len(),
            literals.len() == i,
            forall|j: int|
                0 <= j < i ==> (#[trigger] literals[j])@ == (ContextOptionView {
                    id: options[j].id,
                    name: json_literal(options[j].name@),
                }),
        decreases options.len() - i,
    {
        literals.push(
            ContextOption { id: options[i].id, name: literal(options[i].name.as_str()) },
        );
        i = i + 1;
    }
    assert(literals.deep_view() =~= quoted_options(options.deep_view()));
    literals
}

/// Turns every text of a row into its JSON literal.
fn quote_row(row: &PluginSearchResult) -> (out: PluginSearchResult)
    ensures
        out@ == quoted_row(row@),
{
    let keywords = match &row.keywords {
        Some(list) => Some(quote_list(list)),
        None => None,
    };
    let icon = match &row.icon {
        Some(IconSource::Name(text)) => Some(IconSource::Name(literal(text.as_str()))),
        Some(IconSource::Mime(text)) => Some(IconSource::Mime(literal(text.as_str()))),
        None => None,
    };
    let command = match &row.command {
        Some(text) => Some(literal(text.as_str())),
        None => None,
    };
    PluginSearchResult {
        id: row.id,
        name: literal(row.name.as_str()),
        description: literal(row.description.as_str()),
        keywords,
        icon,
        command,
    }
}

/// Replaces every text of a message by that text's JSON literal.
pub fn quote_response(response: &PluginResponse) -> (out: PluginResponse)
    ensures
        out@ == quoted(response@),
{
    match response {
        PluginResponse::Append(row) => PluginResponse::Append(quote_row(row)),
        PluginResponse::Clear => PluginResponse::Clear,
        PluginResponse::Close => PluginResponse::Close,
        PluginResponse::Fill(text) => PluginResponse::Fill(literal(text.as_str())),
        PluginResponse::Finished => PluginResponse::Finished,
        PluginResponse::Context { id, options } => PluginResponse::Context {
            id: *id,
            options: quote_options(options),
        },
    }
}

/// Encodes a message as the line to write to the host. Every message has
/// such a line. The line ends with a line feed and holds no other, so that
/// the host can tell the messages apart.
pub fn send_response(response: &PluginResponse) -> (line: String)
    ensures
        line@ == encoded(response@),
        line@.len() > 0,
        line@.last() == '\n',
        on_one_line(line@.drop_last()),
{
    proof {
        lemma_encoded_is_one_line(response@);
    }
    let mut line = render(&quote_response(response));
    line.append("\n");
    line
}

} // verus!
