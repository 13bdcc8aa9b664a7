//! Ollama's native `/api/chat`: the messages a conversation becomes, and
//! the interpretation of the streamed reply.

use vstd::prelude::*;

use crate::text::{
    chars_of, decimal, push_decimal, string_of, trim_ws, trim_ws_vec, extend_chars,
};

verus! {

/// Whether `serde_json::from_str::<serde_json::Value>` accepts `text`.
pub uninterp spec fn json_parses(text: Seq<char>) -> bool;

/// `serde_json::from_str::<serde_json::Value>(text).is_ok()`: the contract
/// claims that whether the text is accepted depends on the text alone.
#[verifier::external_body]
fn is_json(text: &str) -> (r: bool)
    ensures
        r == json_parses(text@),
{
    serde_json::from_str::<serde_json::Value>(text).is_ok()
}

/// The lowercase hexadecimal digit for `n` (0 to 15).
pub open spec fn lower_hex_digit(n: int) -> char {
    if n < 10 {
        (48 + n) as char
    } else {
        (87 + n) as char
    }
}

/// How serde_json writes one character inside a JSON string: `"` and `\`
/// with a backslash, backspace, tab, line feed, form feed and carriage
/// return as `\b \t \n \f \r`, the other characters below U+0020 as
/// `\u00xx` (lowercase hex), every other character as itself.
pub open spec fn json_char_escape(c: char) -> Seq<char> {
    if c == '"' {
        seq!['\\', '"']
    } else if c == '\\' {
        seq!['\\', '\\']
    } else if c == '\u{8}' {
        seq!['\\', 'b']
    } else if c == '\t' {
        seq!['\\', 't']
    } else if c == '\n' {
        seq!['\\', 'n']
    } else if c == '\u{c}' {
        seq!['\\', 'f']
    } else if c == '\r' {
        seq!['\\', 'r']
    } else if (c as int) < 0x20 {
        seq![
            '\\',
            'u',
            '0',
            '0',
            lower_hex_digit((c as int) / 16),
            lower_hex_digit((c as int) % 16),
        ]
    } else {
        seq![c]
    }
}

/// The characters of `text`, each written as in a JSON string.
pub open spec fn json_escaped(text: Seq<char>) -> Seq<char>
    decreases text.len(),
{
    if text.len() == 0 {
        Seq::empty()
    } else {
        json_escaped(text.drop_last()) + json_char_escape(text.last())
    }
}

/// The JSON string literal that holds `text`.
pub open spec fn json_quoted(text: Seq<char>) -> Seq<char> {
    seq!['"'] + json_escaped(text) + seq!['"']
}

/// `serde_json::to_string(text)`: the contract claims the JSON string
/// literal of the text, escaped as serde_json's serializer writes strings
/// (`format_escaped_str` and its `ESCAPE` table). Serialising a `str` into
/// a vector cannot fail, so the error arm is never taken.
#[verifier::external_body]
fn json_string_literal(text: &str) -> (r: String)
    ensures
        r@ == json_quoted(text@),
{
    match serde_json::to_string(text) {
        Ok(quoted) => quoted,
        Err(_) => String::new(),
    }
}

/// One part of the content of a conversation message.
pub enum ContentItem {
    InputText { text: String },
    OutputText { text: String },
    InputImage { image_url: String },
}

/// One item of a conversation, as far as the native chat conversion reads it.
pub enum ResponseItem {
    Message { role: String, content: Vec<ContentItem> },
    FunctionCall { name: String, arguments: String },
    FunctionCallOutput { call_id: String, output: String },
    CustomToolCall { name: String, input: String },
    CustomToolCallOutput { call_id: String, output: String },
    /// Items with no native chat counterpart (reasoning, searches, ...).
    Other,
}

/// The arguments of a tool call.
pub enum ToolArguments {
    /// JSON text.
    Json(String),
    /// Text that is not JSON; the call carries it as a JSON string.
    Text(String),
}

/// The abstract value of [`ToolArguments`].
pub ghost enum ToolArgumentsView {
    Json(Seq<char>),
    Text(Seq<char>),
}

impl View for ToolArguments {
    type V = ToolArgumentsView;

    open spec fn view(&self) -> ToolArgumentsView {
        match self {
            ToolArguments::Json(t) => ToolArgumentsView::Json(t@),
            ToolArguments::Text(t) => ToolArgumentsView::Text(t@),
        }
    }
}

/// A tool call in a native chat message.
pub struct OllamaToolCall {
    pub name: String,
    pub arguments: ToolArguments,
}

/// The abstract value of a tool call: its name and arguments.
pub type CallView = (Seq<char>, ToolArgumentsView);

/// The abstract values of a list of tool calls.
pub open spec fn call_views(calls: Seq<OllamaToolCall>) -> Seq<CallView> {
    calls.map_values(|c: OllamaToolCall| (c.name@, c.arguments@))
}

/// The arguments a call gets from the text a conversation item carries:
/// the text itself when it is JSON, else the text as a JSON string.
pub open spec fn spec_tool_arguments(text: Seq<char>) -> ToolArgumentsView {
    if json_parses(text) {
        ToolArgumentsView::Json(text)
    } else {
        ToolArgumentsView::Text(text)
    }
}

/// The JSON text of tool-call arguments: JSON text as it is, other text as
/// the JSON string literal holding it.
pub open spec fn arguments_text(a: ToolArgumentsView) -> Seq<char> {
    match a {
        ToolArgumentsView::Json(t) => t,
        ToolArgumentsView::Text(t) => json_quoted(t),
    }
}

/// A native chat message.
pub struct OllamaChatMessage {
    pub role: String,
    pub content: String,
    pub tool_calls: Option<Vec<OllamaToolCall>>,
}

/// A conversation item that cannot be sent to the native chat endpoint.
pub struct ChatConversionError {
    pub message: String,
}

/// The content has an image.
pub open spec fn has_image(content: Seq<ContentItem>) -> bool {
    exists|i: int| 0 <= i < content.len() && content[i] is InputImage
}

/// The texts of the content, in order.
pub open spec fn content_texts(content: Seq<ContentItem>) -> Seq<Seq<char>>
    decreases content.len(),
{
    if content.len() == 0 {
        Seq::empty()
    } else {
        let rest = content_texts(content.drop_last());
        match content.last() {
            ContentItem::InputText { text } => rest.push(text@),
            ContentItem::OutputText { text } => rest.push(text@),
            ContentItem::InputImage { .. } => rest,
        }
    }
}

/// The parts joined with `sep` between them.
pub open spec fn join(parts: Seq<Seq<char>>, sep: Seq<char>) -> Seq<char>
    decreases parts.len(),
{
    if parts.len() == 0 {
        Seq::empty()
    } else if parts.len() == 1 {
        parts[0]
    } else {
        join(parts.drop_last(), sep) + sep + parts.last()
    }
}

/// The message text of the content: its texts, one per line; images are
/// refused.
pub open spec fn spec_content_text(content: Seq<ContentItem>) -> Option<Seq<char>> {
    if has_image(content) {
        None
    } else {
        Some(join(content_texts(content), "\n"@))
    }
}

/// The error for image content.
pub open spec fn image_error_message() -> Seq<char> {
    "native Ollama smartcontext does not support image inputs yet"@
}

/// The text of a message's content, one text per line.
pub fn ollama_content_text(content: Vec<ContentItem>) -> (r: Result<String, ChatConversionError>)
    ensures
        match spec_content_text(content@) {
            Some(t) => r matches Ok(s) && s@ == t,
            None => r matches Err(e) && e.message@ == image_error_message(),
        },
{
    let n = content.len();
    let mut out: Vec<char> = Vec::new();
    let mut empty = true;
    let mut i: usize = 0;
    while i < n
        invariant
            n == content@.len(),
            i <= n,
            !has_image(content@.take(i as int)),
            empty == (content_texts(content@.take(i as int)).len() == 0),
            out@ == join(content_texts(content@.take(i as int)), "\n"@),
        decreases n - i,
    {
        assert(content@.take(i + 1).drop_last() =~= content@.take(i as int));
        match &content[i] {
            ContentItem::InputText { text } | ContentItem::OutputText { text } => {
                let ghost parts = content_texts(content@.take(i as int));
                let ghost before = out@;
                if !empty {
                    out.push('\n');
                }
                let t = chars_of(text.as_str());
                extend_chars(&mut out, &t);
                proof {
                    reveal_strlit("\n");
                    assert("\n"@ =~= seq!['\n']);
                    assert(content@.take(i + 1).last() == content@[i as int]);
                    assert(content_texts(content@.take(i + 1)) == parts.push(t@));
                    assert(parts.push(t@).drop_last() =~= parts);
                    if empty {
                        assert(out@ =~= t@);
                    } else {
                        assert(out@ =~= before + "\n"@ + t@);
                    }
                }
                empty = false;
            },
            ContentItem::InputImage { .. } => {
                proof {
                    assert(content@[i as int] is InputImage);
                }
                return Err(
                    ChatConversionError {
                        message: String::from_str(
                            "native Ollama smartcontext does not support image inputs yet",
                        ),
                    },
                );
            },
        }
        proof {
            let ghost next = content@.take(i + 1);
            assert forall|k: int| 0 <= k < i + 1 implies !(#[trigger] next[k] is InputImage) by {
                if k < i {
                    assert(next[k] == content@.take(i as int)[k]);
                }
            }
        }
        i = i + 1;
    }
    assert(content@.take(n as int) =~= content@);
    Ok(string_of(&out))
}

/// The native role of a conversation role: `developer` becomes `system`.
pub open spec fn native_role(role: Seq<char>) -> Seq<char> {
    if role == "developer"@ {
        "system"@
    } else {
        role
    }
}

/// The text of a tool result message.
pub open spec fn tool_output_text(call_id: Seq<char>, output: Seq<char>) -> Seq<char> {
    "Tool output for "@ + call_id + ":\n"@ + output
}

/// The abstract shape of a native chat message: role, text, and its tool
/// calls (`None` when it has no tool-call list).
pub open spec fn message_shape(m: OllamaChatMessage) -> (Seq<char>, Seq<char>, Option<Seq<CallView>>) {
    (m.role@, m.content@, match m.tool_calls {
        Some(calls) => Some(call_views(calls@)),
        None => None,
    })
}

/// The native messages one conversation item adds: none for items without
/// a counterpart; `None` when the item cannot be converted.
pub open spec fn spec_item_messages(item: ResponseItem) -> Option<
    Seq<(Seq<char>, Seq<char>, Option<Seq<CallView>>)>,
> {
    match item {
        ResponseItem::Message { role, content } => match spec_content_text(content@) {
            Some(t) => Some(seq![(native_role(role@), t, None)]),
            None => None,
        },
        ResponseItem::FunctionCall { name, arguments } => Some(
            seq![("assistant"@, Seq::empty(), Some(seq![(name@, spec_tool_arguments(arguments@))]))],
        ),
        ResponseItem::FunctionCallOutput { call_id, output } => Some(
            seq![("tool"@, tool_output_text(call_id@, output@), None)],
        ),
        ResponseItem::CustomToolCall { name, input } => Some(
            seq![("assistant"@, Seq::empty(), Some(seq![(name@, spec_tool_arguments(input@))]))],
        ),
        ResponseItem::CustomToolCallOutput { call_id, output } => Some(
            seq![("tool"@, tool_output_text(call_id@, output@), None)],
        ),
        ResponseItem::Other => Some(Seq::empty()),
    }
}

fn tool_call_message(name: String, arguments: String) -> (r: OllamaChatMessage)
    ensures
        message_shape(r) == (
            "assistant"@,
            Seq::<char>::empty(),
            Some(seq![(name@, spec_tool_arguments(arguments@))]),
        ),
{
    let ghost n = name@;
    let ghost text = arguments@;
    let args = if is_json(arguments.as_str()) {
        ToolArguments::Json(arguments)
    } else {
        ToolArguments::Text(arguments)
    };
    let calls = vec![OllamaToolCall { name, arguments: args }];
    let r = OllamaChatMessage {
        role: String::from_str("assistant"),
        content: String::new(),
        tool_calls: Some(calls),
    };
    assert(call_views(calls@) =~= seq![(n, spec_tool_arguments(text))]);
    r
}

fn tool_output_message(call_id: &str, output: &str) -> (r: OllamaChatMessage)
    ensures
        message_shape(r) == ("tool"@, tool_output_text(call_id@, output@), None::<Seq<CallView>>),
{
    let mut content = String::from_str("Tool output for ");
    content.append(call_id);
    content.append(":\n");
    content.append(output);
    OllamaChatMessage { role: String::from_str("tool"), content, tool_calls: None }
}

/// Appends the native chat messages for one conversation item.
pub fn append_ollama_message_from_response_item(
    item: ResponseItem,
    messages: &mut Vec<OllamaChatMessage>,
) -> (r: Result<(), ChatConversionError>)
    ensures
        match spec_item_messages(item) {
            Some(added) => r is Ok && final(messages)@.map_values(|m: OllamaChatMessage| message_shape(m))
                == old(messages)@.map_values(|m: OllamaChatMessage| message_shape(m)) + added,
            None => r matches Err(e) && e.message@ == image_error_message() && final(messages)@
                == old(messages)@,
        },
{
    let ghost it = item;
    let ghost before = messages@;
    match item {
        ResponseItem::Message { role, content } => {
            let rc = chars_of(role.as_str());
            let developer = chars_of("developer");
            let native = if crate::text::chars_eq(&rc, &developer) {
                String::from_str("system")
            } else {
                role
            };
            let text = match ollama_content_text(content) {
                Ok(t) => t,
                Err(e) => {
                    return Err(e);
                },
            };
            messages.push(OllamaChatMessage { role: native, content: text, tool_calls: None });
        },
        ResponseItem::FunctionCall { name, arguments } => {
            messages.push(tool_call_message(name, arguments));
        },
        ResponseItem::FunctionCallOutput { call_id, output } => {
            messages.push(tool_output_message(call_id.as_str(), output.as_str()));
        },
        ResponseItem::CustomToolCall { name, input } => {
            messages.push(tool_call_message(name, input));
        },
        ResponseItem::CustomToolCallOutput { call_id, output } => {
            messages.push(tool_output_message(call_id.as_str(), output.as_str()));
        },
        ResponseItem::Other => {},
    }
    assert(messages@.map_values(|m: OllamaChatMessage| message_shape(m)) =~= before.map_values(
        |m: OllamaChatMessage| message_shape(m),
    ) + spec_item_messages(it).unwrap());
    Ok(())
}

/// The abstract shapes of a list of native chat messages.
pub open spec fn shapes(messages: Seq<OllamaChatMessage>) -> Seq<
    (Seq<char>, Seq<char>, Option<Seq<CallView>>),
> {
    messages.map_values(|m: OllamaChatMessage| message_shape(m))
}

/// The native messages of a sequence of conversation items, in order;
/// `None` when one of them cannot be converted.
pub open spec fn spec_items_messages(items: Seq<ResponseItem>) -> Option<
    Seq<(Seq<char>, Seq<char>, Option<Seq<CallView>>)>,
>
    decreases items.len(),
{
    if items.len() == 0 {
        Some(Seq::empty())
    } else {
        match spec_items_messages(items.drop_last()) {
            None => None,
            Some(before) => match spec_item_messages(items.last()) {
                None => None,
                Some(added) => Some(before + added),
            },
        }
    }
}

/// The messages of a native chat request: the instructions as a system
/// message unless they are blank, then the messages of the conversation.
pub open spec fn spec_chat_messages(instructions: Seq<char>, input: Seq<ResponseItem>) -> Option<
    Seq<(Seq<char>, Seq<char>, Option<Seq<CallView>>)>,
> {
    let head: Seq<(Seq<char>, Seq<char>, Option<Seq<CallView>>)> = if trim_ws(instructions).len()
        > 0 {
        seq![("system"@, instructions, None)]
    } else {
        Seq::empty()
    };
    match spec_items_messages(input) {
        Some(m) => Some(head + m),
        None => None,
    }
}

/// The messages of a native chat request built from instructions and the
/// conversation so far.
pub fn ollama_chat_messages(instructions: String, input: Vec<ResponseItem>) -> (r: Result<
    Vec<OllamaChatMessage>,
    ChatConversionError,
>)
    ensures
        match spec_chat_messages(instructions@, input@) {
            Some(m) => r matches Ok(v) && shapes(v@) == m,
            None => r matches Err(e) && e.message@ == image_error_message(),
        },
{
    let ghost all = input@;
    let ghost instr = instructions@;
    let mut messages: Vec<OllamaChatMessage> = Vec::new();
    let blank = trim_ws_vec(&chars_of(instructions.as_str())).len() == 0;
    if !blank {
        messages.push(
            OllamaChatMessage { role: String::from_str("system"), content: instructions, tool_calls: None },
        );
    }
    let ghost head = shapes(messages@);
    assert(head == if trim_ws(instr).len() > 0 {
        seq![("system"@, instr, None::<Seq<CallView>>)]
    } else {
        Seq::<(Seq<char>, Seq<char>, Option<Seq<CallView>>)>::empty()
    }) by {
        if !blank {
            assert(shapes(messages@) =~= seq![("system"@, instr, None::<Seq<CallView>>)]);
        } else {
            assert(shapes(messages@) =~= Seq::<(Seq<char>, Seq<char>, Option<Seq<CallView>>)>::empty());
        }
    }
    let mut rest = input;
    let ghost mut k: int = 0;
    assert(all.take(0) =~= Seq::<ResponseItem>::empty());
    assert(all.skip(0) =~= all);
    while rest.len() > 0
        invariant
            all == input@,
            instr == instructions@,
            0 <= k <= all.len(),
            rest@ == all.skip(k),
            spec_items_messages(all.take(k)) matches Some(done) && shapes(messages@) == head + done,
        decreases rest@.len(),
    {
        let ghost before = shapes(messages@);
        let ghost done = spec_items_messages(all.take(k))->Some_0;
        let item = rest.remove(0);
        assert(item == all[k]);
        assert(all.take(k + 1).drop_last() =~= all.take(k));
        assert(all.take(k + 1).last() == all[k]);
        match append_ollama_message_from_response_item(item, &mut messages) {
            Ok(()) => {},
            Err(e) => {
                proof {
                    lemma_items_messages_fail(all, k + 1);
                }
                return Err(e);
            },
        }
        proof {
            k = k + 1;
            assert(rest@ =~= all.skip(k));
            let added = spec_item_messages(all[k - 1])->Some_0;
            assert(shapes(messages@) == before + added);
            assert(head + (done + added) =~= (head + done) + added);
        }
    }
    assert(all.take(k) =~= all);
    Ok(messages)
}

proof fn lemma_items_messages_fail(items: Seq<ResponseItem>, n: int)
    requires
        0 < n <= items.len(),
        spec_item_messages(items[n - 1]) is None,
    ensures
        spec_items_messages(items) is None,
    decreases items.len(),
{
    if n < items.len() {
        assert(items.drop_last()[n - 1] == items[n - 1]);
        lemma_items_messages_fail(items.drop_last(), n);
    } else {
        assert(items.last() == items[n - 1]);
    }
}

/// What a Responses tool definition looks like, as far as its conversion
/// to an Ollama tool reads it: its `type`, and whether it has a `function`
/// object and a `name`.
pub struct ResponsesToolShape {
    pub tool_type: Option<String>,
    pub has_function: bool,
    pub has_name: bool,
}

/// How a Responses tool becomes an Ollama tool.
#[derive(Clone, Copy, Debug, PartialEq, Eq, Structural)]
pub enum OllamaToolConversion {
    /// It already has the Ollama form and is sent as it is.
    Keep,
    /// Its name, description and parameters are wrapped in a `function`.
    Wrap,
}

/// The tool has the `function` type.
pub open spec fn is_function_type(tool_type: Option<String>) -> bool {
    match tool_type {
        Some(t) => t@ == "function"@,
        None => false,
    }
}

/// The conversion of one tool; `None` drops it (not a function, or a bare
/// function without a name).
pub open spec fn tool_conversion(tool: ResponsesToolShape) -> Option<OllamaToolConversion> {
    if !is_function_type(tool.tool_type) {
        None
    } else if tool.has_function {
        Some(OllamaToolConversion::Keep)
    } else if tool.has_name {
        Some(OllamaToolConversion::Wrap)
    } else {
        None
    }
}

/// The converted tools, by index, in order.
pub open spec fn tool_conversions(tools: Seq<ResponsesToolShape>) -> Seq<(int, OllamaToolConversion)>
    decreases tools.len(),
{
    if tools.len() == 0 {
        Seq::empty()
    } else {
        let before = tool_conversions(tools.drop_last());
        match tool_conversion(tools.last()) {
            Some(c) => before.push((tools.len() - 1, c)),
            None => before,
        }
    }
}

/// Whether a tool has the `function` type.
pub fn is_function_tool_type(tool_type: Option<&str>) -> (r: bool)
    ensures
        r == match tool_type {
            Some(t) => t@ == "function"@,
            None => false,
        },
{
    match tool_type {
        Some(t) => crate::text::chars_eq(&chars_of(t), &chars_of("function")),
        None => false,
    }
}

/// Which Responses tools are sent to Ollama, and how: `None` when there are
/// no tools or none of them converts.
pub fn plan_ollama_tool_conversion(tools: Option<Vec<ResponsesToolShape>>) -> (r: Option<
    Vec<(usize, OllamaToolConversion)>,
>)
    ensures
        match tools {
            None => r is None,
            Some(ts) => if tool_conversions(ts@).len() == 0 {
                r is None
            } else {
                r matches Some(v) && v@.map_values(|p: (usize, OllamaToolConversion)| (p.0 as int, p.1))
                    == tool_conversions(ts@)
            },
        },
{
    let ts = match tools {
        Some(ts) => ts,
        None => {
            return None;
        },
    };
    let n = ts.len();
    let mut out: Vec<(usize, OllamaToolConversion)> = Vec::new();
    let mut i: usize = 0;
    while i < n
        invariant
            n == ts@.len(),
            i <= n,
            out@.map_values(|p: (usize, OllamaToolConversion)| (p.0 as int, p.1))
                == tool_conversions(ts@.take(i as int)),
        decreases n - i,
    {
        let ghost before = out@;
        assert(ts@.take(i + 1).drop_last() =~= ts@.take(i as int));
        assert(ts@.take(i + 1).last() == ts@[i as int]);
        let t = &ts[i];
        let tool_type: Option<&str> = match &t.tool_type {
            Some(s) => Some(s.as_str()),
            None => None,
        };
        if is_function_tool_type(tool_type) {
            if t.has_function {
                out.push((i, OllamaToolConversion::Keep));
            } else if t.has_name {
                out.push((i, OllamaToolConversion::Wrap));
            }
        }
        assert(out@.map_values(|p: (usize, OllamaToolConversion)| (p.0 as int, p.1))
            =~= tool_conversions(ts@.take(i + 1)));
        i = i + 1;
    }
    assert(ts@.take(n as int) =~= ts@);
    if out.len() == 0 {
        assert(out@.map_values(|p: (usize, OllamaToolConversion)| (p.0 as int, p.1)).len() == 0);
        None
    } else {
        Some(out)
    }
}

// ------------------------------------------------------------------
// The streamed reply
// ------------------------------------------------------------------

/// The complete lines of streamed text, trimmed, with blank lines dropped,
/// and the unfinished rest, given the current unfinished line `cur`.
pub open spec fn lines_from(p: Seq<char>, cur: Seq<char>) -> (Seq<Seq<char>>, Seq<char>)
    decreases p.len(),
{
    if p.len() == 0 {
        (Seq::empty(), cur)
    } else if p[0] == '\n' {
        let r = lines_from(p.drop_first(), Seq::empty());
        let line = trim_ws(cur);
        (
            if line.len() == 0 {
                r.0
            } else {
                seq![line] + r.0
            },
            r.1,
        )
    } else {
        lines_from(p.drop_first(), cur.push(p[0]))
    }
}

/// The lines read from a reply that arrives as `chunks`, when each chunk is
/// appended to the unfinished text `pending` and the result is split by
/// [`split_stream_lines`]; and the text left unfinished at the end.
pub open spec fn lines_by_chunks(chunks: Seq<Seq<char>>, pending: Seq<char>) -> (
    Seq<Seq<char>>,
    Seq<char>,
)
    decreases chunks.len(),
{
    if chunks.len() == 0 {
        (Seq::empty(), pending)
    } else {
        let split = lines_from(pending + chunks[0], Seq::empty());
        let rest = lines_by_chunks(chunks.drop_first(), split.1);
        (split.0 + rest.0, rest.1)
    }
}

/// Splits buffered stream text into its complete, non-blank lines (trimmed)
/// and the text after the last newline.
pub fn split_stream_lines(pending: &str) -> (r: (Vec<String>, String))
    ensures
        r.0@.map_values(|s: String| s@) == lines_from(pending@, Seq::empty()).0,
        r.1@ == lines_from(pending@, Seq::empty()).1,
{
    let p = chars_of(pending);
    let n = p.len();
    let mut lines: Vec<String> = Vec::new();
    let mut cur: Vec<char> = Vec::new();
    let mut i: usize = 0;
    assert(p@.skip(0) =~= p@);
    while i < n
        invariant
            n == p@.len(),
            i <= n,
            lines@.map_values(|s: String| s@) + lines_from(p@.skip(i as int), cur@).0
                == lines_from(p@, Seq::empty()).0,
            lines_from(p@.skip(i as int), cur@).1 == lines_from(p@, Seq::empty()).1,
        decreases n - i,
    {
        let ghost rest = p@.skip(i as int);
        assert(rest.drop_first() =~= p@.skip(i + 1));
        assert(rest[0] == p@[i as int]);
        if p[i] == '\n' {
            let t = trim_ws_vec(&cur);
            if t.len() > 0 {
                let ghost before = lines@;
                lines.push(string_of(&t));
                assert(lines@.map_values(|s: String| s@) =~= before.map_values(|s: String| s@).push(
                    t@,
                ));
                assert(lines@.map_values(|s: String| s@) + lines_from(p@.skip(i + 1), Seq::empty()).0
                    =~= before.map_values(|s: String| s@) + lines_from(rest, cur@).0);
            }
            cur = Vec::new();
        } else {
            cur.push(p[i]);
        }
        i = i + 1;
    }
    (lines, string_of(&cur))
}

/// What has been received of a native chat reply so far.
pub struct ChatStreamState {
    pub content: String,
    pub tool_calls: Vec<OllamaToolCall>,
    pub prompt_eval_count: Option<i64>,
    pub eval_count: Option<i64>,
}

impl ChatStreamState {
    /// The state before any chunk.
    pub fn new() -> (r: Self)
        ensures
            r.content@ == Seq::<char>::empty(),
            r.tool_calls@.len() == 0,
            r.prompt_eval_count is None,
            r.eval_count is None,
    {
        ChatStreamState {
            content: String::new(),
            tool_calls: Vec::new(),
            prompt_eval_count: None,
            eval_count: None,
        }
    }
}

/// One parsed line of a native chat reply.
pub struct OllamaChatStreamChunk {
    pub message: Option<OllamaChatMessage>,
    pub done: bool,
    pub prompt_eval_count: Option<i64>,
    pub eval_count: Option<i64>,
    pub error: Option<String>,
}

/// What a chunk means for the stream.
pub enum ChunkOutcome {
    /// Keep reading.
    Continue,
    /// The provider reported an error; the stream ends with it.
    Failed(String),
    /// The reply is complete; emit the final events.
    Done,
}

/// Applies one chunk: an error ends the stream and changes nothing;
/// otherwise its text and tool calls are appended, reported counts replace
/// the previous ones, and `done` completes the reply.
pub fn apply_chat_chunk(state: &mut ChatStreamState, chunk: OllamaChatStreamChunk) -> (r:
    ChunkOutcome)
    ensures
        match chunk.error {
            Some(e) => r matches ChunkOutcome::Failed(m) && m@ == e@ && final(state).content@
                == old(state).content@ && call_views(final(state).tool_calls@) == call_views(
                old(state).tool_calls@,
            ) && final(state).prompt_eval_count == old(state).prompt_eval_count
                && final(state).eval_count == old(state).eval_count,
            None => {
                &&& final(state).content@ == old(state).content@ + match chunk.message {
                    Some(m) => m.content@,
                    None => Seq::empty(),
                }
                &&& call_views(final(state).tool_calls@) == call_views(old(state).tool_calls@)
                    + match chunk.message {
                    Some(m) => match m.tool_calls {
                        Some(calls) => call_views(calls@),
                        None => Seq::empty(),
                    },
                    None => Seq::empty(),
                }
                &&& final(state).prompt_eval_count == if chunk.prompt_eval_count is Some {
                    chunk.prompt_eval_count
                } else {
                    old(state).prompt_eval_count
                }
                &&& final(state).eval_count == if chunk.eval_count is Some {
                    chunk.eval_count
                } else {
                    old(state).eval_count
                }
                &&& if chunk.done {
                    r is Done
                } else {
                    r is Continue
                }
            },
        },
{
    let OllamaChatStreamChunk { message, done, prompt_eval_count, eval_count, error } = chunk;
    if let Some(error) = error {
        return ChunkOutcome::Failed(error);
    }
    if let Some(message) = message {
        let OllamaChatMessage { role: _, content, tool_calls } = message;
        state.content.append(content.as_str());
        if let Some(calls) = tool_calls {
            let ghost before = state.tool_calls@;
            let mut calls = calls;
            let ghost added = calls@;
            state.tool_calls.append(&mut calls);
            assert(call_views(state.tool_calls@) =~= call_views(before) + call_views(added));
        }
    }
    if prompt_eval_count.is_some() {
        state.prompt_eval_count = prompt_eval_count;
    }
    if eval_count.is_some() {
        state.eval_count = eval_count;
    }
    if done {
        ChunkOutcome::Done
    } else {
        ChunkOutcome::Continue
    }
}

/// An event of the finished reply.
pub enum ChatStreamEvent {
    ToolCall { id: String, name: String, arguments: String, call_id: String },
    Message { id: String, text: String },
    Completed {
        response_id: String,
        input_tokens: i64,
        cached_input_tokens: i64,
        output_tokens: i64,
        reasoning_output_tokens: i64,
        total_tokens: i64,
        end_turn: Option<bool>,
    },
}

/// The id of the tool call at `index`.
pub open spec fn tool_call_id(index: nat) -> Seq<char> {
    "ollama-tool-call-"@ + decimal(index)
}

/// The token totals fit the counter type.
pub open spec fn totals_fit(state: ChatStreamState) -> bool {
    let input = match state.prompt_eval_count {
        Some(n) => n as int,
        None => 0,
    };
    let output = match state.eval_count {
        Some(n) => n as int,
        None => 0,
    };
    i64::MIN <= input + output <= i64::MAX
}

/// The events that end a reply, in order: one per tool call (numbered from
/// 0, with call id `<id>-<name>` and the JSON text of its arguments), the
/// message when there is text, then the completion with the token counts
/// (absent counts are 0, and nothing is cached or spent on reasoning), which
/// ends the turn.
pub fn chat_stream_done_events(state: ChatStreamState) -> (r: Vec<ChatStreamEvent>)
    requires
        totals_fit(state),
    ensures
        r@.len() == state.tool_calls@.len() + (if state.content@.len() > 0 {
            1int
        } else {
            0int
        }) + 1,
        forall|i: int|
            0 <= i < state.tool_calls@.len() ==> (#[trigger] r@[i] matches ChatStreamEvent::ToolCall {
                id,
                name,
                arguments,
                call_id,
            } && id@ == tool_call_id(i as nat) && name@ == state.tool_calls@[i].name@ && arguments@
                == arguments_text(state.tool_calls@[i].arguments@) && call_id@ == tool_call_id(
                i as nat,
            ) + "-"@ + state.tool_calls@[i].name@),
        state.content@.len() > 0 ==> (r@[state.tool_calls@.len() as int] matches ChatStreamEvent::Message {
            id,
            text,
        } && id@ == "ollama-message"@ && text@ == state.content@),
        r@.last() matches ChatStreamEvent::Completed {
            response_id,
            input_tokens,
            cached_input_tokens,
            output_tokens,
            reasoning_output_tokens,
            total_tokens,
            end_turn,
        } && response_id@ == "ollama-chat-response"@ && input_tokens == (match state.prompt_eval_count {
            Some(n) => n,
            None => 0,
        }) && cached_input_tokens == 0 && output_tokens == (match state.eval_count {
            Some(n) => n,
            None => 0,
        }) && reasoning_output_tokens == 0 && total_tokens == input_tokens + output_tokens
            && end_turn == Some(true),
{
    let ChatStreamState { content, tool_calls, prompt_eval_count, eval_count } = state;
    let ghost calls = tool_calls@;
    let mut events: Vec<ChatStreamEvent> = Vec::new();
    let n = tool_calls.len();
    let mut i: usize = 0;
    while i < n
        invariant
            n == tool_calls@.len(),
            tool_calls@ == calls,
            i <= n,
            events@.len() == i,
            forall|k: int|
                0 <= k < i ==> (#[trigger] events@[k] matches ChatStreamEvent::ToolCall {
                    id,
                    name,
                    arguments,
                    call_id,
                } && id@ == tool_call_id(k as nat) && name@ == calls[k].name@ && arguments@
                    == arguments_text(calls[k].arguments@) && call_id@ == tool_call_id(k as nat)
                    + "-"@ + calls[k].name@),
        decreases n - i,
    {
        let call = &tool_calls[i];
        let arguments = match &call.arguments {
            ToolArguments::Json(t) => t.clone(),
            ToolArguments::Text(t) => json_string_literal(t.as_str()),
        };
        let mut id_chars = chars_of("ollama-tool-call-");
        push_decimal(&mut id_chars, i as u64);
        let id = string_of(&id_chars);
        let mut call_id = string_of(&id_chars);
        call_id.append("-");
        call_id.append(call.name.as_str());
        events.push(ChatStreamEvent::ToolCall { id, name: call.name.clone(), arguments, call_id });
        i = i + 1;
    }
    if !content.as_str().is_empty() {
        events.push(ChatStreamEvent::Message { id: String::from_str("ollama-message"), text: content });
    }
    let input_tokens: i64 = match prompt_eval_count {
        Some(n) => n,
        None => 0,
    };
    let output_tokens: i64 = match eval_count {
        Some(n) => n,
        None => 0,
    };
    events.push(
        ChatStreamEvent::Completed {
            response_id: String::from_str("ollama-chat-response"),
            input_tokens,
            cached_input_tokens: 0,
            output_tokens,
            reasoning_output_tokens: 0,
            total_tokens: input_tokens + output_tokens,
            end_turn: Some(true),
        },
    );
    events
}

} // verus!
