//! The chat agent: where it sends requests, and what it does with each streamed item.
use vstd::prelude::*;

use crate::error::CrustyError;
use crate::memory::{ChatMessage, HistoryMessage, HistoryView, TextMessage};
use crate::provider::{normalized_base_url, provider_is_valid, ProviderConfig};
use crate::text::{append_chars, append_str, chars_of, decimal, decimal_chars, string_of};

verus! {

/// The OpenAI-compatible endpoint of a local proxy on `port`.
pub fn proxy_agent_base_url(port: u64) -> (u: String)
    ensures
        u@ == "http://localhost:"@ + decimal(port as nat) + "/v1"@,
{
    let mut v = chars_of("http://localhost:");
    let d = decimal_chars(port);
    append_chars(&mut v, &d);
    append_str(&mut v, "/v1");
    string_of(&v)
}

/// The endpoint an agent uses for a provider: its base URL, normalised; an invalid provider
/// is refused.
pub fn provider_agent_base_url(provider: &ProviderConfig) -> (r: Result<String, CrustyError>)
    ensures
        provider_is_valid(provider@) ==> (r matches Ok(u) && u@ == normalized_base_url(provider@.base_url)),
        !provider_is_valid(provider@) ==> (r matches Err(CrustyError::AgentError(m)) && m@
            == "Provider configuration is invalid (missing base_url or api_key)"@),
{
    if !provider.is_valid() {
        return Err(
            CrustyError::AgentError("Provider configuration is invalid (missing base_url or api_key)".to_owned()),
        );
    }
    Ok(ProviderConfig::normalize_base_url(provider.base_url.as_str()))
}

/// An item of the agent's answer stream.
#[derive(Debug)]
pub enum StreamItem {
    /// A piece of the answer's text.
    Text(String),
    /// The agent calls the tool with this name.
    ToolCall(String),
    /// A part of a tool call with this id.
    ToolCallDelta(String),
    /// Anything else (reasoning, final summaries, ...).
    Other,
}

/// What to do with a streamed item.
#[derive(Debug)]
pub enum StreamAction {
    /// Hand the message to the caller's callback.
    Emit(ChatMessage),
    /// Tell the user.
    Notice(String),
    /// Nothing.
    Ignore,
}

/// The text an item adds to the answer: its text for a text item, nothing otherwise.
pub open spec fn item_text(item: StreamItem) -> Seq<char> {
    match item {
        StreamItem::Text(t) => t@,
        _ => Seq::empty(),
    }
}

/// The answer that a stream of items makes: their texts, in order.
pub open spec fn streamed_text(items: Seq<StreamItem>) -> Seq<char>
    decreases items.len(),
{
    if items.len() == 0 {
        Seq::empty()
    } else {
        streamed_text(items.drop_last()) + item_text(items.last())
    }
}

/// Handles one streamed item: text extends the answer collected so far and goes to the
/// caller as a `model` message; a tool call is announced; anything else is ignored.
pub fn handle_stream_item(full_response: &mut String, item: StreamItem) -> (a: StreamAction)
    ensures
        (match item {
            StreamItem::Text(t) => final(full_response)@ == old(full_response)@ + t@ && (a matches StreamAction::Emit(
                ChatMessage::TextMessage(m),
            ) && m.role@ == "model"@ && m.content@ == t@),
            StreamItem::ToolCall(n) => final(full_response)@ == old(full_response)@ && (a matches StreamAction::Notice(
                s,
            ) && s@ == "Agent calling tool: "@ + n@),
            StreamItem::ToolCallDelta(id) => final(full_response)@ == old(full_response)@ && (a matches StreamAction::Notice(
                s,
            ) && s@ == "Agent calling tool: "@ + id@),
            StreamItem::Other => final(full_response)@ == old(full_response)@ && a is Ignore,
        }),
        final(full_response)@ == old(full_response)@ + item_text(item),
{
    match item {
        StreamItem::Text(t) => {
            let mut v = chars_of(full_response.as_str());
            append_str(&mut v, t.as_str());
            *full_response = string_of(&v);
            StreamAction::Emit(ChatMessage::TextMessage(TextMessage { role: "model".to_owned(), content: t }))
        },
        StreamItem::ToolCall(name) => StreamAction::Notice(crate::text::concat2("Agent calling tool: ", name.as_str())),
        StreamItem::ToolCallDelta(id) => StreamAction::Notice(crate::text::concat2("Agent calling tool: ", id.as_str())),
        StreamItem::Other => StreamAction::Ignore,
    }
}

/// The text of the runtime-information tool.
pub fn runtime_info_text(version: &str, os: &str, arch: &str, pid: u32, cwd: &str) -> (s: String)
    ensures
        s@ == "crate=crusty version="@ + version@ + " os="@ + os@ + " arch="@ + arch@ + " pid="@
            + decimal(pid as nat) + " cwd="@ + cwd@,
{
    let mut v = chars_of("crate=crusty version=");
    append_str(&mut v, version);
    append_str(&mut v, " os=");
    append_str(&mut v, os);
    append_str(&mut v, " arch=");
    append_str(&mut v, arch);
    append_str(&mut v, " pid=");
    let d = decimal_chars(pid as u64);
    append_chars(&mut v, &d);
    append_str(&mut v, " cwd=");
    append_str(&mut v, cwd);
    string_of(&v)
}


/// Handling the items of a stream one by one, from an empty answer, leaves as the answer
/// the texts of the items in the order they came.
pub proof fn law_answer_is_streamed_text(items: Seq<StreamItem>, answers: Seq<Seq<char>>)
    requires
        answers.len() == items.len() + 1,
        answers[0] == Seq::<char>::empty(),
        forall|i: int| 0 <= i < items.len() ==> #[trigger] answers[i + 1] == answers[i] + item_text(items[i]),
    ensures
        answers[items.len() as int] == streamed_text(items),
    decreases items.len(),
{
    if items.len() > 0 {
        let n = items.len() - 1;
        law_answer_is_streamed_text(items.drop_last(), answers.take(n + 1));
        assert(answers[n + 1] == answers[n] + item_text(items[n]));
    }
}


/// The message stored for the user's prompt before the agent is asked.
pub fn user_turn_message(prompt: &str) -> (m: HistoryMessage)
    ensures
        m@ == HistoryView::User(seq![Some(prompt@)]),
{
    let mut parts: Vec<Option<String>> = Vec::new();
    parts.push(Some(prompt.to_owned()));
    assert(crate::memory::part_texts(parts@) =~= seq![Some(prompt@)]);
    HistoryMessage::User(parts)
}

/// The message stored for the agent's answer once the whole stream was read: the answer
/// collected from it.
pub fn assistant_turn_message(answer: String) -> (m: HistoryMessage)
    ensures
        m@ == HistoryView::Assistant(seq![Some(answer@)]),
{
    let ghost a = answer@;
    let mut parts: Vec<Option<String>> = Vec::new();
    parts.push(Some(answer));
    assert(crate::memory::part_texts(parts@) =~= seq![Some(a)]);
    HistoryMessage::Assistant(parts)
}

} // verus!
