//! The agent's conversation memory: stored rows, chat history and the text kept of each
//! message.
use vstd::prelude::*;

use crate::text::{join_seq, join_strings, same_text, texts_of};

verus! {

/// A stored message, as the memory database returns it.
#[derive(Debug)]
pub struct ChatRow {
    pub session_id: String,
    pub role: String,
    pub content: String,
    pub created_at: String,
}

/// A piece of a streamed answer.
#[derive(Debug)]
pub struct TextMessage {
    pub role: String,
    pub content: String,
}

/// What the agent streams back.
#[derive(Debug)]
pub enum ChatMessage {
    TextMessage(TextMessage),
}

/// Boxes the function that receives each piece of a streamed answer.
pub fn create_message_callback<F: FnMut(ChatMessage) + Send + Sync + 'static>(f: F) -> (r: Box<F>)
    ensures
        *r == f,
{
    Box::new(f)
}

/// A message of the chat history; each part is its text, or `None` for a part that is not
/// text (an image, a tool call, ...).
#[derive(Debug)]
pub enum HistoryMessage {
    User(Vec<Option<String>>),
    Assistant(Vec<Option<String>>),
    /// Any other kind of message.
    Other,
}

/// The text of a history message's parts.
pub enum HistoryView {
    User(Seq<Option<Seq<char>>>),
    Assistant(Seq<Option<Seq<char>>>),
    Other,
}

/// The texts of the parts (`None` for a part that is not text).
pub open spec fn part_texts(parts: Seq<Option<String>>) -> Seq<Option<Seq<char>>> {
    parts.map_values(|p: Option<String>| crate::text::opt_text(p))
}

impl View for HistoryMessage {
    type V = HistoryView;

    open spec fn view(&self) -> HistoryView {
        match self {
            HistoryMessage::User(p) => HistoryView::User(part_texts(p@)),
            HistoryMessage::Assistant(p) => HistoryView::Assistant(part_texts(p@)),
            HistoryMessage::Other => HistoryView::Other,
        }
    }
}

/// Each part's text, a part that is not text counting as empty.
pub open spec fn texts_or_empty(parts: Seq<Option<Seq<char>>>) -> Seq<Seq<char>> {
    parts.map_values(|p: Option<Seq<char>>| match p {
        Some(t) => t,
        None => Seq::<char>::empty(),
    })
}

/// The texts of the parts that are text, in order.
pub open spec fn text_parts(parts: Seq<Option<Seq<char>>>) -> Seq<Seq<char>>
    decreases parts.len(),
{
    if parts.len() == 0 {
        Seq::empty()
    } else {
        let rest = text_parts(parts.drop_last());
        match parts.last() {
            Some(t) => rest.push(t),
            None => rest,
        }
    }
}

/// The text stored for a message: a user message's parts joined by line breaks (a part
/// that is not text adds an empty line); an assistant message's text parts joined by line
/// breaks; nothing for any other message.
pub open spec fn message_text(m: HistoryView) -> Seq<char> {
    match m {
        HistoryView::User(parts) => join_seq(texts_or_empty(parts), seq!['\n']),
        HistoryView::Assistant(parts) => join_seq(text_parts(parts), seq!['\n']),
        HistoryView::Other => Seq::empty(),
    }
}

/// The text to store for a message.
pub fn message_content(msg: &HistoryMessage) -> (s: String)
    ensures
        s@ == message_text(msg@),
{
    match msg {
        HistoryMessage::User(parts) => {
            let mut texts: Vec<String> = Vec::new();
            let mut i: usize = 0;
            while i < parts.len()
                invariant
                    i <= parts.len(),
                    texts_of(texts@) == texts_or_empty(part_texts(parts@)).take(i as int),
                decreases parts.len() - i,
            {
                let t = match &parts[i] {
                    Some(t) => t.clone(),
                    None => String::new(),
                };
                let ghost prev = texts@;
                texts.push(t);
                assert(texts_of(texts@) =~= texts_of(prev).push(t@));
                assert(texts_or_empty(part_texts(parts@)).take(i + 1) =~= texts_or_empty(
                    part_texts(parts@),
                ).take(i as int).push(t@));
                i = i + 1;
            }
            assert(texts_or_empty(part_texts(parts@)).take(parts.len() as int) =~= texts_or_empty(
                part_texts(parts@),
            ));
            proof {
                reveal_strlit("\n");
            }
            let r = join_strings(&texts, "\n");
            assert("\n"@ =~= seq!['\n']);
            r
        },
        HistoryMessage::Assistant(parts) => {
            let mut texts: Vec<String> = Vec::new();
            let mut i: usize = 0;
            while i < parts.len()
                invariant
                    i <= parts.len(),
                    texts_of(texts@) == text_parts(part_texts(parts@).take(i as int)),
                decreases parts.len() - i,
            {
                let ghost prev = texts@;
                assert(part_texts(parts@).take(i + 1).drop_last() =~= part_texts(parts@).take(
                    i as int,
                ));
                match &parts[i] {
                    Some(t) => {
                        texts.push(t.clone());
                        assert(texts_of(texts@) =~= texts_of(prev).push(t@));
                    },
                    None => {},
                }
                i = i + 1;
            }
            assert(part_texts(parts@).take(parts.len() as int) =~= part_texts(parts@));
            proof {
                reveal_strlit("\n");
            }
            let r = join_strings(&texts, "\n");
            assert("\n"@ =~= seq!['\n']);
            r
        },
        HistoryMessage::Other => String::new(),
    }
}

/// The history message for a stored row: a user message when its role is `user`, an
/// assistant message otherwise; either holds the row's text.
pub open spec fn row_message(role: Seq<char>, content: Seq<char>) -> HistoryView {
    if role == "user"@ {
        HistoryView::User(seq![Some(content)])
    } else {
        HistoryView::Assistant(seq![Some(content)])
    }
}

/// A message of one text part, stored under the role the agent gives it (`user` for the
/// user's messages, `assistant` for the agent's) and read back from its row, is the message
/// that was stored.
pub proof fn law_stored_message_reads_back(t: Seq<char>)
    ensures
        row_message("user"@, message_text(HistoryView::User(seq![Some(t)])))
            == HistoryView::User(seq![Some(t)]),
        row_message("assistant"@, message_text(HistoryView::Assistant(seq![Some(t)])))
            == HistoryView::Assistant(seq![Some(t)]),
{
    let one: Seq<Option<Seq<char>>> = seq![Some(t)];
    assert(texts_or_empty(one) =~= seq![t]);
    assert(text_parts(one.drop_last()) =~= Seq::<Seq<char>>::empty());
    assert(text_parts(one) =~= seq![t]);
    reveal_strlit("user");
    reveal_strlit("assistant");
    assert("assistant"@.len() != "user"@.len());
}

/// The chat history for rows read newest first: the rows in reverse order, as messages.
pub fn rows_to_history(rows: Vec<ChatRow>) -> (h: Vec<HistoryMessage>)
    ensures
        h@.len() == rows@.len(),
        forall|i: int|
            0 <= i < h@.len() ==> #[trigger] h@[i]@ == row_message(
                rows@[rows@.len() - 1 - i].role@,
                rows@[rows@.len() - 1 - i].content@,
            ),
{
    let mut h: Vec<HistoryMessage> = Vec::new();
    let n = rows.len();
    let mut i: usize = 0;
    while i < n
        invariant
            i <= n == rows@.len(),
            h@.len() == i,
            forall|k: int|
                0 <= k < i ==> #[trigger] h@[k]@ == row_message(
                    rows@[n - 1 - k].role@,
                    rows@[n - 1 - k].content@,
                ),
        decreases n - i,
    {
        let row = &rows[n - 1 - i];
        let mut parts: Vec<Option<String>> = Vec::new();
        parts.push(Some(row.content.clone()));
        assert(part_texts(parts@) =~= seq![Some(row.content@)]);
        let m = if same_text(&row.role, "user") {
            HistoryMessage::User(parts)
        } else {
            HistoryMessage::Assistant(parts)
        };
        h.push(m);
        i = i + 1;
    }
    h
}

/// A lowercase hexadecimal digit.
pub open spec fn lower_hex_digit(c: char) -> bool {
    ('0' <= c && c <= '9') || ('a' <= c && c <= 'f')
}

/// The text of a random version-4 UUID, hyphenated in lowercase: 36 characters, `-` at
/// positions 8, 13, 18 and 23, the version digit `4` at position 14, the variant digit
/// (one of `8`, `9`, `a`, `b`) at position 19, and lowercase hexadecimal digits elsewhere.
pub open spec fn uuid_v4_text(id: Seq<char>) -> bool {
    &&& id.len() == 36
    &&& id[8] == '-' && id[13] == '-' && id[18] == '-' && id[23] == '-'
    &&& id[14] == '4'
    &&& (id[19] == '8' || id[19] == '9' || id[19] == 'a' || id[19] == 'b')
    &&& forall|i: int|
        0 <= i < 36 && i != 8 && i != 13 && i != 18 && i != 23 ==> lower_hex_digit(#[trigger] id[i])
}

/// A fresh random session id.
/// Trusted: `uuid::Uuid::new_v4` draws random bits and sets the version nibble to 4 and
/// the variant bits to `10`; its `to_string` writes the hyphenated lowercase form. Which id
/// comes out is left open. When the system's random source fails, `new_v4` panics, as the
/// allocator does when memory runs out; no `requires` can rule that out.
#[verifier::external_body]
fn new_session_id() -> (id: String)
    ensures
        uuid_v4_text(id@),
{
    uuid::Uuid::new_v4().to_string()
}

/// A conversation: its id and its history, oldest message first.
#[derive(Debug)]
pub struct Session {
    pub session_id: String,
    pub history: Vec<HistoryMessage>,
}

impl Session {
    /// A conversation with no history yet.
    pub fn new(id: String) -> (s: Self)
        ensures
            s.session_id@ == id@,
            s.history@.len() == 0,
    {
        Session { session_id: id, history: Vec::new() }
    }

    /// A conversation resumed from its stored rows, read newest first.
    pub fn load(id: String, rows: Vec<ChatRow>) -> (s: Self)
        ensures
            s.session_id@ == id@,
            s.history@.len() == rows@.len(),
            forall|i: int|
                0 <= i < s.history@.len() ==> #[trigger] s.history@[i]@ == row_message(
                    rows@[rows@.len() - 1 - i].role@,
                    rows@[rows@.len() - 1 - i].content@,
                ),
    {
        Session { session_id: id, history: rows_to_history(rows) }
    }

    /// Adds a message to the history once its text was stored (`saved`); a failed store
    /// leaves the history as it was and is handed back.
    pub fn add_message(&mut self, msg: HistoryMessage, saved: Result<(), crate::error::CrustyError>) -> (r: Result<(), crate::error::CrustyError>)
        ensures
            final(self).session_id == old(self).session_id,
            saved is Ok ==> r is Ok && final(self).history@ == old(self).history@.push(msg),
            saved is Err ==> r == saved && final(self).history@ == old(self).history@,
    {
        match saved {
            Ok(()) => {
                self.history.push(msg);
                Ok(())
            },
            Err(e) => Err(e),
        }
    }
}

/// The conversation a plugin continues under `id`: resumed from its stored rows (newest
/// first) when they could be read, else started afresh under the same id.
pub fn resume_session(id: String, rows: Result<Vec<ChatRow>, crate::error::CrustyError>) -> (s: Session)
    ensures
        s.session_id@ == id@,
        rows is Err ==> s.history@.len() == 0,
        rows matches Ok(r) ==> s.history@.len() == r@.len() && forall|i: int|
            0 <= i < s.history@.len() ==> #[trigger] s.history@[i]@ == row_message(
                r@[r@.len() - 1 - i].role@,
                r@[r@.len() - 1 - i].content@,
            ),
{
    match rows {
        Ok(r) => Session::load(id, r),
        Err(_) => Session::new(id),
    }
}

/// A new conversation under a fresh random id.
pub fn create_session() -> (s: Session)
    ensures
        uuid_v4_text(s.session_id@),
        s.history@.len() == 0,
{
    Session::new(new_session_id())
}

} // verus!
