use crusty::memory::{
    create_message_callback, message_content, rows_to_history, ChatMessage, ChatRow,
    HistoryMessage, TextMessage,
};

fn row(role: &str, content: &str) -> ChatRow {
    ChatRow {
        session_id: "s".to_string(),
        role: role.to_string(),
        content: content.to_string(),
        created_at: "0".to_string(),
    }
}

#[test]
fn rows_become_history_oldest_first() {
    let h = rows_to_history(vec![row("assistant", "newest"), row("user", "older"), row("system", "oldest")]);
    assert_eq!(h.len(), 3);
    assert!(matches!(&h[0], HistoryMessage::Assistant(p) if p == &vec![Some("oldest".to_string())]));
    assert!(matches!(&h[1], HistoryMessage::User(p) if p == &vec![Some("older".to_string())]));
    assert!(matches!(&h[2], HistoryMessage::Assistant(p) if p == &vec![Some("newest".to_string())]));
}

#[test]
fn stored_text_of_messages() {
    let u = HistoryMessage::User(vec![Some("a".to_string()), None, Some("b".to_string())]);
    assert_eq!(message_content(&u), "a\n\nb");
    let a = HistoryMessage::Assistant(vec![Some("a".to_string()), None, Some("b".to_string())]);
    assert_eq!(message_content(&a), "a\nb");
    assert_eq!(message_content(&HistoryMessage::Assistant(vec![None])), "");
    assert_eq!(message_content(&HistoryMessage::Other), "");
}

#[test]
fn callback_receives_chunks() {
    let got = std::sync::Arc::new(std::sync::Mutex::new(String::new()));
    let sink = std::sync::Arc::clone(&got);
    let mut cb = create_message_callback(move |m: ChatMessage| {
        let ChatMessage::TextMessage(t) = m;
        sink.lock().unwrap().push_str(&t.content);
    });
    cb(ChatMessage::TextMessage(TextMessage { role: "model".to_string(), content: "he".to_string() }));
    cb(ChatMessage::TextMessage(TextMessage { role: "model".to_string(), content: "llo".to_string() }));
    assert_eq!(got.lock().unwrap().as_str(), "hello");
}

use crusty::memory::{create_session, Session};
use crusty::error::CrustyError;

#[test]
fn new_session_has_uuid_id_and_no_history() {
    let s = create_session();
    let id: Vec<char> = s.session_id.chars().collect();
    assert_eq!(id.len(), 36);
    assert_eq!(id[8], '-');
    assert_eq!(id[13], '-');
    assert_eq!(id[18], '-');
    assert_eq!(id[23], '-');
    assert_eq!(id[14], '4');
    assert!(matches!(id[19], '8' | '9' | 'a' | 'b'));
    for (i, c) in id.iter().enumerate() {
        if ![8, 13, 18, 23].contains(&i) {
            assert!(c.is_ascii_digit() || ('a'..='f').contains(c));
        }
    }
    assert!(s.history.is_empty());
    let t = create_session();
    assert_ne!(s.session_id, t.session_id);
}

#[test]
fn loaded_session_keeps_id_and_orders_history() {
    let s = Session::load("abc".to_string(), vec![row("assistant", "2"), row("user", "1")]);
    assert_eq!(s.session_id, "abc");
    assert_eq!(s.history.len(), 2);
    assert!(matches!(&s.history[0], HistoryMessage::User(p) if p == &vec![Some("1".to_string())]));
}

#[test]
fn add_message_only_after_store() {
    let mut s = Session::new("x".to_string());
    let r = s.add_message(HistoryMessage::User(vec![Some("hi".to_string())]), Ok(()));
    assert!(r.is_ok());
    assert_eq!(s.history.len(), 1);
    let r = s.add_message(
        HistoryMessage::Assistant(vec![Some("no".to_string())]),
        Err(CrustyError::AgentMemoryError("disk".to_string())),
    );
    assert!(matches!(r, Err(CrustyError::AgentMemoryError(m)) if m == "disk"));
    assert_eq!(s.history.len(), 1);
    assert_eq!(s.session_id, "x");
}

#[test]
fn stored_message_reads_back() {
    let u = HistoryMessage::User(vec![Some("hello there".to_string())]);
    let a = HistoryMessage::Assistant(vec![Some("hi!".to_string())]);
    let rows = vec![row("assistant", &message_content(&a)), row("user", &message_content(&u))];
    let h = rows_to_history(rows);
    assert!(matches!(&h[0], HistoryMessage::User(p) if p == &vec![Some("hello there".to_string())]));
    assert!(matches!(&h[1], HistoryMessage::Assistant(p) if p == &vec![Some("hi!".to_string())]));
}

use crusty::memory::resume_session;

#[test]
fn plugin_session_resumes_or_starts() {
    let s = resume_session("tg-1".to_string(), Ok(vec![row("assistant", "b"), row("user", "a")]));
    assert_eq!(s.session_id, "tg-1");
    assert_eq!(s.history.len(), 2);
    assert!(matches!(&s.history[0], HistoryMessage::User(p) if p == &vec![Some("a".to_string())]));
    let s = resume_session("tg-2".to_string(), Err(CrustyError::AgentMemoryError("x".to_string())));
    assert_eq!(s.session_id, "tg-2");
    assert!(s.history.is_empty());
}
