use messenger_search::data_format::Conversation;
use messenger_search::error::Error;
use messenger_search::{
    collapse_retrieved, generate_index, open_index_in, search, IndexStoreLocation, RetrievedDoc,
    RESULT_LIMIT,
};

fn conv_json(messages: &str) -> String {
    format!(
        "{{\"participants\":[{{\"name\":\"alice\"}},{{\"name\":\"bob\"}}],\"title\":\"chat\",\"is_still_participant\":true,\"thread_type\":\"regular\",\"thread_path\":\"inbox/chat\",\"messages\":[{}]}}",
        messages
    )
}

fn msg_json(sender: &str, ts: i64, content: &str) -> String {
    format!(
        "{{\"sender_name\":\"{}\",\"timestamp_ms\":{},\"content\":\"{}\",\"type\":\"Generic\"}}",
        sender, ts, content
    )
}

fn conversation_of(contents: &[(&str, i64, &str)]) -> Conversation {
    let msgs: Vec<String> = contents
        .iter()
        .map(|(s, t, c)| msg_json(s, *t, c))
        .collect();
    Conversation::from_json_str(&conv_json(&msgs.join(","))).unwrap()
}

fn sample_conversation() -> Conversation {
    conversation_of(&[
        ("alice", 1000, "here is some test data for the report"),
        ("bob", 2000, "more test data arrived today"),
        ("alice", 3000, "the test data looks clean"),
        ("bob", 4000, "archiving old test data now"),
        ("alice", 5000, "final test data uploaded"),
        ("bob", 6000, "pushed the new sources to github tonight"),
    ])
}

#[test]
fn test_generate_index_and_query() {
    let (idx, _) = generate_index(IndexStoreLocation::Ram, sample_conversation()).unwrap();

    assert_eq!(search(&idx, "test data").unwrap().len(), 5);
    assert_eq!(search(&idx, "github").unwrap().len(), 1);
}

#[test]
fn query_matching_nothing_returns_empty_list() {
    let (idx, _) = generate_index(IndexStoreLocation::Ram, sample_conversation()).unwrap();
    let hits = search(&idx, "nonexistent-term-xyz").unwrap();
    assert!(hits.is_empty());
}

#[test]
fn results_never_exceed_the_limit() {
    let many: Vec<(String, i64)> = (0..25)
        .map(|k| (format!("sender{}", k), 1000 + k as i64))
        .collect();
    let contents: Vec<(&str, i64, &str)> = many
        .iter()
        .map(|(s, t)| (s.as_str(), *t, "the flood keeps rising"))
        .collect();
    let (idx, _) = generate_index(IndexStoreLocation::Ram, conversation_of(&contents)).unwrap();
    let hits = search(&idx, "flood").unwrap();
    assert_eq!(hits.len(), RESULT_LIMIT);
}

#[test]
fn repeated_queries_return_identical_lists() {
    let (idx, _) = generate_index(IndexStoreLocation::Ram, sample_conversation()).unwrap();
    let first = search(&idx, "test data").unwrap();
    let second = search(&idx, "test data").unwrap();
    let third = search(&idx, "test data").unwrap();
    assert_eq!(first, second);
    assert_eq!(first, third);
}

#[test]
fn matched_message_round_trips_exactly() {
    let (idx, _) = generate_index(IndexStoreLocation::Ram, sample_conversation()).unwrap();
    let hits = search(&idx, "github").unwrap();
    assert_eq!(hits.len(), 1);
    assert_eq!(hits[0].sender_name, "bob");
    assert_eq!(hits[0].timestamp_ms, 6000);
    assert_eq!(hits[0].content, "pushed the new sources to github tonight");
}

#[test]
fn empty_conversation_builds_an_empty_index() {
    let conversation = Conversation::from_json_str(&conv_json("")).unwrap();
    let (idx, _) = generate_index(IndexStoreLocation::Ram, conversation).unwrap();
    assert!(search(&idx, "anything").unwrap().is_empty());
}

#[test]
fn share_message_is_indexed_on_content_only() {
    let share = "{\"sender_name\":\"bob\",\"timestamp_ms\":7000,\"content\":\"sending you the crate page\",\"share\":{\"link\":\"https://example.org/weird-unique-link\"},\"type\":\"Share\"}";
    let conversation = Conversation::from_json_str(&conv_json(share)).unwrap();
    assert_eq!(conversation.messages.len(), 1);
    assert!(conversation.messages[0].share.is_some());

    let (idx, _) = generate_index(IndexStoreLocation::Ram, conversation).unwrap();
    assert_eq!(search(&idx, "crate").unwrap().len(), 1);
    assert_eq!(search(&idx, "bob").unwrap().len(), 0);
    assert_eq!(search(&idx, "example").unwrap().len(), 0);
    assert_eq!(search(&idx, "weird-unique-link").unwrap().len(), 0);
}

#[test]
fn regenerating_a_persisted_index_replaces_it() {
    let dir = tempfile::tempdir().unwrap();
    let path = dir.path().to_str().unwrap().to_string();

    let first = conversation_of(&[
        ("alice", 1, "alpha alpha"),
        ("bob", 2, "alpha again"),
    ]);
    let (idx1, _) = generate_index(IndexStoreLocation::File(path.clone()), first).unwrap();
    assert_eq!(search(&idx1, "alpha").unwrap().len(), 2);

    let second = conversation_of(&[("carol", 3, "beta only")]);
    let (idx2, _) = generate_index(IndexStoreLocation::File(path.clone()), second).unwrap();
    assert_eq!(search(&idx2, "alpha").unwrap().len(), 0);
    assert_eq!(search(&idx2, "beta").unwrap().len(), 1);

    // The first handle's snapshot is fixed: the rebuild is invisible to it.
    assert_eq!(search(&idx1, "alpha").unwrap().len(), 2);
    assert_eq!(search(&idx1, "beta").unwrap().len(), 0);

    let reopened = open_index_in(&path).unwrap();
    assert_eq!(search(&reopened, "alpha").unwrap().len(), 0);
    assert_eq!(search(&reopened, "beta").unwrap().len(), 1);
}

#[test]
fn opening_a_missing_index_fails_recoverably() {
    let dir = tempfile::tempdir().unwrap();
    let path = dir.path().to_str().unwrap().to_string();
    assert!(matches!(
        open_index_in(&path),
        Err(Error::IndexError(_)) | Err(Error::IoError(_))
    ));
}

#[test]
fn creating_an_index_in_a_missing_directory_is_an_io_error() {
    let loc = IndexStoreLocation::File("surely/not/a/real/directory/here".to_string());
    let conversation = conversation_of(&[("alice", 1, "hi")]);
    assert!(matches!(
        generate_index(loc, conversation),
        Err(Error::IoError(_))
    ));
}

#[test]
fn malformed_query_is_a_query_syntax_error() {
    let (idx, _) = generate_index(IndexStoreLocation::Ram, sample_conversation()).unwrap();
    assert!(matches!(
        search(&idx, "\"unterminated phrase"),
        Err(Error::QuerySyntaxError(_))
    ));
}

#[test]
fn collapse_rejects_documents_without_one_value_per_field() {
    let good = RetrievedDoc {
        sender_name: vec!["alice".to_string()],
        timestamp_ms: vec![1000],
        content: vec!["hello".to_string()],
    };
    let m = collapse_retrieved(&good).unwrap();
    assert_eq!(m.sender_name, "alice");
    assert_eq!(m.timestamp_ms, 1000);
    assert_eq!(m.content, "hello");

    let empty = RetrievedDoc {
        sender_name: vec![],
        timestamp_ms: vec![1000],
        content: vec!["hello".to_string()],
    };
    assert!(matches!(
        collapse_retrieved(&empty),
        Err(Error::IndexError(_))
    ));

    let doubled = RetrievedDoc {
        sender_name: vec!["alice".to_string(), "bob".to_string()],
        timestamp_ms: vec![1000],
        content: vec!["hello".to_string()],
    };
    assert!(matches!(
        collapse_retrieved(&doubled),
        Err(Error::IndexError(_))
    ));
}
