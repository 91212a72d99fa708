//! A full-text search library for exported messenger conversations.
//!
//! A conversation document is decoded into typed records, every message is
//! indexed over its sender, content and timestamp, and a committed index can
//! then be searched for the best-matching messages.
//!
//! The index itself lives inside the tantivy engine; this crate models its
//! contents as a sequence of stored documents and proves that building an
//! index turns a conversation's messages into exactly that sequence, in
//! source order, and that a search returns a ranked prefix of at most ten
//! matches, each decoded back into a typed record or reported as a
//! recoverable error.

use vstd::prelude::*;

pub mod data_format;
pub mod error;
pub mod json;

use crate::data_format::{
    Conversation, Message, MessageView, StoredMessage, StoredMessageView,
};
use crate::error::Error;
use tantivy::schema::{Value, INDEXED, STORED, TEXT};
use tantivy::{IndexSettings, TantivyDocument};

verus! {

/// At most this many matches come back from one search.
pub const RESULT_LIMIT: usize = 10;

/// Where a generated index stores its data.
#[derive(Debug, Clone, PartialEq)]
pub enum IndexStoreLocation {
    /// In memory: ephemeral, discarded at process exit.
    Ram,
    /// File-backed: the path of an existing directory. Pre-existing index
    /// data at that path is erased by a new build.
    File(String),
}

/// A write session: a freshly created index and its buffered, uncommitted
/// documents. Holds the tantivy index, its writer and the field handles.
#[verifier::external_body]
pub struct IndexSession {
    index: tantivy::Index,
    writer: tantivy::IndexWriter,
    f_sender: tantivy::schema::Field,
    f_content: tantivy::schema::Field,
    f_timestamp: tantivy::schema::Field,
}

/// A committed, queryable index together with its read snapshot. Holds the
/// tantivy index, one searcher obtained from a manual-reload reader at the
/// moment the handle was made, and the field handles. The snapshot never
/// changes behind the handle: ranking and retrieval share it, and a later
/// commit at the same storage location is invisible to this handle.
#[verifier::external_body]
pub struct SearchIndex {
    index: tantivy::Index,
    searcher: tantivy::Searcher,
    f_sender: tantivy::schema::Field,
    f_content: tantivy::schema::Field,
    f_timestamp: tantivy::schema::Field,
}

/// The position of one matched document inside the index.
#[derive(Debug, Clone, Copy, PartialEq, Eq, Structural)]
pub struct DocAddr {
    pub segment: u32,
    pub doc: u32,
}

/// The raw values retrieved for one document: a small sequence per stored
/// field, as the engine hands them back.
#[derive(Debug, Clone, PartialEq)]
pub struct RetrievedDoc {
    pub sender_name: Vec<String>,
    pub timestamp_ms: Vec<i64>,
    pub content: Vec<String>,
}

/// The mathematical value of a [`RetrievedDoc`].
pub struct RetrievedDocView {
    pub sender_name: Seq<Seq<char>>,
    pub timestamp_ms: Seq<int>,
    pub content: Seq<Seq<char>>,
}

impl View for RetrievedDoc {
    type V = RetrievedDocView;

    open spec fn view(&self) -> RetrievedDocView {
        RetrievedDocView {
            sender_name: self.sender_name@.map_values(|s: String| s@),
            timestamp_ms: self.timestamp_ms@.map_values(|i: i64| i as int),
            content: self.content@.map_values(|s: String| s@),
        }
    }
}

/// The documents a write session has buffered, in the order they were added.
pub uninterp spec fn pending_docs(s: IndexSession) -> Seq<StoredMessageView>;

/// The documents a committed index's fixed snapshot holds, in insertion
/// order. The snapshot belongs to the handle: a later commit at the same
/// storage location never changes it.
pub uninterp spec fn index_docs(i: SearchIndex) -> Seq<StoredMessageView>;

/// The full ranked match list the engine computes for a query over a
/// committed index, before any limit is applied, under the engine's total
/// order: descending relevance score, ties broken by ascending document
/// address — which, with the single indexing thread used here, is the
/// documents' insertion order.
pub uninterp spec fn ranked_docs(i: SearchIndex, q: Seq<char>) -> Seq<RetrievedDocView>;

/// The stored field values of the document at an address of a committed
/// index.
pub uninterp spec fn fields_at(i: SearchIndex, a: DocAddr) -> RetrievedDocView;

/// Whether an address names a document of the committed index: its segment
/// ordinal and its document id are both in range. Retrieval is defined only
/// at such addresses.
pub uninterp spec fn valid_addr(i: SearchIndex, a: DocAddr) -> bool;

/// Whether the embedded query grammar accepts the query text, against this
/// index's schema and tokenizers: a function of the committed index and the
/// text alone.
pub uninterp spec fn query_accepted(i: SearchIndex, q: Seq<char>) -> bool;

/// The document a message becomes: its sender, timestamp and content.
pub open spec fn message_doc(m: MessageView) -> StoredMessageView {
    StoredMessageView {
        sender_name: m.sender_name,
        timestamp_ms: m.timestamp_ms,
        content: m.content,
    }
}

/// Collapses retrieved field values to a typed record: defined exactly when
/// every field holds one value.
pub open spec fn collapse_doc(f: RetrievedDocView) -> Option<StoredMessageView> {
    if f.sender_name.len() == 1 && f.timestamp_ms.len() == 1 && f.content.len() == 1 {
        Some(
            (StoredMessageView {
                sender_name: f.sender_name[0],
                timestamp_ms: f.timestamp_ms[0],
                content: f.content[0],
            }),
        )
    } else {
        None
    }
}

/// How many results a query yields: the ranked match count, capped at the
/// limit.
pub open spec fn capped_len(i: SearchIndex, q: Seq<char>) -> int {
    if ranked_docs(i, q).len() <= RESULT_LIMIT as int {
        ranked_docs(i, q).len() as int
    } else {
        RESULT_LIMIT as int
    }
}

/// What a successful search returns: one collapsed record for each of the
/// first [`capped_len`] ranked matches, in rank order.
pub open spec fn spec_search_results(
    i: SearchIndex,
    q: Seq<char>,
    out: Seq<StoredMessageView>,
) -> bool {
    out.len() == capped_len(i, q) && forall|k: int|
        0 <= k < out.len() ==> collapse_doc(ranked_docs(i, q)[k]) == Some(#[trigger] out[k])
}

/// Opens a write session over a freshly created in-memory index, with the
/// fixed schema: `sender_name` and `content` as tokenized, stored text and
/// `timestamp_ms` as a stored, indexed 64-bit integer, under a 50 MB heap
/// budget for buffered documents. A single indexing thread keeps document
/// addresses in insertion order, so ranking ties break by source order.
///
/// Relies on tantivy's `SchemaBuilder::build`, `Index::create_in_ram` and
/// `Index::writer_with_num_threads`: a new index is empty.
#[verifier::external_body]
fn create_session_in_ram() -> (r: Result<IndexSession, Error>)
    ensures
        r matches Ok(s) ==> pending_docs(s) == Seq::<StoredMessageView>::empty(),
        r matches Err(e) ==> e is IndexError,
{
    let mut b = tantivy::schema::Schema::builder();
    let f_sender = b.add_text_field("sender_name", TEXT | STORED);
    let f_content = b.add_text_field("content", TEXT | STORED);
    let f_timestamp = b.add_i64_field("timestamp_ms", INDEXED | STORED);
    let index = tantivy::Index::create_in_ram(b.build());
    let writer = index.writer_with_num_threads::<TantivyDocument>(1, 50_000_000).map_err(
        |e| Error::IndexError(e.to_string()),
    )?;
    Ok(IndexSession { index, writer, f_sender, f_content, f_timestamp })
}

/// Opens a write session over a freshly created index persisted in `dir`,
/// with the same fixed schema, heap budget and single indexing thread as
/// the in-memory kind.
///
/// Relies on tantivy's `MmapDirectory::open` and `Index::create`, which
/// erases whatever stood in the directory: a new index is empty.
#[verifier::external_body]
fn create_session_in_dir(dir: &str) -> (r: Result<IndexSession, Error>)
    ensures
        r matches Ok(s) ==> pending_docs(s) == Seq::<StoredMessageView>::empty(),
        r matches Err(e) ==> (e is IoError || e is IndexError),
{
    let mut b = tantivy::schema::Schema::builder();
    let f_sender = b.add_text_field("sender_name", TEXT | STORED);
    let f_content = b.add_text_field("content", TEXT | STORED);
    let f_timestamp = b.add_i64_field("timestamp_ms", INDEXED | STORED);
    let mmap = tantivy::directory::MmapDirectory::open(dir).map_err(
        |e| Error::IoError(e.to_string()),
    )?;
    let index = tantivy::Index::create(mmap, b.build(), IndexSettings::default()).map_err(
        |e| Error::IndexError(e.to_string()),
    )?;
    let writer = index.writer_with_num_threads::<TantivyDocument>(1, 50_000_000).map_err(
        |e| Error::IndexError(e.to_string()),
    )?;
    Ok(IndexSession { index, writer, f_sender, f_content, f_timestamp })
}

impl IndexStoreLocation {
    /// Creates a fresh, empty index at this location — erasing whatever a
    /// file-backed location held before — and opens a write session over
    /// it.
    pub fn create_index(&self) -> (r: Result<IndexSession, Error>)
        ensures
            r matches Ok(s) ==> pending_docs(s) == Seq::<StoredMessageView>::empty(),
            r matches Err(e) ==> (e is IoError || e is IndexError),
            (r matches Err(e) && e is IoError) ==> self is File,
    {
        match self {
            IndexStoreLocation::Ram => create_session_in_ram(),
            IndexStoreLocation::File(dir) => create_session_in_dir(dir.as_str()),
        }
    }
}

/// Adds one message as one document: its sender, content and timestamp,
/// one value per field. Attachments are not indexed.
///
/// Relies on `IndexWriter::add_document`: on success the document joins the
/// end of the buffered pending documents.
#[verifier::external_body]
fn add_message(s: &mut IndexSession, m: &Message) -> (r: Result<(), Error>)
    ensures
        r is Ok ==> pending_docs(*final(s)) == pending_docs(*old(s)).push(message_doc(m@)),
        r matches Err(e) ==> e is IndexError,
{
    let mut doc = tantivy::TantivyDocument::new();
    doc.add_text(s.f_sender, &m.sender_name);
    doc.add_text(s.f_content, &m.content);
    doc.add_i64(s.f_timestamp, m.timestamp_ms);
    match s.writer.add_document(doc) {
        Ok(_) => Ok(()),
        Err(e) => Err(Error::IndexError(e.to_string())),
    }
}

/// Commits the session: all pending documents become durable and visible,
/// and a read snapshot is opened over them.
///
/// Relies on `IndexWriter::commit` (a successful commit finalizes exactly
/// the documents added since the session opened, and returns the new
/// opstamp) and `IndexReaderBuilder` with `ReloadPolicy::Manual`: nothing
/// ever reloads the searcher, so the snapshot stays the commit's.
#[verifier::external_body]
fn commit_session(s: IndexSession) -> (r: Result<(SearchIndex, u64), Error>)
    ensures
        r matches Ok(p) ==> index_docs(p.0) == pending_docs(s),
        r matches Err(e) ==> e is IndexError,
{
    let IndexSession { index, mut writer, f_sender, f_content, f_timestamp } = s;
    let opstamp = writer.commit().map_err(|e| Error::IndexError(e.to_string()))?;
    let reader = index.reader_builder().reload_policy(tantivy::ReloadPolicy::Manual)
        .try_into().map_err(|e| Error::IndexError(e.to_string()))?;
    let searcher = reader.searcher();
    Ok((SearchIndex { index, searcher, f_sender, f_content, f_timestamp }, opstamp))
}

/// Opens a committed index persisted in the given directory, with a read
/// snapshot fixed at its last commit.
///
/// Relies on `Index::open_in_dir` (a directory failure is its
/// `OpenDirectoryError`), `Schema::get_field`, and `IndexReaderBuilder`
/// with `ReloadPolicy::Manual`: nothing ever reloads the searcher. Nothing
/// is assumed about what the directory holds.
#[verifier::external_body]
pub fn open_index_in(folder: &str) -> (r: Result<SearchIndex, Error>)
    ensures
        r matches Err(e) ==> (e is IoError || e is IndexError),
{
    let index = tantivy::Index::open_in_dir(folder).map_err(|e| match e {
        tantivy::TantivyError::OpenDirectoryError(d) => Error::IoError(d.to_string()),
        other => Error::IndexError(other.to_string()),
    })?;
    let schema = index.schema();
    let gf = |n: &str| schema.get_field(n).map_err(|e| Error::IndexError(e.to_string()));
    let (f_sender, f_content, f_timestamp) =
        (gf("sender_name")?, gf("content")?, gf("timestamp_ms")?);
    let reader = index.reader_builder().reload_policy(tantivy::ReloadPolicy::Manual)
        .try_into().map_err(|e| Error::IndexError(e.to_string()))?;
    Ok(SearchIndex { index, searcher: reader.searcher(), f_sender, f_content, f_timestamp })
}

/// Parses the query against the content field alone and runs it, returning
/// the addresses of at most `limit` best matches, best first.
///
/// Relies on `QueryParser::for_index` and `parse_query` (which fails
/// exactly when the grammar rejects the text, and is the only source of a
/// `QuerySyntaxError`), `Searcher::search` with `TopDocs::with_limit`
/// (whose collector visits each document of the index once, so every
/// returned address is valid and no address repeats), and on ranking being
/// a function of the committed index and the query text: the address at
/// rank `k` names the `k`-th ranked document, and every match is a
/// document of the index.
#[verifier::external_body]
fn query_top(i: &SearchIndex, query: &str, limit: usize) -> (r: Result<Vec<DocAddr>, Error>)
    requires
        limit >= 1,
    ensures
        r matches Ok(addrs) ==> {
            let rf = ranked_docs(*i, query@);
            &&& addrs@.len() == (if rf.len() <= limit { rf.len() as int } else { limit as int })
            &&& (forall|k: int|
                0 <= k < addrs@.len() ==> fields_at(*i, #[trigger] addrs@[k]) == rf[k])
            &&& (forall|k: int|
                0 <= k < addrs@.len() ==> (collapse_doc(#[trigger] rf[k]) matches Some(d)
                    ==> index_docs(*i).contains(d)))
            &&& (forall|k: int| 0 <= k < addrs@.len() ==> valid_addr(*i, #[trigger] addrs@[k]))
            &&& (forall|k: int, l: int|
                0 <= k < l < addrs@.len() ==> addrs@[k] != addrs@[l])
        },
        r matches Err(e) ==> (e is QuerySyntaxError || e is IndexError),
        (r matches Err(e) && e is QuerySyntaxError) <==> !query_accepted(*i, query@),
{
    let parser = tantivy::query::QueryParser::for_index(&i.index, vec![i.f_content]);
    let parsed = parser.parse_query(query).map_err(
        |e| Error::QuerySyntaxError(e.to_string()),
    )?;
    let collector = tantivy::collector::TopDocs::with_limit(limit).order_by_score();
    let hits = i.searcher.search(&*parsed, &collector).map_err(
        |e| Error::IndexError(e.to_string()),
    )?;
    Ok(hits.into_iter().map(
        |(_score, a)| DocAddr { segment: a.segment_ord, doc: a.doc_id },
    ).collect())
}

/// Retrieves the stored field values of the document at `a`, which must be
/// an address of this index: `Searcher::doc` indexes its segment readers
/// by the segment ordinal and panics on one out of range.
///
/// Relies on `Searcher::doc` and `TantivyDocument::get_all`: the searcher
/// is the same fixed snapshot the query ran on, so retrieval at an address
/// the engine returned yields that document's stored values, in the order
/// they were added.
#[verifier::external_body]
fn retrieve_doc(i: &SearchIndex, a: DocAddr) -> (r: Result<RetrievedDoc, Error>)
    requires
        valid_addr(*i, a),
    ensures
        r matches Ok(d) ==> d@ == fields_at(*i, a),
        r matches Err(e) ==> e is IndexError,
{
    let addr = tantivy::DocAddress { segment_ord: a.segment, doc_id: a.doc };
    let doc: tantivy::TantivyDocument = i.searcher.doc(addr).map_err(
        |e| Error::IndexError(e.to_string()),
    )?;
    Ok(RetrievedDoc {
        sender_name: doc.get_all(i.f_sender).filter_map(
            |v| v.as_str().map(|t| t.to_string()),
        ).collect(),
        timestamp_ms: doc.get_all(i.f_timestamp).filter_map(|v| v.as_i64()).collect(),
        content: doc.get_all(i.f_content).filter_map(
            |v| v.as_str().map(|t| t.to_string()),
        ).collect(),
    })
}

/// Builds and commits a fresh index over the conversation at the given
/// location: one document per message, in source order, and nothing else —
/// whatever the location held before is gone. Returns the index and the
/// commit's opstamp.
pub fn generate_index(
    index_store_loc: IndexStoreLocation,
    conversation: Conversation,
) -> (r: Result<(SearchIndex, u64), Error>)
    ensures
        r matches Ok(p) ==> index_docs(p.0) == conversation@.messages.map_values(
            |m: MessageView| message_doc(m),
        ),
        r matches Err(e) ==> (e is IoError || e is IndexError),
        (r matches Err(e) && e is IoError) ==> index_store_loc is File,
{
    let mut session = match index_store_loc.create_index() {
        Ok(s) => s,
        Err(e) => { return Err(e); },
    };
    let n = conversation.messages.len();
    let mut i: usize = 0;
    while i < n
        invariant
            n == conversation.messages.len(),
            0 <= i <= n,
            pending_docs(session) == conversation@.messages.take(i as int).map_values(
                |m: MessageView| message_doc(m),
            ),
        decreases n - i,
    {
        match add_message(&mut session, &conversation.messages[i]) {
            Ok(_) => {},
            Err(e) => { return Err(e); },
        }
        assert(conversation@.messages.take(i + 1) =~= conversation@.messages.take(
            i as int,
        ).push(conversation@.messages[i as int]));
        assert(conversation@.messages.take(i as int).push(
            conversation@.messages[i as int],
        ).map_values(|m: MessageView| message_doc(m)) =~= conversation@.messages.take(
            i as int,
        ).map_values(|m: MessageView| message_doc(m)).push(
            message_doc(conversation@.messages[i as int]),
        ));
        i = i + 1;
    }
    assert(conversation@.messages.take(n as int) =~= conversation@.messages);
    commit_session(session)
}

/// Collapses the retrieved values of one matched document into a typed
/// record: each stored field must hold exactly one value; anything else is
/// a recoverable `IndexError`, never an abort.
pub fn collapse_retrieved(d: &RetrievedDoc) -> (r: Result<StoredMessage, Error>)
    ensures
        r is Ok <==> collapse_doc(d@) is Some,
        r matches Ok(m) ==> Some(m@) == collapse_doc(d@),
        r matches Err(e) ==> e is IndexError,
{
    if d.sender_name.len() == 1 && d.timestamp_ms.len() == 1 && d.content.len() == 1 {
        Ok(
            StoredMessage {
                sender_name: d.sender_name[0].clone(),
                timestamp_ms: d.timestamp_ms[0],
                content: d.content[0].clone(),
            },
        )
    } else {
        Err(Error::IndexError("retrieved document must hold one value per field".to_owned()))
    }
}

/// Runs the query over a committed index and returns the matching messages,
/// best first: the collapsed records of the first [`capped_len`] ranked
/// matches — at most [`RESULT_LIMIT`] — each one a document of the index.
/// A `QuerySyntaxError` comes back exactly when the query grammar rejects
/// the query text.
pub fn search(index: &SearchIndex, query: &str) -> (r: Result<Vec<StoredMessage>, Error>)
    ensures
        r matches Ok(v) ==> v@.len() <= RESULT_LIMIT,
        r matches Ok(v) ==> spec_search_results(
            *index,
            query@,
            v@.map_values(|m: StoredMessage| m@),
        ),
        r matches Ok(v) ==> forall|k: int|
            0 <= k < v@.len() ==> index_docs(*index).contains(#[trigger] v@[k]@),
        r matches Err(e) ==> (e is QuerySyntaxError || e is IndexError),
        (r matches Err(e) && e is QuerySyntaxError) <==> !query_accepted(*index, query@),
{
    let addrs = match query_top(index, query, RESULT_LIMIT) {
        Ok(a) => a,
        Err(e) => { return Err(e); },
    };
    let n = addrs.len();
    let mut out: Vec<StoredMessage> = Vec::new();
    let mut i: usize = 0;
    while i < n
        invariant
            n == addrs@.len(),
            0 <= i <= n,
            out@.len() == i,
            addrs@.len() == capped_len(*index, query@),
            query_accepted(*index, query@),
            forall|k: int| 0 <= k < addrs@.len() ==> valid_addr(*index, #[trigger] addrs@[k]),
            forall|k: int|
                0 <= k < addrs@.len() ==> fields_at(*index, #[trigger] addrs@[k]) == ranked_docs(
                    *index,
                    query@,
                )[k],
            forall|k: int|
                0 <= k < addrs@.len() ==> (collapse_doc(
                    #[trigger] ranked_docs(*index, query@)[k],
                ) matches Some(d) ==> index_docs(*index).contains(d)),
            forall|k: int|
                0 <= k < i ==> collapse_doc(ranked_docs(*index, query@)[k]) == Some(
                    #[trigger] out@[k]@,
                ),
            forall|k: int| 0 <= k < i ==> index_docs(*index).contains(#[trigger] out@[k]@),
        decreases n - i,
    {
        let d = match retrieve_doc(index, addrs[i]) {
            Ok(d) => d,
            Err(e) => { return Err(e); },
        };
        let m = match collapse_retrieved(&d) {
            Ok(m) => m,
            Err(e) => { return Err(e); },
        };
        out.push(m);
        i = i + 1;
    }
    Ok(out)
}

/// Building an index over a conversation of `N` messages yields exactly `N`
/// documents, and the document at each position is its message's sender,
/// timestamp and content.
pub proof fn lemma_one_document_per_message(
    c: crate::data_format::ConversationView,
    docs: Seq<StoredMessageView>,
)
    requires
        docs == c.messages.map_values(|m: MessageView| message_doc(m)),
    ensures
        docs.len() == c.messages.len(),
        forall|k: int| 0 <= k < docs.len() ==> docs[k] == message_doc(#[trigger] c.messages[k]),
{
}

/// After a rebuild, every visible document comes from the new conversation:
/// nothing of an earlier generation remains.
pub proof fn lemma_regeneration_leaves_no_residue(
    c: crate::data_format::ConversationView,
    docs: Seq<StoredMessageView>,
)
    requires
        docs == c.messages.map_values(|m: MessageView| message_doc(m)),
    ensures
        forall|d: StoredMessageView|
            docs.contains(d) ==> exists|k: int|
                0 <= k < c.messages.len() && d == message_doc(#[trigger] c.messages[k]),
{
    assert forall|d: StoredMessageView| docs.contains(d) implies exists|k: int|
        0 <= k < c.messages.len() && d == message_doc(#[trigger] c.messages[k]) by {
        let j = choose|j: int| 0 <= j < docs.len() && docs[j] == d;
        assert(0 <= j < c.messages.len() && d == message_doc(c.messages[j]));
    }
}

/// For a fixed committed index and query, any two successful searches
/// return the same ordered result list: ranking is a function of the two.
pub proof fn lemma_search_deterministic(
    i: SearchIndex,
    q: Seq<char>,
    a: Seq<StoredMessageView>,
    b: Seq<StoredMessageView>,
)
    requires
        spec_search_results(i, q, a),
        spec_search_results(i, q, b),
    ensures
        a == b,
{
    assert forall|k: int| 0 <= k < a.len() implies a[k] == b[k] by {
        assert(collapse_doc(ranked_docs(i, q)[k]) == Some(a[k]));
        assert(collapse_doc(ranked_docs(i, q)[k]) == Some(b[k]));
    }
    assert(a =~= b);
}

/// A query that matches nothing returns the empty list.
pub proof fn lemma_no_match_is_empty(i: SearchIndex, q: Seq<char>, out: Seq<StoredMessageView>)
    requires
        spec_search_results(i, q, out),
        ranked_docs(i, q).len() == 0,
    ensures
        out.len() == 0,
{
}

} // verus!
