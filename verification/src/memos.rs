//! One proceeding: where its transcript is found, what is shouted in it, and
//! the queue messages that announce it.

use vstd::prelude::*;
use crate::extract::{find_text_between_brackets, select_shouts, shouts_of};
use crate::feed::FeedEntry;
use crate::json::{json_column, json_column_of, json_object, json_object_text, member, JsonField, Members};
use crate::text::{blank, joined, decimal, decimal_text, digit_char, is_blank, or_empty, text_or_empty, texts};

verus! {

/// A proceeding with the raw text of its transcript.
#[derive(Debug, PartialEq, Eq)]
pub struct Memo {
    pub title: String,
    pub link: String,
    pub description: String,
    pub content: String,
}

/// Why a transcript could not be had.
#[derive(Debug, PartialEq, Eq)]
pub enum FetchError {
    /// The server answered with a status outside the 2xx range.
    Status(u16),
    /// The answer holds nothing but white space.
    EmptyBody,
}

/// Why a transcript could not be read.
#[derive(Debug, PartialEq, Eq)]
pub enum TranscriptError {
    /// The transcript is no JSON document.
    Parse,
}

/// A message for the queue.
#[derive(Debug, PartialEq, Eq)]
pub struct QueueMessage {
    pub body: String,
    pub group_id: String,
    pub dedup_id: String,
}

/// A queue message as texts.
pub struct MessageView {
    pub body: Seq<char>,
    pub group_id: Seq<char>,
    pub dedup_id: Seq<char>,
}

impl View for QueueMessage {
    type V = MessageView;

    open spec fn view(&self) -> MessageView {
        MessageView { body: self.body@, group_id: self.group_id@, dedup_id: self.dedup_id@ }
    }
}

/// What was found in one transcript, and the messages that announce it.
#[derive(Debug)]
pub struct Publication {
    /// The messages to publish, in order; none where nothing was shouted.
    pub messages: Vec<QueueMessage>,
    /// How many rows held no text and were passed over.
    pub malformed_rows: usize,
}

/// The shouts of one transcript and the number of rows without text.
#[derive(Debug)]
pub struct Extraction {
    pub shouts: Vec<String>,
    pub malformed_rows: usize,
}

/// The byte stands for itself in a percent-encoded text: an ASCII letter,
/// a digit, `-`, `.`, `_` or `~`.
pub open spec fn is_unreserved(b: u8) -> bool {
    (0x30 <= b <= 0x39) || (0x41 <= b <= 0x5A) || (0x61 <= b <= 0x7A) || b == 0x2D || b == 0x2E
        || b == 0x5F || b == 0x7E
}

/// The character for one hexadecimal digit, in upper case.
pub open spec fn hex_char(d: nat) -> char {
    if d < 10 {
        digit_char(d)
    } else if d == 10 {
        'A'
    } else if d == 11 {
        'B'
    } else if d == 12 {
        'C'
    } else if d == 13 {
        'D'
    } else if d == 14 {
        'E'
    } else {
        'F'
    }
}

/// One byte, percent-encoded: itself where it is unreserved, else `%` and
/// its two hexadecimal digits.
pub open spec fn encoded_byte(b: u8) -> Seq<char> {
    if is_unreserved(b) {
        seq![b as char]
    } else {
        seq!['%', hex_char((b / 16) as nat), hex_char((b % 16) as nat)]
    }
}

/// A row of bytes, percent-encoded byte by byte.
pub open spec fn encoded_bytes(bytes: Seq<u8>) -> Seq<char>
    decreases bytes.len(),
{
    if bytes.len() == 0 {
        Seq::empty()
    } else {
        encoded_bytes(bytes.drop_last()) + encoded_byte(bytes.last())
    }
}

/// A text, percent-encoded: the encoding of the bytes of its UTF-8 form.
pub open spec fn percent_encoded(s: Seq<char>) -> Seq<char> {
    encoded_bytes(vstd::utf8::encode_utf8(s))
}

/// The chair's knock, which is no shout.
pub open spec fn excluded_phrase() -> Seq<char> {
    "Puhemies koputtaa"@
}

/// The grouping key that all messages share.
pub open spec fn group_key() -> Seq<char> {
    "memo_shout_group"@
}

/// The deduplication id of the message that announces a proceeding.
pub open spec fn memo_dedup_id(token: int) -> Seq<char> {
    "memo_dedup_"@ + decimal_text(token)
}

/// The deduplication id of the shout at `index` of a proceeding.
pub open spec fn shout_dedup_id(token: int, index: int) -> Seq<char> {
    "shout_dedup_"@ + decimal_text(token) + "_"@ + decimal_text(index)
}

/// The body of the message that announces a proceeding.
pub open spec fn memo_body(entry: FeedEntry) -> Seq<char> {
    json_object_text(
        seq![
            ("title"@, text_or_empty(entry.title)),
            ("link"@, text_or_empty(entry.link)),
            ("description"@, text_or_empty(entry.description)),
        ],
        Seq::empty(),
    )
}

/// The message that announces a proceeding.
pub open spec fn memo_message(entry: FeedEntry, token: int) -> MessageView {
    MessageView { body: memo_body(entry), group_id: group_key(), dedup_id: memo_dedup_id(token) }
}

/// The message for the shout at `index` of a proceeding.
pub open spec fn shout_message(shout: Seq<char>, token: int, index: int) -> MessageView {
    MessageView { body: shout, group_id: group_key(), dedup_id: shout_dedup_id(token, index) }
}

/// The messages of one proceeding: the announcement, then one per shout.
pub open spec fn publish_plan(entry: FeedEntry, shouts: Seq<Seq<char>>, token: int) -> Seq<
    MessageView,
> {
    seq![memo_message(entry, token)] + Seq::new(
        shouts.len(),
        |i: int| shout_message(shouts[i], token, i),
    )
}

/// The views of a list of messages.
pub open spec fn message_views(v: Seq<QueueMessage>) -> Seq<MessageView> {
    Seq::new(v.len(), |i: int| v[i]@)
}

/// The shouts of one row: those of its text, none where it has no text.
pub open spec fn row_shouts(row: JsonField) -> Seq<Seq<char>> {
    match row {
        JsonField::Text(s) => shouts_of(s@, excluded_phrase()),
        _ => Seq::empty(),
    }
}

/// The shouts of all rows, in row order and within a row left to right.
pub open spec fn rows_shouts(rows: Seq<JsonField>) -> Seq<Seq<char>>
    decreases rows.len(),
{
    if rows.len() == 0 {
        Seq::empty()
    } else {
        rows_shouts(rows.drop_last()) + row_shouts(rows.last())
    }
}

/// The number of rows without text.
pub open spec fn malformed(rows: Seq<JsonField>) -> nat
    decreases rows.len(),
{
    if rows.len() == 0 {
        0
    } else {
        malformed(rows.drop_last()) + if rows.last() is Text { 0nat } else { 1nat }
    }
}

/// The text fields of the rows of a transcript: `None` where the transcript
/// is no JSON document, no rows where it has no array of rows.
pub open spec fn transcript_rows(content: Seq<char>) -> Option<Seq<JsonField>> {
    match json_column_of(content, "rowData"@, 1) {
        None => None,
        Some(None) => Some(Seq::empty()),
        Some(Some(rows)) => Some(rows),
    }
}

/// What is published for a proceeding with these shouts: its plan, or
/// nothing where nothing was shouted.
pub open spec fn publication_of(entry: FeedEntry, shouts: Seq<Seq<char>>, token: int) -> Seq<
    MessageView,
> {
    if shouts.len() > 0 {
        publish_plan(entry, shouts, token)
    } else {
        Seq::empty()
    }
}

/// Calls `urlencoding::encode`. Trusted: the result is the percent-encoding
/// of the argument's UTF-8 bytes, every byte but the unreserved ones written
/// as `%` and two upper-case hexadecimal digits.
#[verifier::external_body]
fn percent_encode(s: &str) -> (r: String)
    ensures
        r@ == percent_encoded(s@),
{
    urlencoding::encode(s).into_owned()
}

impl Memo {
    /// A proceeding and its transcript; absent fields of the entry are empty.
    pub fn new(entry: &FeedEntry, content: String) -> (r: Memo)
        ensures
            r.title@ == text_or_empty(entry.title),
            r.link@ == text_or_empty(entry.link),
            r.description@ == text_or_empty(entry.description),
            r.content == content,
    {
        Memo {
            title: or_empty(&entry.title),
            link: or_empty(&entry.link),
            description: or_empty(&entry.description),
            content,
        }
    }
}

/// The client identifier sent with each transcript request.
pub fn user_agent() -> (r: &'static str)
    ensures
        r@ == "MyCustomUserAgent/1.0"@,
{
    "MyCustomUserAgent/1.0"
}

/// The address of the transcript of the proceeding `title`: the base
/// address followed by the percent-encoded title.
pub fn transcript_url(base: &str, title: &str) -> (r: String)
    ensures
        r@ == base@ + percent_encoded(title@),
{
    let suffix = percent_encode(title);
    joined(base, suffix.as_str())
}

/// Judges the answer to a transcript request: its body, unless the status
/// is outside 200 to 299 or the body holds only white space.
pub fn fetch_memo(status: u16, body: String) -> (r: Result<String, FetchError>)
    ensures
        !(200 <= status < 300) ==> r == Err::<String, FetchError>(FetchError::Status(status)),
        200 <= status < 300 && blank(body@) ==> r == Err::<String, FetchError>(
            FetchError::EmptyBody,
        ),
        200 <= status < 300 && !blank(body@) ==> r == Ok::<String, FetchError>(body),
{
    if status < 200 || status >= 300 {
        return Err(FetchError::Status(status));
    }
    if is_blank(body.as_str()) {
        return Err(FetchError::EmptyBody);
    }
    Ok(body)
}

/// The messages that announce a proceeding and its shouts: the
/// announcement first, then the shouts in order, all under one grouping
/// key, each with a deduplication id made of `token` and its place.
pub fn send_to_sqs(entry: &FeedEntry, shout_data: &Vec<String>, token: i64) -> (r: Vec<QueueMessage>)
    ensures
        message_views(r@) == publish_plan(*entry, texts(shout_data@), token as int),
        r@.len() == 1 + shout_data@.len(),
{
    let mut fields: Members = Vec::new();
    fields.push(member("title", or_empty(&entry.title).as_str()));
    fields.push(member("link", or_empty(&entry.link).as_str()));
    fields.push(member("description", or_empty(&entry.description).as_str()));
    let nested: Vec<(String, Members)> = Vec::new();
    let body = json_object(&fields, &nested);
    proof {
        assert(crate::json::members(fields@) =~= seq![
            ("title"@, text_or_empty(entry.title)),
            ("link"@, text_or_empty(entry.link)),
            ("description"@, text_or_empty(entry.description)),
        ]);
        assert(crate::json::objects(nested@) =~= Seq::empty());
    }
    let stamp = decimal(token as i128);
    let mut out: Vec<QueueMessage> = Vec::new();
    out.push(
        QueueMessage {
            body,
            group_id: "memo_shout_group".to_owned(),
            dedup_id: joined("memo_dedup_", stamp.as_str()),
        },
    );
    let ghost shouts = texts(shout_data@);
    let ghost head = seq![memo_message(*entry, token as int)];
    assert(message_views(out@) =~= head);
    let mut i: usize = 0;
    while i < shout_data.len()
        invariant
            i <= shout_data.len(),
            shouts == texts(shout_data@),
            stamp@ == decimal_text(token as int),
            out@.len() == 1 + i,
            message_views(out@) == head + Seq::new(
                i as nat,
                |k: int| shout_message(shouts[k], token as int, k),
            ),
        decreases shout_data.len() - i,
    {
        let ghost before = message_views(out@);
        let place = decimal(i as i128);
        let with_stamp = joined("shout_dedup_", stamp.as_str());
        let with_mark = joined(with_stamp.as_str(), "_");
        let dedup_id = joined(with_mark.as_str(), place.as_str());
        out.push(
            QueueMessage {
                body: shout_data[i].clone(),
                group_id: "memo_shout_group".to_owned(),
                dedup_id,
            },
        );
        proof {
            assert(shouts[i as int] == shout_data@[i as int]@);
            assert(message_views(out@) =~= before.push(
                shout_message(shouts[i as int], token as int, i as int),
            ));
            assert(message_views(out@) =~= head + Seq::new(
                (i + 1) as nat,
                |k: int| shout_message(shouts[k], token as int, k),
            ));
        }
        i += 1;
    }
    out
}

/// Gathers the shouts of all rows, in row order; rows without text are
/// counted and passed over.
pub fn collect_shouts(rows: &Vec<JsonField>) -> (r: Extraction)
    ensures
        texts(r.shouts@) == rows_shouts(rows@),
        r.malformed_rows == malformed(rows@),
{
    let mut shouts: Vec<String> = Vec::new();
    let mut skipped: usize = 0;
    let mut i: usize = 0;
    proof {
        assert(texts(shouts@) =~= rows_shouts(rows@.take(0)));
    }
    while i < rows.len()
        invariant
            i <= rows.len(),
            skipped <= i,
            texts(shouts@) == rows_shouts(rows@.take(i as int)),
            skipped == malformed(rows@.take(i as int)),
        decreases rows.len() - i,
    {
        proof {
            assert(rows@.take(i + 1).drop_last() =~= rows@.take(i as int));
            assert(rows@.take(i + 1).last() == rows@[i as int]);
        }
        match &rows[i] {
            JsonField::Text(s) => {
                let found = find_text_between_brackets(s.as_str());
                select_shouts(found, "Puhemies koputtaa", &mut shouts);
            },
            _ => {
                skipped += 1;
                assert(texts(shouts@) + Seq::<Seq<char>>::empty() =~= texts(shouts@));
            },
        }
        i += 1;
    }
    proof {
        assert(rows@.take(rows.len() as int) =~= rows@);
    }
    Extraction { shouts, malformed_rows: skipped }
}

/// Plans what is published for a proceeding whose shouts are known: the
/// announcement and the shouts, or nothing where nothing was shouted.
pub fn plan_publication(entry: &FeedEntry, found: Extraction, token: i64) -> (r: Publication)
    ensures
        message_views(r.messages@) == publication_of(*entry, texts(found.shouts@), token as int),
        r.malformed_rows == found.malformed_rows,
{
    if found.shouts.len() > 0 {
        let messages = send_to_sqs(entry, &found.shouts, token);
        Publication { messages, malformed_rows: found.malformed_rows }
    } else {
        let messages: Vec<QueueMessage> = Vec::new();
        assert(message_views(messages@) =~= Seq::empty());
        Publication { messages, malformed_rows: found.malformed_rows }
    }
}

/// Reads the transcript of a proceeding and plans what is published for
/// it. A transcript that is no JSON document is an error; one without an
/// array of rows holds no shouts; a row without text is passed over.
pub fn edit_memo(entry: &FeedEntry, content: String, token: i64) -> (r: Result<
    Publication,
    TranscriptError,
>)
    ensures
        match transcript_rows(content@) {
            None => r == Err::<Publication, TranscriptError>(TranscriptError::Parse),
            Some(rows) => {
                &&& r.is_ok()
                &&& message_views(r.unwrap().messages@) == publication_of(
                    *entry,
                    rows_shouts(rows),
                    token as int,
                )
                &&& r.unwrap().malformed_rows == malformed(rows)
            },
        },
{
    let memo = Memo::new(entry, content);
    match json_column(memo.content.as_str(), "rowData", 1) {
        None => Err(TranscriptError::Parse),
        Some(None) => {
            let rows: Vec<JsonField> = Vec::new();
            let found = collect_shouts(&rows);
            Ok(plan_publication(entry, found, token))
        },
        Some(Some(rows)) => {
            let found = collect_shouts(&rows);
            Ok(plan_publication(entry, found, token))
        },
    }
}

} // verus!
