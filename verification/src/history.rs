//! The purchase history: one CSV row per purchase and one at the end of a
//! live run, with a header at the top of a new file.
use vstd::prelude::*;

use crate::item::{Item, item_gold, item_key};
use crate::text::{decimal, decimal_string, texts};

verus! {

/// A char that forces a CSV field into quotes: the delimiter, the quote, or
/// a line break.
pub open spec fn csv_special(c: char) -> bool {
    c == ',' || c == '"' || c == '\r' || c == '\n'
}

/// `f` with each quote doubled.
pub open spec fn double_quotes(f: Seq<char>) -> Seq<char>
    decreases f.len(),
{
    if f.len() == 0 {
        seq![]
    } else if f.last() == '"' {
        double_quotes(f.drop_last()) + seq!['"', '"']
    } else {
        double_quotes(f.drop_last()).push(f.last())
    }
}

/// A field as written: in quotes, quotes doubled, when it holds a special
/// char; else as it is.
pub open spec fn csv_field(f: Seq<char>) -> Seq<char> {
    if exists|i: int| 0 <= i < f.len() && csv_special(f[i]) {
        seq!['"'] + double_quotes(f) + seq!['"']
    } else {
        f
    }
}

/// The written fields, separated by commas.
pub open spec fn csv_fields(fields: Seq<Seq<char>>) -> Seq<char>
    decreases fields.len(),
{
    if fields.len() == 0 {
        seq![]
    } else if fields.len() == 1 {
        csv_field(fields[0])
    } else {
        csv_fields(fields.drop_last()) + seq![','] + csv_field(fields.last())
    }
}

/// One CSV record as text: the written fields and a line feed; a record that
/// would be empty is written as `""`.
pub open spec fn csv_line(fields: Seq<Seq<char>>) -> Seq<char> {
    if csv_fields(fields).len() == 0 {
        seq!['"', '"', '\n']
    } else {
        csv_fields(fields).push('\n')
    }
}

/// The bytes of one CSV record: its text in UTF-8.
pub open spec fn csv_record(fields: Seq<Seq<char>>) -> Seq<u8> {
    vstd::utf8::encode_utf8(csv_line(fields))
}

/// Encodes one CSV record through a fresh `csv::Writer` over a `Vec<u8>`
/// (headers off, default settings: `,` delimiter, `"` quote doubled inside
/// quoted fields, fields quoted only when they hold `,` `"` CR or LF, `\n`
/// terminator): `write_record`, then `into_inner`. The writer's source shows
/// that neither call fails on a `Vec<u8>` for a first record.
#[verifier::external_body]
fn encode_record(fields: &Vec<String>) -> (r: Option<Vec<u8>>)
    ensures
        r is Some,
        r matches Some(b) ==> b@ == csv_record(texts(fields@)),
{
    let mut w = csv::WriterBuilder::new().has_headers(false).from_writer(Vec::new());
    if w.write_record(fields).is_err() {
        return None;
    }
    w.into_inner().ok()
}

/// The column names of the history file.
pub open spec fn header_fields() -> Seq<Seq<char>> {
    seq!["timestamp"@, "run_id"@, "refresh"@, "event"@, "item"@, "gold"@]
}

/// A row of the history file.
pub open spec fn history_row(
    timestamp: Seq<char>,
    run_id: Seq<char>,
    refresh: u32,
    event: Seq<char>,
    item: Seq<char>,
    gold: u64,
) -> Seq<Seq<char>> {
    seq![timestamp, run_id, decimal(refresh as nat), event, item, decimal(gold as nat)]
}

/// Whether a history file of this length (`None`: it cannot be inspected,
/// e.g. it does not exist yet) needs the header row first.
pub fn needs_header(len: Option<u64>) -> (r: bool)
    ensures
        r == match len {
            Some(n) => n == 0,
            None => true,
        },
{
    match len {
        Some(n) => n == 0,
        None => true,
    }
}

/// A field with no special char is written as it is.
pub proof fn lemma_plain_field(f: Seq<char>)
    requires
        forall|i: int| 0 <= i < f.len() ==> !csv_special(#[trigger] f[i]),
    ensures
        csv_field(f) == f,
{
}

/// The header row is the column names separated by commas.
pub proof fn lemma_header_text()
    ensures
        csv_line(header_fields()) == "timestamp,run_id,refresh,event,item,gold\n"@,
{
    reveal_strlit("timestamp");
    reveal_strlit("run_id");
    reveal_strlit("refresh");
    reveal_strlit("event");
    reveal_strlit("item");
    reveal_strlit("gold");
    reveal_strlit("timestamp,run_id,refresh,event,item,gold\n");
    let h = header_fields();
    lemma_plain_field("timestamp"@);
    lemma_plain_field("run_id"@);
    lemma_plain_field("refresh"@);
    lemma_plain_field("event"@);
    lemma_plain_field("item"@);
    lemma_plain_field("gold"@);
    let h1 = h.drop_last().drop_last().drop_last().drop_last().drop_last();
    let h2 = h.drop_last().drop_last().drop_last().drop_last();
    let h3 = h.drop_last().drop_last().drop_last();
    let h4 = h.drop_last().drop_last();
    let h5 = h.drop_last();
    assert(h1 =~= seq!["timestamp"@]);
    assert(csv_fields(h1) == "timestamp"@);
    assert(h2.drop_last() == h1);
    assert(csv_fields(h2) == "timestamp"@ + seq![','] + "run_id"@);
    assert(h3.drop_last() == h2);
    assert(csv_fields(h3) == csv_fields(h2) + seq![','] + "refresh"@);
    assert(h4.drop_last() == h3);
    assert(csv_fields(h4) == csv_fields(h3) + seq![','] + "event"@);
    assert(h5.drop_last() == h4);
    assert(csv_fields(h5) == csv_fields(h4) + seq![','] + "item"@);
    assert(csv_fields(h) == csv_fields(h5) + seq![','] + "gold"@);
    assert(csv_line(h) =~= "timestamp,run_id,refresh,event,item,gold\n"@);
}

/// The header row, encoded: `timestamp,run_id,refresh,event,item,gold` and
/// a line feed.
pub fn header() -> (r: Option<Vec<u8>>)
    ensures
        r is Some,
        r matches Some(b) ==> b@ == csv_record(header_fields()),
        r matches Some(b) ==> b@ == vstd::utf8::encode_utf8(
            "timestamp,run_id,refresh,event,item,gold\n"@,
        ),
{
    proof {
        lemma_header_text();
    }
    let fields = vec![
        "timestamp".to_owned(),
        "run_id".to_owned(),
        "refresh".to_owned(),
        "event".to_owned(),
        "item".to_owned(),
        "gold".to_owned(),
    ];
    assert(texts(fields@) =~= header_fields());
    encode_record(&fields)
}

/// The rows of one run's history.
pub struct History {
    run_id: String,
}

impl History {
    /// The text that identifies the run in each row.
    pub closed spec fn run_id_spec(&self) -> Seq<char> {
        self.run_id@
    }

    /// The history of the run `run_id`.
    pub fn new(run_id: &str) -> (r: History)
        ensures
            r.run_id_spec() == run_id@,
    {
        History { run_id: run_id.to_owned() }
    }

    /// The row for `item`, bought at refresh `refresh`: event `bought`, the
    /// item's key and its gold price.
    pub fn bought(&self, timestamp: &str, refresh: u32, item: Item) -> (r: Option<Vec<u8>>)
        ensures
            r is Some,
            r matches Some(b) ==> b@ == csv_record(
                history_row(
                    timestamp@,
                    self.run_id_spec(),
                    refresh,
                    "bought"@,
                    item_key(item),
                    item_gold(item) as u64,
                ),
            ),
    {
        self.write(timestamp, refresh, "bought", item.key(), item.gold() as u64)
    }

    /// The row that ends a run: event `run_end`, no item, the gold spent.
    pub fn run_end(&self, timestamp: &str, refresh: u32, gold: u64) -> (r: Option<Vec<u8>>)
        ensures
            r is Some,
            r matches Some(b) ==> b@ == csv_record(
                history_row(timestamp@, self.run_id_spec(), refresh, "run_end"@, ""@, gold),
            ),
    {
        self.write(timestamp, refresh, "run_end", "", gold)
    }

    fn write(&self, timestamp: &str, refresh: u32, event: &str, item: &str, gold: u64) -> (r: Option<
        Vec<u8>,
    >)
        ensures
            r is Some,
            r matches Some(b) ==> b@ == csv_record(
                history_row(timestamp@, self.run_id_spec(), refresh, event@, item@, gold),
            ),
    {
        let fields = vec![
            timestamp.to_owned(),
            self.run_id.clone(),
            decimal_string(refresh as u64),
            event.to_owned(),
            item.to_owned(),
            decimal_string(gold),
        ];
        assert(texts(fields@) =~= history_row(
            timestamp@,
            self.run_id_spec(),
            refresh,
            event@,
            item@,
            gold,
        ));
        encode_record(&fields)
    }
}

} // verus!
