//! The records that the service hands out and takes in.

use vstd::prelude::*;
use crate::decimal::{format_i32, int_text, lemma_int_text_is_display, parse_usize_spec};

verus! {

/// One recorded visit of a short URI.
pub struct DetailEntry {
    pub client_ip: String,
    pub s_uri: String,
    pub timestamp: String,
}

/// What a [`DetailEntry`] holds, as text.
pub struct DetailEntryView {
    pub client_ip: Seq<char>,
    pub s_uri: Seq<char>,
    pub timestamp: Seq<char>,
}

impl View for DetailEntry {
    type V = DetailEntryView;

    open spec fn view(&self) -> DetailEntryView {
        DetailEntryView { client_ip: self.client_ip@, s_uri: self.s_uri@, timestamp: self.timestamp@ }
    }
}

impl DetailEntry {
    pub fn new(client_ip: String, s_uri: String, timestamp: String) -> (entry: Self)
        ensures
            entry.client_ip == client_ip,
            entry.s_uri == s_uri,
            entry.timestamp == timestamp,
    {
        Self { client_ip, s_uri, timestamp }
    }
}

/// The body of a request to shorten `r_uri`.
pub struct Shorten {
    pub r_uri: String,
}

/// A stored visit as the visit table gives it back: the short URI's row
/// id, the client address and the time of the visit.
pub type DetailRow = (i32, String, String);

/// The text view of a stored visit.
pub open spec fn row_view(row: DetailRow) -> (i32, Seq<char>, Seq<char>) {
    (row.0, row.1@, row.2@)
}

/// The entry that a stored visit is shown as: the client address, the
/// decimal text of the row id, and the time.
pub open spec fn entry_of_row(row: (i32, Seq<char>, Seq<char>)) -> DetailEntryView {
    DetailEntryView { client_ip: row.1, s_uri: int_text(row.0 as int), timestamp: row.2 }
}

/// The entries that stored visits are shown as, one for each, in order.
pub fn detail_entries(rows: &Vec<DetailRow>) -> (entries: Vec<DetailEntry>)
    ensures
        entries@.len() == rows@.len(),
        forall|i: int| 0 <= i < rows@.len() ==>
            #[trigger] entries@[i]@ == entry_of_row(row_view(rows@[i])),
        forall|i: int| 0 <= i < rows@.len() ==> {
            &&& (#[trigger] entries@[i]).client_ip@ == rows@[i].1@
            &&& entries@[i].s_uri@ == int_text(rows@[i].0 as int)
            &&& entries@[i].timestamp@ == rows@[i].2@
        },
{
    let mut entries: Vec<DetailEntry> = Vec::new();
    let mut i: usize = 0;
    while i < rows.len()
        invariant
            i <= rows@.len(),
            entries@.len() == i,
            forall|j: int| 0 <= j < i ==>
                #[trigger] entries@[j]@ == entry_of_row(row_view(rows@[j])),
        decreases rows@.len() - i,
    {
        let row = &rows[i];
        let entry = DetailEntry::new(row.1.clone(), format_i32(row.0), row.2.clone());
        entries.push(entry);
        i = i + 1;
    }
    assert forall|i: int| 0 <= i < rows@.len() implies {
        &&& (#[trigger] entries@[i]).client_ip@ == rows@[i].1@
        &&& entries@[i].s_uri@ == int_text(rows@[i].0 as int)
        &&& entries@[i].timestamp@ == rows@[i].2@
    } by {
        assert(entries@[i]@ == entry_of_row(row_view(rows@[i])));
    }
    entries
}

/// A stored visit is shown with its client address and time as stored,
/// and with its row id written in decimal as `Display` writes it: a row id
/// `n >= 0` as digits that read back as `n`, a negative one as `-` and the
/// digits of `-n`.
pub proof fn lemma_entry_shows_row(row: (i32, Seq<char>, Seq<char>))
    ensures
        entry_of_row(row).client_ip == row.1,
        entry_of_row(row).timestamp == row.2,
        entry_of_row(row).s_uri == int_text(row.0 as int),
        row.0 >= 0 ==> parse_usize_spec(entry_of_row(row).s_uri) == Some(row.0 as usize),
        row.0 < 0 ==> entry_of_row(row).s_uri[0] == '-'
            && parse_usize_spec(entry_of_row(row).s_uri.drop_first()) == Some((-(row.0 as int)) as usize),
{
    lemma_int_text_is_display(row.0);
}

/// The entries shown for stored visits: one for each, in order, each with
/// its row's client address and time and its row id's decimal text (which
/// reads back as the row id when that is not negative).
pub proof fn lemma_entries_show_rows(rows: Seq<(i32, Seq<char>, Seq<char>)>)
    ensures
        ({
            let entries = rows.map_values(|r: (i32, Seq<char>, Seq<char>)| entry_of_row(r));
            &&& entries.len() == rows.len()
            &&& forall|i: int| 0 <= i < rows.len() ==> {
                &&& (#[trigger] entries[i]).client_ip == rows[i].1
                &&& entries[i].timestamp == rows[i].2
                &&& entries[i].s_uri == int_text(rows[i].0 as int)
                &&& rows[i].0 >= 0 ==> parse_usize_spec(entries[i].s_uri) == Some(rows[i].0 as usize)
            }
        }),
{
    let entries = rows.map_values(|r: (i32, Seq<char>, Seq<char>)| entry_of_row(r));
    assert forall|i: int| 0 <= i < rows.len() implies {
        &&& (#[trigger] entries[i]).client_ip == rows[i].1
        &&& entries[i].timestamp == rows[i].2
        &&& entries[i].s_uri == int_text(rows[i].0 as int)
        &&& rows[i].0 >= 0 ==> parse_usize_spec(entries[i].s_uri) == Some(rows[i].0 as usize)
    } by {
        lemma_entry_shows_row(rows[i]);
    }
}

/// The text views of a sequence of entries.
pub open spec fn entries_view(entries: Seq<DetailEntry>) -> Seq<DetailEntryView> {
    entries.map_values(|e: DetailEntry| e@)
}

/// The JSON encoding of entries: an array of objects with the fields
/// `client_ip`, `s_uri` and `timestamp`, in that order.
pub uninterp spec fn details_json(entries: Seq<DetailEntryView>) -> Seq<char>;

/// The text views of an encoding outcome.
pub open spec fn text_result(r: Result<String, String>) -> Result<Seq<char>, Seq<char>> {
    match r {
        Ok(t) => Ok(t@),
        Err(e) => Err(e@),
    }
}

/// Encodes entries with `serde_json::to_string`, each entry as a map from
/// its field names to its texts (which serde_json writes as the object that
/// a derived `Serialize` of [`DetailEntry`] writes, keys in the same order).
/// The contract claims that the encoding succeeds, as serde_json documents
/// for a value whose `Serialize` never fails and whose maps have string keys
/// only, and that its text is a function of the entries' texts:
/// [`details_json`].
#[verifier::external_body]
pub fn serialize_details(entries: &Vec<DetailEntry>) -> (r: Result<String, String>)
    ensures
        r is Ok,
        r->Ok_0@ == details_json(entries_view(entries@)),
{
    let maps: Vec<std::collections::BTreeMap<&str, &String>> = entries
        .iter()
        .map(|e| std::collections::BTreeMap::from([("client_ip", &e.client_ip), ("s_uri", &e.s_uri), ("timestamp", &e.timestamp)]))
        .collect();
    serde_json::to_string(&maps).map_err(|e| e.to_string())
}

} // verus!
