//! The export file: a header row and one row for each metric identifier, in the
//! single-column comma-separated form that `csv` writes.

use vstd::prelude::*;
use vstd::string::*;
use vstd::utf8::*;

use crate::metrics::{record_models, MetricRecord, MetricRecordModel};

verus! {

/// The field delimiter.
pub const COMMA: u8 = 0x2c;

/// The quote.
pub const QUOTE: u8 = 0x22;

/// The carriage return.
pub const CARRIAGE_RETURN: u8 = 0x0d;

/// The line feed, which ends a record.
pub const LINE_FEED: u8 = 0x0a;

/// The bytes that force a field into quotes: the delimiter, the quote and the two
/// line-break bytes.
pub open spec fn is_special(b: u8) -> bool {
    b == COMMA || b == QUOTE || b == CARRIAGE_RETURN || b == LINE_FEED
}

/// Whether `field` holds a byte that forces it into quotes.
pub open spec fn needs_quotes(field: Seq<u8>) -> bool {
    exists|i: int| 0 <= i < field.len() && is_special(#[trigger] field[i])
}

/// `field` with every quote written twice.
pub open spec fn doubled(field: Seq<u8>) -> Seq<u8>
    decreases field.len(),
{
    if field.len() == 0 {
        seq![]
    } else if field[0] == QUOTE {
        seq![QUOTE, QUOTE] + doubled(field.drop_first())
    } else {
        seq![field[0]] + doubled(field.drop_first())
    }
}

/// The record that holds the one field `field`, line feed included. An empty
/// field is written as a pair of quotes; a field with a special byte is put in
/// quotes, its own quotes doubled; any other field is written as it is.
pub open spec fn csv_record(field: Seq<u8>) -> Seq<u8> {
    if field.len() == 0 {
        seq![QUOTE, QUOTE, LINE_FEED]
    } else if needs_quotes(field) {
        seq![QUOTE] + doubled(field) + seq![QUOTE, LINE_FEED]
    } else {
        field + seq![LINE_FEED]
    }
}

/// The records of `fields`, one after the other.
pub open spec fn csv_records(fields: Seq<Seq<u8>>) -> Seq<u8>
    decreases fields.len(),
{
    if fields.len() == 0 {
        seq![]
    } else {
        csv_record(fields[0]) + csv_records(fields.drop_first())
    }
}

/// The name of the one column: the bytes of `id`.
pub open spec fn header_name() -> Seq<u8> {
    seq![0x69u8, 0x64u8]
}

/// The whole file for the identifiers `ids`: the header row, then one row each.
pub open spec fn export_bytes(ids: Seq<Seq<u8>>) -> Seq<u8> {
    csv_record(header_name()) + csv_records(ids)
}

/// The identifiers of `records` as the bytes that are written.
pub open spec fn id_bytes(records: Seq<MetricRecordModel>) -> Seq<Seq<u8>> {
    Seq::new(records.len(), |i: int| encode_utf8(records[i].id))
}

/// Writing one more record appends it.
pub proof fn lemma_csv_records_push(fields: Seq<Seq<u8>>, field: Seq<u8>)
    ensures
        csv_records(fields.push(field)) == csv_records(fields) + csv_record(field),
    decreases fields.len(),
{
    if fields.len() == 0 {
        assert(fields.push(field).drop_first() =~= fields);
        assert(csv_records(fields.push(field)) =~= csv_record(field) + csv_records(fields));
    } else {
        lemma_csv_records_push(fields.drop_first(), field);
        assert(fields.push(field).drop_first() =~= fields.drop_first().push(field));
        assert(csv_records(fields.push(field)) =~= csv_records(fields) + csv_record(field));
    }
}

/// The other way round: the one field of the record at the front of `text`, and
/// what follows the record. `None` where `text` does not start with a record of
/// one field that ends in a line feed.
pub open spec fn read_record(text: Seq<u8>) -> Option<(Seq<u8>, Seq<u8>)> {
    if text.len() == 0 || text[0] == LINE_FEED {
        None
    } else if text[0] == QUOTE {
        read_quoted(text.drop_first(), seq![])
    } else {
        read_plain(text, seq![])
    }
}

/// Reads a field written without quotes up to its line feed; `seen` is what was
/// read of it so far.
pub open spec fn read_plain(text: Seq<u8>, seen: Seq<u8>) -> Option<(Seq<u8>, Seq<u8>)>
    decreases text.len(),
{
    if text.len() == 0 {
        None
    } else if text[0] == LINE_FEED {
        Some((seen, text.drop_first()))
    } else if is_special(text[0]) {
        None
    } else {
        read_plain(text.drop_first(), seen.push(text[0]))
    }
}

/// Reads a field behind its opening quote, up to the closing quote and the line
/// feed; `seen` is what was read of it so far. Two quotes stand for one.
pub open spec fn read_quoted(text: Seq<u8>, seen: Seq<u8>) -> Option<(Seq<u8>, Seq<u8>)>
    decreases text.len(),
{
    if text.len() == 0 {
        None
    } else if text[0] != QUOTE {
        read_quoted(text.drop_first(), seen.push(text[0]))
    } else if text.len() >= 2 && text[1] == QUOTE {
        read_quoted(text.skip(2), seen.push(QUOTE))
    } else if text.len() >= 2 && text[1] == LINE_FEED {
        Some((seen, text.skip(2)))
    } else {
        None
    }
}

/// The fields of all the records of `text`, or `None` where `text` is not a
/// sequence of such records.
pub open spec fn read_records(text: Seq<u8>) -> Option<Seq<Seq<u8>>>
    decreases text.len(),
{
    if text.len() == 0 {
        Some(seq![])
    } else {
        match read_record(text) {
            Some((field, rest)) => if rest.len() < text.len() {
                match read_records(rest) {
                    Some(fields) => Some(seq![field] + fields),
                    None => None,
                }
            } else {
                None
            },
            None => None,
        }
    }
}

/// The identifiers that an export file holds: its rows behind the header row.
pub open spec fn read_ids(text: Seq<u8>) -> Option<Seq<Seq<u8>>> {
    match read_records(text) {
        Some(rows) => if rows.len() > 0 && rows[0] == header_name() {
            Some(rows.drop_first())
        } else {
            None
        },
        None => None,
    }
}

proof fn lemma_read_plain(field: Seq<u8>, rest: Seq<u8>, seen: Seq<u8>)
    requires
        !needs_quotes(field),
    ensures
        read_plain(field + seq![LINE_FEED] + rest, seen) == Some((seen + field, rest)),
    decreases field.len(),
{
    let text = field + seq![LINE_FEED] + rest;
    if field.len() == 0 {
        assert(text.drop_first() =~= rest);
        assert(seen + field =~= seen);
    } else {
        assert(is_special(field[0]) ==> needs_quotes(field));
        let shorter = field.drop_first();
        assert forall|i: int| 0 <= i < shorter.len() implies !is_special(#[trigger] shorter[i]) by {
            assert(shorter[i] == field[i + 1]);
        }
        lemma_read_plain(shorter, rest, seen.push(field[0]));
        assert(text.drop_first() =~= shorter + seq![LINE_FEED] + rest);
        assert(seen.push(field[0]) + shorter =~= seen + field);
    }
}

proof fn lemma_read_quoted(field: Seq<u8>, rest: Seq<u8>, seen: Seq<u8>)
    ensures
        read_quoted(doubled(field) + seq![QUOTE, LINE_FEED] + rest, seen) == Some(
            (seen + field, rest),
        ),
    decreases field.len(),
{
    let text = doubled(field) + seq![QUOTE, LINE_FEED] + rest;
    if field.len() == 0 {
        assert(text.skip(2) =~= rest);
        assert(seen + field =~= seen);
    } else {
        let shorter = field.drop_first();
        let tail = doubled(shorter) + seq![QUOTE, LINE_FEED] + rest;
        lemma_read_quoted(shorter, rest, seen.push(field[0]));
        assert(seen.push(field[0]) + shorter =~= seen + field);
        if field[0] == QUOTE {
            assert(text.skip(2) =~= tail);
        } else {
            assert(text.drop_first() =~= tail);
        }
    }
}

/// A record that was written is read as it was, whatever follows it.
pub proof fn lemma_read_record(field: Seq<u8>, rest: Seq<u8>)
    ensures
        read_record(csv_record(field) + rest) == Some((field, rest)),
{
    let text = csv_record(field) + rest;
    let nothing: Seq<u8> = seq![];
    assert(nothing + field =~= field);
    if field.len() == 0 || needs_quotes(field) {
        lemma_read_quoted(field, rest, nothing);
        assert(text.drop_first() =~= doubled(field) + seq![QUOTE, LINE_FEED] + rest);
    } else {
        assert(is_special(field[0]) ==> needs_quotes(field));
        lemma_read_plain(field, rest, nothing);
        assert(text =~= field + seq![LINE_FEED] + rest);
    }
}

/// Records that were written are read as they were, in the order in which they
/// were written.
pub proof fn lemma_read_records(fields: Seq<Seq<u8>>)
    ensures
        read_records(csv_records(fields)) == Some(fields),
    decreases fields.len(),
{
    if fields.len() > 0 {
        let rest = csv_records(fields.drop_first());
        lemma_read_record(fields[0], rest);
        lemma_read_records(fields.drop_first());
        assert(seq![fields[0]] + fields.drop_first() =~= fields);
    }
}

/// Reading an export file gives back the identifiers that were written to it, in
/// the same order, and the characters of each are those of the record it came
/// from.
pub proof fn lemma_export_reads_back(records: Seq<MetricRecordModel>)
    ensures
        read_ids(export_bytes(id_bytes(records))) == Some(id_bytes(records)),
        forall|i: int|
            0 <= i < records.len() ==> decode_utf8(#[trigger] id_bytes(records)[i])
                == records[i].id,
{
    let ids = id_bytes(records);
    let rows = seq![header_name()] + ids;
    assert(rows.drop_first() =~= ids);
    assert(csv_records(rows) == export_bytes(ids));
    lemma_read_records(rows);
    assert forall|i: int| 0 <= i < records.len() implies decode_utf8(#[trigger] ids[i])
        == records[i].id by {
        encode_utf8_decode_utf8(records[i].id);
    }
}

/// An export file holds one row for the header and one row for each record.
pub proof fn lemma_export_row_count(records: Seq<MetricRecordModel>)
    ensures
        read_records(export_bytes(id_bytes(records))) matches Some(rows) && rows.len()
            == records.len() + 1,
{
    let ids = id_bytes(records);
    let rows = seq![header_name()] + ids;
    assert(rows.drop_first() =~= ids);
    assert(csv_records(rows) == export_bytes(ids));
    lemma_read_records(rows);
}

/// Has `csv` write the one field `field` as a record of its own, and hands back
/// the bytes that it wrote. This is `csv::Writer::write_record`, on a writer with
/// the default configuration whose sink is a vector in memory, followed by
/// `csv::Writer::into_inner`. The contract states the record as `csv` documents
/// it for that configuration: comma as delimiter, line feed as terminator,
/// quotes only where a field needs them, quotes inside a field doubled, and a
/// pair of quotes for a record that would otherwise be empty. A field needs
/// quotes where it holds a delimiter, a quote or a line feed, and, as the
/// writer of `csv-core` has it, a carriage return. A sink in memory takes every
/// write, and a writer that has written nothing yet has no earlier record whose
/// length the new one could contradict: neither call fails.
#[verifier::external_body]
fn write_record(field: &[u8]) -> (r: Vec<u8>)
    ensures
        r@ == csv_record(field@),
{
    let mut writer = csv::WriterBuilder::new().has_headers(true).from_writer(Vec::new());
    let _ = writer.write_record([field]);
    writer.into_inner().unwrap_or_default()
}

/// The content of an export file, and the number of records that it holds.
#[derive(Debug, PartialEq, Eq)]
pub struct Export {
    pub content: Vec<u8>,
    pub count: usize,
}

/// Renders the export file for `records`: the header row, then the identifier of
/// each record in a row of its own, in the order of `records`. The count is the
/// number of records written: the file holds that many rows and the header row,
/// and reading it gives the identifiers back as they were.
pub fn export(records: &Vec<MetricRecord>) -> (r: Export)
    ensures
        r.content@ == export_bytes(id_bytes(record_models(records@))),
        r.count == records@.len(),
        read_records(r.content@) matches Some(rows) && rows.len() == r.count + 1,
        read_ids(r.content@) == Some(id_bytes(record_models(records@))),
{
    let ghost ids = id_bytes(record_models(records@));
    proof {
        lemma_export_reads_back(record_models(records@));
        lemma_export_row_count(record_models(records@));
        reveal_strlit("id");
        is_ascii_chars_encode_utf8("id"@);
    }
    let name = "id";
    assert(name.spec_bytes() =~= header_name());
    let mut content = write_record(name.as_bytes());
    proof {
        assert(ids.take(0) =~= Seq::<Seq<u8>>::empty());
        assert(content@ =~= csv_record(header_name()) + csv_records(ids.take(0)));
    }
    let mut i: usize = 0;
    while i < records.len()
        invariant
            i <= records@.len(),
            ids == id_bytes(record_models(records@)),
            content@ == csv_record(header_name()) + csv_records(ids.take(i as int)),
        decreases records@.len() - i,
    {
        let mut row = write_record(records[i].id.as_str().as_bytes());
        content.append(&mut row);
        proof {
            lemma_csv_records_push(ids.take(i as int), ids[i as int]);
            assert(ids.take(i as int).push(ids[i as int]) =~= ids.take(i + 1));
            assert(content@ =~= csv_record(header_name()) + csv_records(ids.take(i + 1)));
        }
        i = i + 1;
    }
    assert(ids.take(i as int) =~= ids);
    Export { content, count: i }
}

} // verus!
