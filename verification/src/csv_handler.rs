//! The list exchange format: one record per line, as the `csv` crate reads and
//! writes it.

use crate::events::{ProxyRequestLog, ProxyRequestLogView};
use vstd::prelude::*;

verus! {

/// The error type of the `csv` crate.
#[verifier::external_type_specification]
#[verifier::external_body]
pub struct ExCsvError(csv::Error);

/// A `csv::Writer` with the default settings over a byte vector, standing between
/// two records: it is made empty and handed on only after a whole record. Nothing
/// inside it is visible to the proofs, which speak of it through [`csv_written`] and
/// [`csv_width`] alone.
#[verifier::external_body]
pub struct CsvWriter {
    inner: csv::Writer<Vec<u8>>,
}

/// The bytes that a writer has taken so far, buffered or handed on.
pub uninterp spec fn csv_written(writer: CsvWriter) -> Seq<u8>;

/// The number of fields that a writer asks of every record: that of the first record
/// it took, and none before it has taken one.
pub uninterp spec fn csv_width(writer: CsvWriter) -> Option<nat>;

/// The bytes of one record of the given fields, terminator included, as a writer
/// with the default settings encodes it.
pub uninterp spec fn csv_record(fields: Seq<Seq<char>>) -> Seq<u8>;

/// What a reader with the default settings makes of a document when every record
/// after the header row is read as one text: the texts in order, or nothing where
/// the document or one of its records is refused.
pub uninterp spec fn csv_rows(file: Seq<u8>) -> Option<Seq<Seq<char>>>;

/// Calls `csv::Writer::from_writer` on an empty byte vector: the new writer has
/// taken nothing yet and asks no number of fields.
#[verifier::external_body]
fn csv_writer() -> (writer: CsvWriter)
    ensures
        csv_written(writer) == Seq::<u8>::empty(),
        csv_width(writer) is None,
{
    CsvWriter { inner: csv::Writer::from_writer(Vec::new()) }
}

/// Calls `csv::Writer::serialize` with the fields of one record and hands the writer
/// on where the record was taken. A sequence of texts has no header of its own and
/// every text can be encoded, and appending to the byte vector beneath cannot fail;
/// so the one refusal left is that of a record whose number of fields differs from
/// the first record's. Where the record is taken, the writer has its bytes after what
/// it had, and asks the record's number of fields from then on.
#[verifier::external_body]
fn csv_serialize(writer: CsvWriter, fields: &Vec<String>) -> (done: Result<CsvWriter, csv::Error>)
    ensures
        done is Ok <==> (csv_width(writer) is None || csv_width(writer) == Some(fields@.len())),
        done matches Ok(next) ==> csv_written(next) == csv_written(writer) + csv_record(
            fields.deep_view(),
        ),
        done matches Ok(next) ==> csv_width(next) == Some(fields@.len()),
{
    let mut writer = writer;
    match writer.inner.serialize(fields) {
        Ok(()) => Ok(writer),
        Err(error) => Err(error),
    }
}

/// Calls `csv::Writer::into_inner`, which flushes the writer and hands out the byte
/// vector beneath it. It fails only where the flush does, and appending to a byte
/// vector cannot fail: the result is the bytes that the writer had taken.
#[verifier::external_body]
fn csv_finish(writer: CsvWriter) -> (bytes: Result<Vec<u8>, csv::Error>)
    ensures
        bytes is Ok,
        bytes matches Ok(b) ==> b@ == csv_written(writer),
{
    match writer.inner.into_inner() {
        Ok(bytes) => Ok(bytes),
        Err(error) => Err(csv::Error::from(error.into_error())),
    }
}

/// Calls `csv::Reader::from_reader` on the document and `deserialize` for its
/// records, each read as one text, up to the first that is refused. The contract
/// names the outcome.
#[verifier::external_body]
fn csv_deserialize(file: &[u8]) -> (rows: Result<Vec<String>, csv::Error>)
    ensures
        match csv_rows(file@) {
            Some(texts) => rows matches Ok(r) && r.deep_view() == texts,
            None => rows is Err,
        },
{
    csv::Reader::from_reader(file).deserialize::<String>().collect()
}

/// The message of a `csv::Error`, as its `Display` writes it. Nothing is claimed of
/// the text.
#[verifier::external_body]
fn csv_error_text(error: &csv::Error) -> String {
    error.to_string()
}

/// The bytes of the given records, one after the other.
pub open spec fn csv_lines(records: Seq<Seq<Seq<char>>>) -> Seq<u8>
    decreases records.len(),
{
    if records.len() == 0 {
        Seq::empty()
    } else {
        csv_lines(records.drop_last()) + csv_record(records.last())
    }
}

/// The bytes of a document: the header row, then the records.
pub open spec fn csv_document(headers: Seq<Seq<char>>, records: Seq<Seq<Seq<char>>>) -> Seq<u8> {
    csv_record(headers) + csv_lines(records)
}

/// Every record has `width` fields.
pub open spec fn all_of_width(records: Seq<Seq<Seq<char>>>, width: nat) -> bool {
    forall|i: int| 0 <= i < records.len() ==> (#[trigger] records[i]).len() == width
}

/// Each text as a record of one field.
pub open spec fn single_fields(list: Seq<Seq<char>>) -> Seq<Seq<Seq<char>>> {
    list.map_values(|text: Seq<char>| seq![text])
}

/// The fields of a request log entry: method, target, and `true` or `false`.
pub open spec fn request_fields(entry: ProxyRequestLogView) -> Seq<Seq<char>> {
    seq![entry.method, entry.request, if entry.blocked {
        "true"@
    } else {
        "false"@
    }]
}

/// Reads a document: the texts of the records after the header row, in order, or the
/// reader's message where it refuses the document.
pub fn read_from_csv(file: &[u8]) -> (rows: Result<Vec<String>, String>)
    ensures
        match csv_rows(file@) {
            Some(texts) => rows matches Ok(r) && r.deep_view() == texts,
            None => rows is Err,
        },
{
    match csv_deserialize(file) {
        Ok(rows) => Ok(rows),
        Err(error) => Err(csv_error_text(&error)),
    }
}

/// Writes a document of the header row and the records. It succeeds exactly where
/// every record has as many fields as the header row; the result is then the
/// header's bytes followed by each record's, in order. Otherwise the result is the
/// writer's message about the first record of another width.
pub fn write_csv_from_vec(headers: &Vec<String>, records: &Vec<Vec<String>>) -> (document:
    Result<Vec<u8>, String>)
    ensures
        document is Ok <==> all_of_width(records.deep_view(), headers@.len()),
        document matches Ok(bytes) ==> bytes@ == csv_document(
            headers.deep_view(),
            records.deep_view(),
        ),
{
    let ghost rows = records.deep_view();
    let ghost width = headers@.len();
    let mut writer = match csv_serialize(csv_writer(), headers) {
        Ok(next) => next,
        Err(error) => {
            return Err(csv_error_text(&error));
        },
    };
    let mut i: usize = 0;
    assert(rows.take(0) =~= Seq::<Seq<Seq<char>>>::empty());
    while i < records.len()
        invariant
            i <= records.len(),
            rows == records.deep_view(),
            width == headers@.len(),
            csv_width(writer) == Some(width),
            all_of_width(rows.take(i as int), width),
            csv_written(writer) == csv_record(headers.deep_view()) + csv_lines(rows.take(i as int)),
        decreases records.len() - i,
    {
        let ghost next = rows.take(i + 1);
        proof {
            assert(next.drop_last() =~= rows.take(i as int));
            assert(next.last() == records@[i as int].deep_view());
            assert(rows[i as int].len() == records@[i as int]@.len());
            assert(csv_record(headers.deep_view()) + csv_lines(next) =~= csv_record(
                headers.deep_view(),
            ) + csv_lines(next.drop_last()) + csv_record(next.last()));
        }
        writer = match csv_serialize(writer, &records[i]) {
            Ok(taken) => taken,
            Err(error) => {
                return Err(csv_error_text(&error));
            },
        };
        proof {
            assert forall|k: int| 0 <= k < next.len() implies (#[trigger] next[k]).len()
                == width by {
                if k < i {
                    assert(next[k] == rows.take(i as int)[k]);
                }
            }
        }
        i += 1;
    }
    assert(rows.take(records.len() as int) =~= rows);
    match csv_finish(writer) {
        Ok(bytes) => Ok(bytes),
        Err(error) => Err(csv_error_text(&error)),
    }
}

/// The exclusion list as a document under the header `REQUEST`, one entry per record.
/// Every list can be written: each record has the header row's one field.
pub fn export_exclusion_list(list: &Vec<String>) -> (document: Result<Vec<u8>, String>)
    ensures
        document matches Ok(bytes) && bytes@ == csv_document(
            seq!["REQUEST"@],
            single_fields(list.deep_view()),
        ),
{
    let mut headers: Vec<String> = Vec::new();
    headers.push("REQUEST".to_owned());
    assert(headers.deep_view() =~= seq!["REQUEST"@]);
    let mut records: Vec<Vec<String>> = Vec::new();
    let mut i: usize = 0;
    while i < list.len()
        invariant
            i <= list.len(),
            records.len() == i,
            forall|k: int| 0 <= k < i ==> (#[trigger] records@[k]).deep_view() == seq![list@[k]@],
        decreases list.len() - i,
    {
        let mut record: Vec<String> = Vec::new();
        record.push(list[i].clone());
        assert(record.deep_view() =~= seq![list@[i as int]@]);
        records.push(record);
        i += 1;
    }
    assert(records.deep_view() =~= single_fields(list.deep_view()));
    write_csv_from_vec(&headers, &records)
}

/// The request log as a document under the headers `METHOD`, `REQUEST` and `BLOCKED`.
/// Every log can be written: each record has the header row's three fields.
pub fn export_request_list(requests: &Vec<ProxyRequestLog>) -> (document: Result<
    Vec<u8>,
    String,
>)
    ensures
        document matches Ok(bytes) && bytes@ == csv_document(
            seq!["METHOD"@, "REQUEST"@, "BLOCKED"@],
            requests.deep_view().map_values(|entry: ProxyRequestLogView| request_fields(entry)),
        ),
{
    let mut headers: Vec<String> = Vec::new();
    headers.push("METHOD".to_owned());
    headers.push("REQUEST".to_owned());
    headers.push("BLOCKED".to_owned());
    assert(headers.deep_view() =~= seq!["METHOD"@, "REQUEST"@, "BLOCKED"@]);
    let mut records: Vec<Vec<String>> = Vec::new();
    let mut i: usize = 0;
    while i < requests.len()
        invariant
            i <= requests.len(),
            records.len() == i,
            forall|k: int|
                0 <= k < i ==> (#[trigger] records@[k]).deep_view() == request_fields(
                    requests@[k]@,
                ),
        decreases requests.len() - i,
    {
        let entry = &requests[i];
        let mut record: Vec<String> = Vec::new();
        record.push(entry.method.clone());
        record.push(entry.request.clone());
        if entry.blocked {
            record.push("true".to_owned());
        } else {
            record.push("false".to_owned());
        }
        assert(record.deep_view() =~= request_fields(entry@));
        records.push(record);
        i += 1;
    }
    assert(records.deep_view() =~= requests.deep_view().map_values(
        |entry: ProxyRequestLogView| request_fields(entry),
    ));
    write_csv_from_vec(&headers, &records)
}

} // verus!
