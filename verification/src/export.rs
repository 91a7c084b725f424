//! CSV rendering of a collection: one header record, then one record per
//! patient, written by the `csv` crate into memory.

use crate::models::{Medication, MedicationView, Patient, PatientView};
use crate::text::{decimal, decimal_string};
use vstd::prelude::*;
use vstd::string::StringExecFns;
use vstd::utf8::{char_is_scalar, encode_scalar, encode_utf8, has_width_1_encoding};

verus! {

/// The text of one medication inside the flattened list: the name, a space,
/// and the schedule in round brackets.
pub open spec fn medication_entry(m: MedicationView) -> Seq<char> {
    m.name + " ("@ + m.schedule + ")"@
}

/// The flattened medication list: the entries in order, joined by `"; "`.
pub open spec fn flattened(medications: Seq<MedicationView>) -> Seq<char>
    decreases medications.len(),
{
    if medications.len() == 0 {
        Seq::empty()
    } else if medications.len() == 1 {
        medication_entry(medications[0])
    } else {
        flattened(medications.drop_last()) + "; "@ + medication_entry(medications.last())
    }
}

/// The six column titles.
pub open spec fn header_fields() -> Seq<Seq<char>> {
    seq!["Patient ID"@, "Name"@, "Age"@, "Gender"@, "Disease"@, "Medications"@]
}

/// The six fields of a patient's record, in column order.
pub open spec fn patient_fields(p: PatientView) -> Seq<Seq<char>> {
    seq![p.id, p.name, decimal(p.age), p.gender, p.disease, flattened(p.medications)]
}

/// A byte that forces a field into quotes: comma, double quote, carriage
/// return or line feed.
pub open spec fn is_special(b: u8) -> bool {
    b == 0x2c || b == 0x22 || b == 0x0d || b == 0x0a
}

/// Whether a field has to be quoted.
pub open spec fn needs_quotes(field: Seq<u8>) -> bool {
    exists|i: int| 0 <= i < field.len() && is_special(#[trigger] field[i])
}

/// The field with every double quote written twice.
pub open spec fn doubled_quotes(field: Seq<u8>) -> Seq<u8>
    decreases field.len(),
{
    if field.len() == 0 {
        Seq::empty()
    } else if field.last() == 0x22 {
        doubled_quotes(field.drop_last()) + seq![0x22u8, 0x22u8]
    } else {
        doubled_quotes(field.drop_last()).push(field.last())
    }
}

/// One field as it stands in a record: unchanged where no quoting is needed,
/// else between double quotes with the inner quotes doubled.
pub open spec fn csv_field(field: Seq<u8>) -> Seq<u8> {
    if needs_quotes(field) {
        seq![0x22u8] + doubled_quotes(field) + seq![0x22u8]
    } else {
        field
    }
}

/// The fields of a record, joined by commas.
pub open spec fn csv_fields(fields: Seq<Seq<u8>>) -> Seq<u8>
    decreases fields.len(),
{
    if fields.len() == 0 {
        Seq::empty()
    } else if fields.len() == 1 {
        csv_field(fields[0])
    } else {
        csv_fields(fields.drop_last()) + seq![0x2cu8] + csv_field(fields.last())
    }
}

/// One record: the joined fields and a line feed. A record that would
/// otherwise be an empty line is written as a pair of double quotes.
pub open spec fn csv_record(fields: Seq<Seq<u8>>) -> Seq<u8> {
    let body = csv_fields(fields);
    if body.len() == 0 {
        seq![0x22u8, 0x22u8, 0x0au8]
    } else {
        body.push(0x0au8)
    }
}

/// The UTF-8 bytes of each field.
pub open spec fn utf8_fields(fields: Seq<Seq<char>>) -> Seq<Seq<u8>> {
    fields.map_values(|f: Seq<char>| encode_utf8(f))
}

/// The records of the patients, in order.
pub open spec fn csv_rows(patients: Seq<PatientView>) -> Seq<u8>
    decreases patients.len(),
{
    if patients.len() == 0 {
        Seq::empty()
    } else {
        csv_rows(patients.drop_last()) + csv_record(utf8_fields(patient_fields(patients.last())))
    }
}

/// The whole export: the header record, then the patients' records.
pub open spec fn csv_document(patients: Seq<PatientView>) -> Seq<u8> {
    csv_record(utf8_fields(header_fields())) + csv_rows(patients)
}

/// A `csv::Writer` over a byte vector, in the crate's default configuration.
#[verifier::external_body]
pub struct CsvSink {
    writer: csv::Writer<Vec<u8>>,
}

/// Every byte that the writer has produced so far, whether still in its
/// buffer or already handed to the vector underneath.
pub uninterp spec fn csv_written(sink: CsvSink) -> Seq<u8>;

/// The number of fields of the first record written, to which the writer
/// holds every later record; `None` before the first record.
pub uninterp spec fn csv_width(sink: CsvSink) -> Option<nat>;

/// `csv::Writer::from_writer` on an empty vector: nothing is written yet and
/// no field count is fixed.
#[verifier::external_body]
fn open_sink() -> (sink: CsvSink)
    ensures
        csv_written(sink) == Seq::<u8>::empty(),
        csv_width(sink) is None,
{
    CsvSink { writer: csv::Writer::from_writer(Vec::new()) }
}

/// `csv::Writer::write_record`. With the default configuration the writer
/// appends the fields' bytes, quoted where `csv_field` says, with commas
/// between them and a line feed after them. It refuses a record whose field
/// count differs from the first record's, so that case is excluded; writing
/// into a vector cannot fail otherwise.
#[verifier::external_body]
fn write_record(sink: &mut CsvSink, fields: &Vec<String>)
    requires
        csv_width(*old(sink)) matches Some(n) ==> n == fields@.len(),
    ensures
        csv_written(*final(sink)) == csv_written(*old(sink)) + csv_record(
            utf8_fields(fields.deep_view()),
        ),
        csv_width(*final(sink)) == Some(fields@.len()),
{
    let _ = sink.writer.write_record(fields);
}

/// `csv::Writer::into_inner`: flushes the buffer and gives back the vector,
/// which then holds everything written. Flushing into a vector cannot fail.
#[verifier::external_body]
fn close_sink(sink: CsvSink) -> (bytes: Vec<u8>)
    ensures
        bytes@ == csv_written(sink),
{
    sink.writer.into_inner().unwrap_or_default()
}

/// Renders one medication as `name (schedule)`.
fn entry_text(m: &Medication) -> (r: String)
    ensures
        r@ == medication_entry(m@),
{
    let mut r = m.name.clone();
    r.append(" (");
    r.append(m.schedule.as_str());
    r.append(")");
    r
}

/// Flattens a medication list into one field: `name (schedule)` for each
/// medication, joined by `"; "`; empty for no medications.
pub fn flatten_medications(medications: &Vec<Medication>) -> (r: String)
    ensures
        r@ == flattened(medications.deep_view()),
{
    let mut r = String::new();
    let mut i: usize = 0;
    while i < medications.len()
        invariant
            i <= medications.len(),
            r@ == flattened(medications.deep_view().take(i as int)),
        decreases medications.len() - i,
    {
        let ghost before = medications.deep_view().take(i as int);
        let ghost after = medications.deep_view().take(i + 1);
        assert(after.drop_last() =~= before);
        if i > 0 {
            r.append("; ");
        }
        let entry = entry_text(&medications[i]);
        r.append(entry.as_str());
        i += 1;
    }
    assert(medications.deep_view().take(i as int) =~= medications.deep_view());
    r
}

/// The header record.
pub fn header_record() -> (fields: Vec<String>)
    ensures
        fields.deep_view() == header_fields(),
{
    let mut fields: Vec<String> = Vec::new();
    fields.push(String::from_str("Patient ID"));
    fields.push(String::from_str("Name"));
    fields.push(String::from_str("Age"));
    fields.push(String::from_str("Gender"));
    fields.push(String::from_str("Disease"));
    fields.push(String::from_str("Medications"));
    fields
}

/// The record of one patient.
pub fn patient_record(patient: &Patient) -> (fields: Vec<String>)
    ensures
        fields.deep_view() == patient_fields(patient@),
{
    let mut fields: Vec<String> = Vec::new();
    fields.push(patient.id.clone());
    fields.push(patient.name.clone());
    fields.push(decimal_string(patient.age));
    fields.push(patient.gender.clone());
    fields.push(patient.disease.clone());
    fields.push(flatten_medications(&patient.medications));
    fields
}

/// Renders the collection as CSV: the header record, then one record per
/// patient in collection order.
pub fn export_to_csv(patients: &Vec<Patient>) -> (bytes: Vec<u8>)
    ensures
        bytes@ == csv_document(patients.deep_view()),
{
    let mut sink = open_sink();
    let header = header_record();
    write_record(&mut sink, &header);
    let mut i: usize = 0;
    while i < patients.len()
        invariant
            i <= patients.len(),
            csv_width(sink) == Some(6nat),
            csv_written(sink) == csv_record(utf8_fields(header_fields())) + csv_rows(
                patients.deep_view().take(i as int),
            ),
        decreases patients.len() - i,
    {
        let ghost before = patients.deep_view().take(i as int);
        let ghost after = patients.deep_view().take(i + 1);
        assert(after.drop_last() =~= before);
        let fields = patient_record(&patients[i]);
        assert(fields@.len() == fields.deep_view().len());
        write_record(&mut sink, &fields);
        i += 1;
    }
    assert(patients.deep_view().take(i as int) =~= patients.deep_view());
    close_sink(sink)
}

/// A character that forces a field into quotes.
pub open spec fn is_special_char(c: char) -> bool {
    c == ',' || c == '"' || c == '\r' || c == '\n'
}

/// A text that is written as it is: it holds no comma, double quote,
/// carriage return or line feed.
pub open spec fn is_plain(text: Seq<char>) -> bool {
    forall|i: int| 0 <= i < text.len() ==> !is_special_char(#[trigger] text[i])
}

/// The fields as text, joined by commas.
pub open spec fn joined(fields: Seq<Seq<char>>) -> Seq<char>
    decreases fields.len(),
{
    if fields.len() == 0 {
        Seq::empty()
    } else if fields.len() == 1 {
        fields[0]
    } else {
        joined(fields.drop_last()).push(',') + fields.last()
    }
}

/// The bytes of one character: a single byte equal to the character's code
/// below 128, and bytes of 128 and above otherwise.
proof fn lemma_scalar_bytes(c: char)
    ensures
        encode_scalar(c as u32).len() > 0,
        forall|k: int|
            0 <= k < encode_scalar(c as u32).len() ==> (is_special(
                #[trigger] encode_scalar(c as u32)[k],
            ) ==> is_special_char(c)),
        c == ',' ==> encode_scalar(c as u32) == seq![0x2cu8],
        c == '\n' ==> encode_scalar(c as u32) == seq![0x0au8],
{
    let v = c as u32;
    char_is_scalar(c);
    if has_width_1_encoding(v) {
        assert((v & 0x7F) as u8 == v) by (bit_vector)
            requires
                v <= 0x7F,
        ;
    } else {
        let lead2 = 0xC0u8 | ((v >> 6) & 0x1F) as u8;
        let lead3 = 0xE0u8 | ((v >> 12) & 0x0F) as u8;
        let lead4 = 0xF0u8 | ((v >> 18) & 0x7) as u8;
        let last = 0x80u8 | (v & 0x3F) as u8;
        let second_last = 0x80u8 | ((v >> 6) & 0x3F) as u8;
        let third_last = 0x80u8 | ((v >> 12) & 0x3F) as u8;
        assert(lead2 >= 0x80 && lead3 >= 0x80 && lead4 >= 0x80) by (bit_vector)
            requires
                lead2 == 0xC0u8 | ((v >> 6) & 0x1F) as u8,
                lead3 == 0xE0u8 | ((v >> 12) & 0x0F) as u8,
                lead4 == 0xF0u8 | ((v >> 18) & 0x7) as u8,
        ;
        assert(last >= 0x80 && second_last >= 0x80 && third_last >= 0x80) by (bit_vector)
            requires
                last == 0x80u8 | (v & 0x3F) as u8,
                second_last == 0x80u8 | ((v >> 6) & 0x3F) as u8,
                third_last == 0x80u8 | ((v >> 12) & 0x3F) as u8,
        ;
    }
}

/// The bytes of a text of one character are the bytes of that character.
proof fn lemma_bytes_of_one(c: char)
    ensures
        encode_utf8(seq![c]) == encode_scalar(c as u32),
{
    assert(encode_utf8(seq![c]) =~= encode_scalar(c as u32) + encode_utf8(seq![c].drop_first()));
}

/// The bytes of a plain text hold no byte that forces quotes.
proof fn lemma_plain_bytes(text: Seq<char>)
    requires
        is_plain(text),
    ensures
        !needs_quotes(encode_utf8(text)),
        text.len() > 0 ==> encode_utf8(text).len() > 0,
    decreases text.len(),
{
    if text.len() > 0 {
        lemma_scalar_bytes(text[0]);
        lemma_plain_bytes(text.drop_first());
        let head = encode_scalar(text[0] as u32);
        let tail = encode_utf8(text.drop_first());
        assert forall|i: int| 0 <= i < (head + tail).len() implies !is_special(
            #[trigger] (head + tail)[i],
        ) by {}
    }
}

/// The bytes of two texts one after the other are the bytes of the first,
/// then those of the second.
proof fn lemma_bytes_of_concat(a: Seq<char>, b: Seq<char>)
    ensures
        encode_utf8(a + b) == encode_utf8(a) + encode_utf8(b),
    decreases a.len(),
{
    if a.len() > 0 {
        assert((a + b).drop_first() =~= a.drop_first() + b);
        lemma_bytes_of_concat(a.drop_first(), b);
    }
}

/// Plain fields are joined as they are.
proof fn lemma_plain_fields(fields: Seq<Seq<char>>)
    requires
        forall|i: int| 0 <= i < fields.len() ==> is_plain(#[trigger] fields[i]),
    ensures
        csv_fields(utf8_fields(fields)) == encode_utf8(joined(fields)),
    decreases fields.len(),
{
    if fields.len() > 0 {
        lemma_plain_bytes(fields.last());
    }
    if fields.len() > 1 {
        let front = joined(fields.drop_last());
        lemma_plain_fields(fields.drop_last());
        assert(utf8_fields(fields).drop_last() =~= utf8_fields(fields.drop_last()));
        lemma_scalar_bytes(',');
        lemma_bytes_of_one(',');
        assert(front.push(',') =~= front + seq![',']);
        lemma_bytes_of_concat(front, seq![',']);
        lemma_bytes_of_concat(front.push(','), fields.last());
    }
}

/// A record of plain fields is one line of text: the fields with commas
/// between them and a line feed at the end, none of them quoted.
pub proof fn lemma_plain_record(fields: Seq<Seq<char>>)
    requires
        forall|i: int| 0 <= i < fields.len() ==> is_plain(#[trigger] fields[i]),
        joined(fields).len() > 0,
    ensures
        csv_record(utf8_fields(fields)) == encode_utf8(joined(fields).push('\n')),
{
    let line = joined(fields);
    lemma_plain_fields(fields);
    lemma_scalar_bytes(line[0]);
    lemma_scalar_bytes('\n');
    lemma_bytes_of_one('\n');
    assert(line.push('\n') =~= line + seq!['\n']);
    lemma_bytes_of_concat(line, seq!['\n']);
}

/// The header record is the line
/// `Patient ID,Name,Age,Gender,Disease,Medications`.
pub proof fn lemma_header_line()
    ensures
        csv_record(utf8_fields(header_fields())) == encode_utf8(
            "Patient ID,Name,Age,Gender,Disease,Medications\n"@,
        ),
{
    reveal_strlit("Patient ID");
    reveal_strlit("Name");
    reveal_strlit("Age");
    reveal_strlit("Gender");
    reveal_strlit("Disease");
    reveal_strlit("Medications");
    reveal_strlit("Patient ID,Name,Age,Gender,Disease,Medications\n");
    let fields = header_fields();
    let line = "Patient ID,Name,Age,Gender,Disease,Medications\n"@;
    reveal_with_fuel(joined, 6);
    assert(joined(fields).push('\n') =~= line);
    lemma_plain_record(fields);
}

} // verus!
