//! Rendering of record batches as text: a pure, stateless transformation.
//!
//! Each record becomes one line.  Without verbose mode the line is the
//! payload alone — a decimal byte array, lowercase hex, or the payload
//! decoded as UTF-8, by the chosen format.  With verbose mode the line is
//! a JSON object carrying the payload together with the partition key, the
//! sequence number, and the optional fields, which are omitted when absent.
//! Records with no payload are skipped without verbose mode, as is — in
//! the UTF-8 format — a payload that is not valid UTF-8: dropped, not
//! substituted.  Lines are joined with a newline; an empty rendering is
//! the empty string.

use vstd::prelude::*;

use crate::config::DataFormat;
use crate::records::Record;
use crate::text::decimal_of;
use crate::text::decimal_parts;
use crate::text::dec_digit;
use crate::text::hex_parts;
use crate::text::join_with;
use crate::text::json_string_of;
use crate::text::lemma_join_with_snoc;
use crate::text::lemma_utf8_view;
use crate::text::bytes_as_utf8;
use crate::text::push_char;
use crate::text::push_decimal;
use crate::text::push_hex_bytes;
use crate::text::push_joined_decimals;
use crate::text::push_json_string;
use crate::text::spec_dec_digit;
use vstd::string::StringExecFns;
use vstd::utf8::decode_utf8;
use vstd::utf8::valid_utf8;

verus! {

/// A payload as a decimal byte array, spaced as std's debug formatting
/// spaces a byte slice.
pub open spec fn debug_bytes(d: Seq<u8>) -> Seq<char> {
    "["@ + join_with(decimal_parts(d), ", "@) + "]"@
}

/// A payload as lowercase hex, two digits a byte, nothing between.
pub open spec fn hex_bytes(d: Seq<u8>) -> Seq<char> {
    join_with(hex_parts(d), Seq::empty())
}

/// A payload as a JSON array of decimal bytes.
pub open spec fn json_bytes_array(d: Seq<u8>) -> Seq<char> {
    "["@ + join_with(decimal_parts(d), ","@) + "]"@
}

/// An arrival time in epoch milliseconds as seconds with three decimal
/// places.
pub open spec fn millis_chars(ms: u64) -> Seq<char> {
    decimal_of((ms / 1000) as nat) + seq![
        '.',
        spec_dec_digit(((ms % 1000) / 100) as u8),
        spec_dec_digit((((ms % 1000) / 10) % 10) as u8),
        spec_dec_digit(((ms % 1000) % 10) as u8),
    ]
}

/// An optional string field as JSON: the string, or `null`.
pub open spec fn opt_json_string(o: Option<String>) -> Seq<char> {
    match o {
        Some(s) => json_string_of(s@),
        None => "null"@,
    }
}

/// The JSON value a payload renders to in verbose mode: `null` when there
/// is none, else the chosen format's rendering.  For the UTF-8 format this
/// is only meaningful when the payload is valid UTF-8; an invalid one
/// drops the whole line instead (see `spec_line_of`).
pub open spec fn spec_verbose_data(data: Option<Vec<u8>>, format: DataFormat) -> Seq<char> {
    match data {
        None => "null"@,
        Some(d) => match format {
            DataFormat::RawBytes => json_bytes_array(d@),
            DataFormat::RawString => json_string_of(hex_bytes(d@)),
            DataFormat::Utf8String => json_string_of(decode_utf8(d@)),
        },
    }
}

/// One record's verbose line: a JSON object with the arrival time and the
/// encryption marker only when present, and the payload, partition key and
/// sequence number always, in that order.
pub open spec fn spec_verbose_line(r: Record, format: DataFormat) -> Seq<char> {
    "{"@ + (match r.approximate_arrival_timestamp {
        Some(ms) => "\"ApproximateArrivalTimestamp\":"@ + millis_chars(ms) + ","@,
        None => Seq::<char>::empty(),
    }) + "\"Data\":"@ + spec_verbose_data(r.data, format) + (match r.encryption_type {
        Some(e) => ",\"EncryptionType\":"@ + json_string_of(e@),
        None => Seq::<char>::empty(),
    }) + ",\"PartitionKey\":"@ + opt_json_string(r.partition_key) + ",\"SequenceNumber\":"@
        + opt_json_string(r.sequence_number) + "}"@
}

/// The line one record renders to, if any: skipped are a payload-less
/// record outside verbose mode, and — in the UTF-8 format, either mode — a
/// payload that is not valid UTF-8.
pub open spec fn spec_line_of(r: Record, verbose: bool, format: DataFormat) -> Option<Seq<char>> {
    if format is Utf8String && (r.data matches Some(d) && !valid_utf8(d@)) {
        None
    } else if verbose {
        Some(spec_verbose_line(r, format))
    } else {
        match r.data {
            None => None,
            Some(d) => match format {
                DataFormat::RawBytes => Some(debug_bytes(d@)),
                DataFormat::RawString => Some(hex_bytes(d@)),
                DataFormat::Utf8String => Some(decode_utf8(d@)),
            },
        }
    }
}

/// The lines of a batch's records, in record order, skipped ones left out.
pub open spec fn spec_lines(records: Seq<Record>, verbose: bool, format: DataFormat) -> Seq<
    Seq<char>,
>
    decreases records.len(),
{
    if records.len() == 0 {
        Seq::empty()
    } else {
        let rest = spec_lines(records.drop_first(), verbose, format);
        match spec_line_of(records[0], verbose, format) {
            Some(l) => seq![l] + rest,
            None => rest,
        }
    }
}

/// The whole rendering: the lines joined with a newline.
pub open spec fn spec_rendered(records: Seq<Record>, verbose: bool, format: DataFormat) -> Seq<
    char,
> {
    join_with(spec_lines(records, verbose, format), "\n"@)
}

/// One more record appends its line, if it has one.
pub proof fn lemma_spec_lines_snoc(records: Seq<Record>, r: Record, verbose: bool, format: DataFormat)
    ensures
        spec_lines(records.push(r), verbose, format) == match spec_line_of(r, verbose, format) {
            Some(l) => spec_lines(records, verbose, format).push(l),
            None => spec_lines(records, verbose, format),
        },
    decreases records.len(),
{
    let whole = records.push(r);
    if records.len() == 0 {
        assert(whole.drop_first() =~= Seq::<Record>::empty());
        assert(whole[0] == r);
        assert(spec_lines(whole.drop_first(), verbose, format) == Seq::<Seq<char>>::empty());
        match spec_line_of(r, verbose, format) {
            Some(l) => {
                assert(spec_lines(whole, verbose, format) =~= spec_lines(
                    records,
                    verbose,
                    format,
                ).push(l));
            },
            None => {
                assert(spec_lines(whole, verbose, format) =~= spec_lines(records, verbose, format));
            },
        }
    } else {
        assert(whole.drop_first() =~= records.drop_first().push(r));
        lemma_spec_lines_snoc(records.drop_first(), r, verbose, format);
        assert(whole[0] == records[0]);
        match spec_line_of(r, verbose, format) {
            Some(l) => {
                assert(spec_lines(whole, verbose, format) =~= spec_lines(
                    records,
                    verbose,
                    format,
                ).push(l));
            },
            None => {
                assert(spec_lines(whole, verbose, format) =~= spec_lines(records, verbose, format));
            },
        }
    }
}

/// Appends an arrival time as seconds with three decimal places.
fn push_millis(out: &mut String, ms: u64)
    ensures
        final(out)@ == old(out)@ + millis_chars(ms),
{
    push_decimal(out, ms / 1000);
    push_char(out, '.');
    let frac = ms % 1000;
    push_char(out, dec_digit((frac / 100) as u8));
    push_char(out, dec_digit(((frac / 10) % 10) as u8));
    push_char(out, dec_digit((frac % 10) as u8));
    proof {
        assert(out@ =~= old(out)@ + millis_chars(ms));
    }
}

/// Appends an optional string field as JSON: the string, or `null`.
fn push_opt_json_string(out: &mut String, o: &Option<String>)
    ensures
        final(out)@ == old(out)@ + opt_json_string(*o),
{
    match o {
        Some(s) => push_json_string(out, s.as_str()),
        None => out.append("null"),
    }
}

/// Renders one record's payload-only line, when it has one.
fn render_data_line(r: &Record, format: DataFormat) -> (o: Option<String>)
    ensures
        (o is Some) == (spec_line_of(*r, false, format) is Some),
        o matches Some(s) ==> Some(s@) == spec_line_of(*r, false, format),
{
    match &r.data {
        None => None,
        Some(d) => match format {
            DataFormat::RawBytes => {
                let mut out = String::new();
                out.append("[");
                push_joined_decimals(&mut out, d.as_slice(), ", ");
                out.append("]");
                proof {
                    assert(out@ =~= debug_bytes(d@));
                }
                Some(out)
            },
            DataFormat::RawString => {
                let mut out = String::new();
                push_hex_bytes(&mut out, d.as_slice());
                proof {
                    assert(out@ =~= hex_bytes(d@));
                }
                Some(out)
            },
            DataFormat::Utf8String => match bytes_as_utf8(d.as_slice()) {
                Some(s) => {
                    proof {
                        lemma_utf8_view(s, d@);
                    }
                    Some(String::from_str(s))
                },
                None => None,
            },
        },
    }
}

/// Renders one record's verbose JSON line, unless the UTF-8 format meets a
/// payload that is not valid UTF-8, which drops the line.
#[verifier::rlimit(50)]
fn render_verbose_line(r: &Record, format: DataFormat) -> (o: Option<String>)
    ensures
        (o is Some) == (spec_line_of(*r, true, format) is Some),
        o matches Some(s) ==> Some(s@) == spec_line_of(*r, true, format),
{
    let ghost head = "{"@ + (match r.approximate_arrival_timestamp {
        Some(ms) => "\"ApproximateArrivalTimestamp\":"@ + millis_chars(ms) + ","@,
        None => Seq::<char>::empty(),
    });
    let ghost with_data = head + "\"Data\":"@ + spec_verbose_data(r.data, format);
    let mut out = String::new();
    out.append("{");
    match &r.approximate_arrival_timestamp {
        Some(ms) => {
            out.append("\"ApproximateArrivalTimestamp\":");
            push_millis(&mut out, *ms);
            out.append(",");
        },
        None => {},
    }
    proof {
        assert(out@ =~= head);
    }
    out.append("\"Data\":");
    match &r.data {
        None => {
            out.append("null");
        },
        Some(d) => match format {
            DataFormat::RawBytes => {
                out.append("[");
                push_joined_decimals(&mut out, d.as_slice(), ",");
                out.append("]");
            },
            DataFormat::RawString => {
                let mut hex = String::new();
                push_hex_bytes(&mut hex, d.as_slice());
                proof {
                    assert(hex@ =~= hex_bytes(d@));
                }
                push_json_string(&mut out, hex.as_str());
            },
            DataFormat::Utf8String => match bytes_as_utf8(d.as_slice()) {
                Some(s) => {
                    proof {
                        lemma_utf8_view(s, d@);
                    }
                    push_json_string(&mut out, s);
                },
                None => {
                    return None;
                },
            },
        },
    }
    proof {
        assert(out@ =~= with_data);
    }
    match &r.encryption_type {
        Some(e) => {
            out.append(",\"EncryptionType\":");
            push_json_string(&mut out, e.as_str());
        },
        None => {},
    }
    proof {
        assert(out@ =~= with_data + (match r.encryption_type {
            Some(e) => ",\"EncryptionType\":"@ + json_string_of(e@),
            None => Seq::<char>::empty(),
        }));
    }
    out.append(",\"PartitionKey\":");
    push_opt_json_string(&mut out, &r.partition_key);
    out.append(",\"SequenceNumber\":");
    push_opt_json_string(&mut out, &r.sequence_number);
    out.append("}");
    proof {
        assert(out@ =~= spec_verbose_line(*r, format));
    }
    Some(out)
}

/// Renders one record's line, if the record has one in the given mode.
pub fn render_line(r: &Record, verbose: bool, format: DataFormat) -> (o: Option<String>)
    ensures
        (o is Some) == (spec_line_of(*r, verbose, format) is Some),
        o matches Some(s) ==> Some(s@) == spec_line_of(*r, verbose, format),
{
    if verbose {
        render_verbose_line(r, format)
    } else {
        render_data_line(r, format)
    }
}

/// Renders a batch of records: one line per rendered record, joined with a
/// newline, skipped records leaving no trace.
pub fn records_to_string(records: &[Record], verbose: bool, format: DataFormat) -> (r: String)
    ensures
        r@ == spec_rendered(records@, verbose, format),
{
    let mut out = String::new();
    let mut any: bool = false;
    let n = records.len();
    let mut i: usize = 0;
    while i < n
        invariant
            i <= n,
            n == records@.len(),
            out@ == join_with(spec_lines(records@.take(i as int), verbose, format), "\n"@),
            any == (spec_lines(records@.take(i as int), verbose, format).len() > 0),
        decreases n - i,
    {
        let ghost done = records@.take(i as int);
        let ghost dlines = spec_lines(done, verbose, format);
        match render_line(&records[i], verbose, format) {
            Some(line) => {
                if any {
                    out.append("\n");
                }
                out.append(line.as_str());
                any = true;
                proof {
                    lemma_join_with_snoc(dlines, "\n"@, line@);
                }
            },
            None => {},
        }
        proof {
            assert(records@.take(i + 1) =~= done.push(records@[i as int]));
            lemma_spec_lines_snoc(done, records@[i as int], verbose, format);
            assert(out@ =~= join_with(spec_lines(records@.take(i + 1), verbose, format), "\n"@));
        }
        i = i + 1;
    }
    proof {
        assert(records@.take(n as int) =~= records@);
    }
    out
}

/// Renders every record's payload as a decimal byte array.
pub fn records2string_only_data_raw_byte(records: &[Record]) -> (r: String)
    ensures
        r@ == spec_rendered(records@, false, DataFormat::RawBytes),
{
    records_to_string(records, false, DataFormat::RawBytes)
}

/// Renders every record's payload as lowercase hex.
pub fn records2string_only_data_raw_string(records: &[Record]) -> (r: String)
    ensures
        r@ == spec_rendered(records@, false, DataFormat::RawString),
{
    records_to_string(records, false, DataFormat::RawString)
}

/// Renders every record's payload decoded as UTF-8, dropping records whose
/// payload is not valid UTF-8.
pub fn records2string_only_data_utf8_string(records: &[Record]) -> (r: String)
    ensures
        r@ == spec_rendered(records@, false, DataFormat::Utf8String),
{
    records_to_string(records, false, DataFormat::Utf8String)
}

/// Renders every record as a JSON object, the payload as a JSON byte array.
pub fn records2string_verbose_raw_byte(records: &[Record]) -> (r: String)
    ensures
        r@ == spec_rendered(records@, true, DataFormat::RawBytes),
{
    records_to_string(records, true, DataFormat::RawBytes)
}

/// Renders every record as a JSON object, the payload as lowercase hex.
pub fn records2string_verbose_raw_string(records: &[Record]) -> (r: String)
    ensures
        r@ == spec_rendered(records@, true, DataFormat::RawString),
{
    records_to_string(records, true, DataFormat::RawString)
}

/// Renders every record as a JSON object, the payload decoded as UTF-8.
pub fn records2string_verbose_utf8_string(records: &[Record]) -> (r: String)
    ensures
        r@ == spec_rendered(records@, true, DataFormat::Utf8String),
{
    records_to_string(records, true, DataFormat::Utf8String)
}

/// The renderer, fixed once at startup from the operator's verbosity and
/// format choice and applied to every batch thereafter.
#[derive(Debug)]
pub struct RecordsPrinter {
    pub is_verbose: bool,
    pub data_format: DataFormat,
}

impl RecordsPrinter {
    /// A printer for the chosen verbosity and payload format.
    pub fn new(is_verbose: bool, data_format: DataFormat) -> (r: Self)
        ensures
            r.is_verbose == is_verbose,
            r.data_format == data_format,
    {
        RecordsPrinter { is_verbose, data_format }
    }

    /// Renders one batch of records with the printer's fixed choice.
    pub fn print(&self, records: &[Record]) -> (r: String)
        ensures
            r@ == spec_rendered(records@, self.is_verbose, self.data_format),
    {
        records_to_string(records, self.is_verbose, self.data_format)
    }
}

} // verus!
