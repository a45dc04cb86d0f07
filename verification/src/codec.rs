//! The row representation of one record: field order, time formatting, and
//! the CSV encoding of a full row.

use vstd::prelude::*;
use crate::digits::{dec_rep, u64_to_string};
use crate::record::{LogPacket, TimeVal};

verus! {

/// A time value as written into a row: `<whole seconds>.<nanoseconds>`.
pub open spec fn time_rep(t: TimeVal) -> Seq<char> {
    dec_rep(t.secs as nat) + seq!['.'] + dec_rep(t.nanos as nat)
}

/// A status as written into a row: its decimal code, or the empty field
/// when no status was determined.
pub open spec fn status_rep(status: Option<u16>) -> Seq<char> {
    match status {
        Some(code) => dec_rep(code as nat),
        None => Seq::<char>::empty(),
    }
}

/// The five fields of a row, in their fixed order:
/// url, client address, status, start time, duration.
pub open spec fn fields_of(p: LogPacket) -> Seq<Seq<char>> {
    seq![p.url@, p.ip@, status_rep(p.status), time_rep(p.start), time_rep(p.timing)]
}

/// The characters of a sequence of field strings.
pub open spec fn field_views(fields: Seq<String>) -> Seq<Seq<char>> {
    fields.map_values(|s: String| s@)
}

/// The bytes of one CSV row holding the given fields, as the CSV library
/// writes it with its default configuration. A function of the fields alone.
pub uninterp spec fn csv_row_of(fields: Seq<Seq<char>>) -> Seq<u8>;

/// The encoded row of one record.
pub open spec fn row_of(p: LogPacket) -> Seq<u8> {
    csv_row_of(fields_of(p))
}

/// Renders a time value as `<seconds>.<nanoseconds>`.
pub fn encode_duration(t: &TimeVal) -> (s: String)
    ensures
        s@ == time_rep(*t),
{
    let mut s = u64_to_string(t.secs);
    proof {
        reveal_strlit(".");
    }
    s.append(".");
    let nanos = u64_to_string(t.nanos as u64);
    s.append(nanos.as_str());
    proof {
        assert(s@ =~= time_rep(*t));
    }
    s
}

/// Builds the five field strings of a record, in row order.
pub fn encode_fields(p: &LogPacket) -> (fields: Vec<String>)
    ensures
        field_views(fields@) == fields_of(*p),
{
    let mut fields: Vec<String> = Vec::new();
    fields.push(p.url.clone());
    fields.push(p.ip.clone());
    let status_field = match p.status {
        Some(code) => u64_to_string(code as u64),
        None => String::new(),
    };
    fields.push(status_field);
    fields.push(encode_duration(&p.start));
    fields.push(encode_duration(&p.timing));
    proof {
        assert(field_views(fields@) =~= fields_of(*p));
    }
    fields
}

/// Relies on csv::Writer (in-memory, default configuration): writing one
/// record produces the row's bytes, a function of the fields alone; writing
/// to an in-memory buffer does not fail.
#[verifier::external_body]
fn csv_encode_row(fields: &Vec<String>) -> (row: Vec<u8>)
    ensures
        row@ == csv_row_of(field_views(fields@)),
{
    let mut writer = csv::Writer::from_writer(Vec::new());
    let _ = writer.write_record(fields.iter());
    writer.into_inner().unwrap_or_default()
}

impl LogPacket {
    /// Serializes this record as one CSV row.
    pub fn encode(&self) -> (row: Vec<u8>)
        ensures
            row@ == row_of(*self),
    {
        let fields = encode_fields(self);
        csv_encode_row(&fields)
    }
}

/// Encoding is deterministic: any two encodings of the same record are
/// byte-identical.
pub proof fn lemma_encode_deterministic(a: Seq<u8>, b: Seq<u8>, p: LogPacket)
    requires
        a == row_of(p),
        b == row_of(p),
    ensures
        a == b,
{
}

/// The duration field of a row depends on the measured monotonic span
/// alone: records that agree on `timing` get the same duration field,
/// whatever their wall-clock fields hold.
pub proof fn lemma_duration_field_wall_independent(p: LogPacket, q: LogPacket)
    requires
        p.timing == q.timing,
    ensures
        fields_of(p)[4] == fields_of(q)[4],
{
}

} // verus!
