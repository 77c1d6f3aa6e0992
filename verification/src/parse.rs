//! Turning one raw record into a conversion plan.
//!
//! A record is `<tag>, <ch1_code>[, <ch2_code>, <ch3_code>, <ch4_code>]`.
//! Field 0 is a label and field 1 the required first ADC code; fields 2 to 4
//! carry the further channels when four-channel mode is on.  This module
//! decides which fields a record yields for conversion — the numeric
//! conversion itself works on floating-point values and stays with the
//! drivers.

use crate::fields::{
    split_commas, split_fields, trim_ascii, trimmed, views_of, COMMA,
};
use vstd::prelude::*;

verus! {

/// Why a record was rejected.
#[derive(Clone, Copy, Debug, PartialEq, Eq, Structural)]
pub enum ParseError {
    /// The record holds no ADC-code field after the tag.
    TooFewFields,
}

/// The conversion work one record calls for.
#[derive(Debug)]
pub struct LinePlan {
    /// The ADC-code fields to convert, in channel order, each already
    /// stripped of surrounding ASCII whitespace.
    pub codes: Vec<Vec<u8>>,
    /// Four-channel mode was on but the record lacked channels 2 to 4: only
    /// the first channel is converted and a diagnostic is owed.
    pub missing_channels: bool,
}

/// The ADC-code fields a record with fields `fields` yields for conversion:
/// field 1 always, and fields 2 to 4 exactly when four-channel mode is on
/// and the record holds at least five fields.  Meaningful when
/// `fields.len() >= 2`.
pub open spec fn planned_codes(fields: Seq<Seq<u8>>, four_channel: bool) -> Seq<Seq<u8>> {
    if four_channel && fields.len() >= 5 {
        seq![trimmed(fields[1]), trimmed(fields[2]), trimmed(fields[3]), trimmed(fields[4])]
    } else {
        seq![trimmed(fields[1])]
    }
}

/// Splits one record on commas and selects the channel fields to convert.
///
/// A record with fewer than two fields is rejected.  With four-channel mode
/// on, fields 2 to 4 are taken as channels 2 to 4 when present; when absent
/// the plan still carries channel 1 alone and records that the others were
/// missing.  Each selected field is stripped of surrounding ASCII whitespace
/// only — the wire format is ASCII text.
pub fn plan_line(line: &[u8], four_channel: bool) -> (r: Result<LinePlan, ParseError>)
    ensures
        (match r {
            Ok(plan) => split_commas(line@).len() >= 2 && views_of(plan.codes@)
                == planned_codes(split_commas(line@), four_channel) && plan.missing_channels == (
            four_channel && split_commas(line@).len() < 5),
            Err(e) => split_commas(line@).len() < 2 && e == ParseError::TooFewFields,
        }),
{
    let fields = split_fields(line);
    if fields.len() < 2 {
        return Err(ParseError::TooFewFields);
    }
    proof {
        assert(views_of(fields@)[1] == fields@[1]@);
    }
    let mut codes: Vec<Vec<u8>> = Vec::new();
    codes.push(trim_ascii(fields[1].as_slice()));
    let missing_channels = four_channel && fields.len() < 5;
    if four_channel && fields.len() >= 5 {
        proof {
            assert(views_of(fields@)[2] == fields@[2]@);
            assert(views_of(fields@)[3] == fields@[3]@);
            assert(views_of(fields@)[4] == fields@[4]@);
        }
        codes.push(trim_ascii(fields[2].as_slice()));
        codes.push(trim_ascii(fields[3].as_slice()));
        codes.push(trim_ascii(fields[4].as_slice()));
    }
    proof {
        assert(views_of(codes@) =~= planned_codes(split_commas(line@), four_channel));
    }
    Ok(LinePlan { codes, missing_channels })
}

/// One converted value per enabled channel, in field order: a record whose
/// shape matches the channel mode yields exactly `n` codes, where `n` is 4
/// in four-channel mode and 1 otherwise, and code `i` is channel field
/// `i + 1` of the record, whitespace stripped.
pub proof fn lemma_channels_in_field_order(fields: Seq<Seq<u8>>, four_channel: bool, n: int)
    requires
        fields.len() >= 2,
        n == (if four_channel { 4int } else { 1int }),
        four_channel ==> fields.len() >= 5,
    ensures
        planned_codes(fields, four_channel).len() == n,
        forall|i: int| 0 <= i < n ==> planned_codes(fields, four_channel)[i] == trimmed(
            fields[i + 1],
        ),
{
}

/// Four-channel mode on a record that lacks channels 2 to 4 still yields the
/// first channel alone — a partial result, not a failure.
pub proof fn lemma_short_four_channel_record(fields: Seq<Seq<u8>>)
    requires
        2 <= fields.len() < 5,
    ensures
        planned_codes(fields, true).len() == 1,
        planned_codes(fields, true)[0] == trimmed(fields[1]),
{
}

/// A record is rejected exactly when it holds no comma at all: a comma is
/// what separates the tag from the first ADC code.
pub proof fn lemma_rejected_iff_no_comma(line: Seq<u8>)
    ensures
        (split_commas(line).len() < 2) <==> (forall|k: int|
            0 <= k < line.len() ==> line[k] != COMMA),
{
    crate::fields::lemma_split_commas_len(line);
    crate::fields::lemma_single_field(line);
}

} // verus!
