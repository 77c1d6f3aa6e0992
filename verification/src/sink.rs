//! The text of what the output sink writes.
//!
//! Each emitted record is the moment of writing and the formatted sample on
//! one line; an optional log file gets the same lines, under a name carrying
//! the start-up moment.  Printing and file I/O live with the drivers; this
//! module composes the text.

use vstd::prelude::*;

verus! {

/// One decimal digit.
pub open spec fn is_digit_char(c: char) -> bool {
    '0' <= c && c <= '9'
}

/// The shape of the file stamp `<year><month><day>_<hour><minute><second>_<zone>`:
/// before the first underscore stand the year (zero-padded to at least four
/// digits, signed and wider only for years outside 0 to 9999) and four
/// month-and-day digits; between the underscores stand six time digits; after
/// the second underscore stands a non-empty zone text.  `a` is the position
/// of the first underscore.
pub open spec fn is_file_stamp(s: Seq<char>) -> bool {
    exists|a: int|
        #![trigger s[a]]
        {
            &&& 8 <= a
            &&& a + 8 < s.len()
            &&& s[a] == '_'
            &&& s[a + 7] == '_'
            &&& (forall|i: int| a - 8 <= i < a ==> is_digit_char(#[trigger] s[i]))
            &&& (forall|i: int| a + 1 <= i < a + 7 ==> is_digit_char(#[trigger] s[i]))
        }
}

/// Relies on chrono's `Local::now` and its `Display` for local date-times:
/// the current local time rendered as text.  The moment itself depends on
/// the clock, so only the shape is stated: the rendering always writes the
/// date, so it is never empty.
#[verifier::external_body]
fn local_timestamp() -> (r: String)
    ensures
        r@.len() > 0,
{
    chrono::Local::now().to_string()
}

/// Relies on chrono's `Local::now` and `DateTime::format` under the layout
/// `%Y%m%d_%H%M%S_%Z`.  The moment itself depends on the clock, so only the
/// shape is stated: chrono writes the year zero-padded to at least four
/// digits (signed and wider only outside years 0 to 9999), exactly two
/// digits for each of month, day, hour, minute and second, the two literal
/// underscores, and the never-empty offset text for the zone.
#[verifier::external_body]
fn file_timestamp() -> (r: String)
    ensures
        is_file_stamp(r@),
{
    chrono::Local::now().format("%Y%m%d_%H%M%S_%Z").to_string()
}

/// One output line: the moment of writing, `", "`, and the formatted sample
/// unchanged.  The timestamp is never empty.
pub fn timestamped_line(formatted: &str) -> (r: String)
    ensures
        exists|ts: Seq<char>| ts.len() > 0 && r@ == ts + ", "@ + formatted@,
{
    let mut r = local_timestamp();
    let ghost ts = r@;
    r.append(", ");
    r.append(formatted);
    proof {
        assert(ts.len() > 0 && r@ == ts + ", "@ + formatted@);
    }
    r
}

/// The name of a fresh log file: `current_<stamp>.txt`, with the stamp taken
/// at start-up and shaped as `is_file_stamp` says.
pub fn log_file_name() -> (r: String)
    ensures
        exists|ts: Seq<char>| is_file_stamp(ts) && r@ == "current_"@ + ts + ".txt"@,
{
    let mut r = String::from_str("current_");
    let stamp = file_timestamp();
    r.append(stamp.as_str());
    r.append(".txt");
    proof {
        assert(is_file_stamp(stamp@) && r@ == "current_"@ + stamp@ + ".txt"@);
    }
    r
}

} // verus!
