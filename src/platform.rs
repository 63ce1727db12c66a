use vstd::prelude::*;

verus! {

/// The characters with the Unicode `White_Space` property, which is what
/// `char::is_whitespace` tests.
pub open spec fn is_white_space(c: char) -> bool {
    let u = c as u32;
    (0x9 <= u <= 0xd) || u == 0x20 || u == 0x85 || u == 0xa0 || u == 0x1680 || (0x2000 <= u
        <= 0x200a) || u == 0x2028 || u == 0x2029 || u == 0x202f || u == 0x205f || u == 0x3000
}

/// Every character of `s` is whitespace; true of the empty string.
pub open spec fn is_blank(s: Seq<char>) -> bool {
    forall|i: int| 0 <= i < s.len() ==> is_white_space(#[trigger] s[i])
}

/// What `str::trim` leaves of a string: it depends on the characters alone.
pub uninterp spec fn trim_of(s: Seq<char>) -> Seq<char>;

/// Relies on `str::trim`: the string without leading and trailing
/// whitespace. Nothing is left exactly when every character is whitespace.
#[verifier::external_body]
pub(crate) fn trim_text(s: &str) -> (r: &str)
    ensures
        r@ == trim_of(s@),
        r@.len() == 0 <==> is_blank(s@),
{
    s.trim()
}

/// Relies on `SystemTime::now` and `SystemTime::duration_since(UNIX_EPOCH)`:
/// the time elapsed since the Unix epoch, or `None` when the system clock
/// reads before it. Nothing is stated of the value.
#[verifier::external_body]
pub(crate) fn clock_since_epoch() -> (r: Option<std::time::Duration>) {
    std::time::SystemTime::now().duration_since(std::time::UNIX_EPOCH).ok()
}

/// Relies on `Duration::as_secs`: the whole seconds of a duration.
#[verifier::external_body]
pub(crate) fn duration_secs(d: &std::time::Duration) -> (r: u64) {
    d.as_secs()
}

/// Relies on `Duration::subsec_nanos`: the fractional part in nanoseconds,
/// always below one billion.
#[verifier::external_body]
pub(crate) fn duration_subsec_nanos(d: &std::time::Duration) -> (r: u32)
    ensures
        r < 1_000_000_000,
{
    d.subsec_nanos()
}

/// What `chrono::DateTime::from_timestamp` followed by `to_rfc3339` gives
/// for a Unix time: the RFC 3339 text, or `None` out of chrono's range.
pub uninterp spec fn rfc3339_of(secs: i64, nanos: u32) -> Option<Seq<char>>;

/// Relies on `chrono::DateTime::from_timestamp`, which returns `None` out of
/// range, and `DateTime::to_rfc3339`, which cannot fail: the RFC 3339 text
/// of a Unix time in UTC.
#[verifier::external_body]
pub(crate) fn rfc3339_from_timestamp(secs: i64, nanos: u32) -> (r: Option<String>)
    ensures
        match r {
            Some(s) => rfc3339_of(secs, nanos) == Some(s@),
            None => rfc3339_of(secs, nanos) is None,
        },
{
    let t = chrono::DateTime::from_timestamp(secs, nanos)?;
    Some(t.to_rfc3339())
}

/// One reading of the clock: whole seconds since the Unix epoch and the
/// same instant as RFC 3339 text.
pub struct Timestamp {
    pub secs: i64,
    pub text: String,
}

/// The message a command answers with when the clock cannot be read.
pub open spec fn clock_error_message() -> Seq<char> {
    "无法读取系统时间"@
}

/// Reads the clock. `None` when the system clock reads before the Unix
/// epoch or beyond the range that chrono can represent.
pub fn read_clock() -> (r: Option<Timestamp>)
    ensures
        r matches Some(t) ==> t.secs >= 0 && exists|nanos: u32| rfc3339_of(t.secs, nanos)
            == Some(t.text@),
{
    match clock_since_epoch() {
        None => None,
        Some(d) => {
            let secs = duration_secs(&d);
            let nanos = duration_subsec_nanos(&d);
            if secs > i64::MAX as u64 {
                None
            } else {
                match rfc3339_from_timestamp(secs as i64, nanos) {
                    Some(text) => Some(Timestamp { secs: secs as i64, text }),
                    None => None,
                }
            }
        },
    }
}

} // verus!
