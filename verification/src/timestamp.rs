//! Instants at millisecond precision and their text in the backing store.
//!
//! Every temporal column is written and read as text of one fixed layout:
//! year, month and day separated by hyphens, a space, then hours, minutes
//! and seconds separated by colons, a dot and three digits of milliseconds.
//! The text is read as UTC.

use vstd::prelude::*;

verus! {

/// The first instant a temporal column holds: the start of year 1.
pub const MIN_MILLIS: i64 = -62_135_596_800_000;

/// The last instant a temporal column holds: the last millisecond of year 9999.
pub const MAX_MILLIS: i64 = 253_402_300_799_999;

/// Whether a count of milliseconds since the Unix epoch lies in the range of the columns.
pub open spec fn in_column_range(millis: int) -> bool {
    MIN_MILLIS <= millis <= MAX_MILLIS
}

/// The text that `chrono` renders for an instant under the layout of the columns.
pub uninterp spec fn column_text(millis: i64) -> Seq<char>;

/// The instant that `chrono` reads from a text under the layout of the columns.
pub uninterp spec fn column_instant(text: Seq<char>) -> Option<i64>;

/// The instant that a column text stands for, if it is readable and in range.
pub open spec fn decode_instant(text: Seq<char>) -> Option<int> {
    match column_instant(text) {
        Some(millis) => if in_column_range(millis as int) {
            Some(millis as int)
        } else {
            None
        },
        None => None,
    }
}

/// The text under which an instant in range is stored.
pub open spec fn encode_instant(millis: int) -> Seq<char> {
    column_text(millis as i64)
}

/// Whether a column gives an instant back as it was written.
pub open spec fn survives_storage(millis: int) -> bool {
    decode_instant(encode_instant(millis)) == Some(millis)
}

/// What an optional column text stands for: absence is no error.
pub open spec fn decode_optional_instant(text: Option<Seq<char>>) -> Option<Option<int>> {
    match text {
        None => Some(None),
        Some(t) => match decode_instant(t) {
            Some(millis) => Some(Some(millis)),
            None => None,
        },
    }
}

/// The text under which an optional instant is stored.
pub open spec fn encode_optional_instant(millis: Option<int>) -> Option<Seq<char>> {
    match millis {
        None => None,
        Some(m) => Some(encode_instant(m)),
    }
}

/// An instant in UTC, in whole milliseconds, within the range of the columns.
#[derive(Clone, Copy, Debug, PartialEq, Eq)]
pub struct Timestamp {
    millis: i64,
}

impl View for Timestamp {
    type V = int;

    closed spec fn view(&self) -> int {
        self.millis as int
    }
}

/// `chrono::DateTime::format` with the layout `%Y-%m-%d %H:%M:%S%.3f`,
/// shown through `Display`, on the UTC instant that
/// `DateTime::from_timestamp_millis` makes of `millis`.
#[verifier::external_body]
fn chrono_format(millis: i64) -> (r: String)
    requires
        in_column_range(millis as int),
    ensures
        r@ == column_text(millis),
{
    chrono::DateTime::from_timestamp_millis(millis)
        .expect("an instant between the years 1 and 9999")
        .format("%Y-%m-%d %H:%M:%S%.3f")
        .to_string()
}

/// `chrono::NaiveDateTime::parse_from_str` with the layout
/// `%Y-%m-%d %H:%M:%S%.3f`; what it reads is taken as UTC and counted in
/// milliseconds by `DateTime::timestamp_millis`.
#[verifier::external_body]
fn chrono_parse(text: &str) -> (r: Option<i64>)
    ensures
        r == column_instant(text@),
{
    match chrono::NaiveDateTime::parse_from_str(text, "%Y-%m-%d %H:%M:%S%.3f") {
        Ok(naive) => Some(naive.and_utc().timestamp_millis()),
        Err(_) => None,
    }
}

impl Timestamp {
    #[verifier::type_invariant]
    spec fn in_range(self) -> bool {
        in_column_range(self.millis as int)
    }

    /// The instant `millis` milliseconds after the Unix epoch, if the columns can hold it.
    pub fn from_millis(millis: i64) -> (r: Option<Timestamp>)
        ensures
            in_column_range(millis as int) ==> r is Some && r->0@ == millis,
            !in_column_range(millis as int) ==> r is None,
    {
        if MIN_MILLIS <= millis && millis <= MAX_MILLIS {
            Some(Timestamp { millis })
        } else {
            None
        }
    }

    /// Milliseconds since the Unix epoch.
    pub fn millis(&self) -> (r: i64)
        ensures
            r == self@,
            in_column_range(r as int),
    {
        proof {
            use_type_invariant(self);
        }
        self.millis
    }

    /// Reads the text of a temporal column.
    pub fn from_column_text(text: &str) -> (r: Option<Timestamp>)
        ensures
            match r {
                Some(t) => decode_instant(text@) == Some(t@),
                None => decode_instant(text@) is None,
            },
    {
        match chrono_parse(text) {
            Some(millis) => Timestamp::from_millis(millis),
            None => None,
        }
    }

    /// Whether the columns give the instant back as it is written.
    pub fn survives_storage(&self) -> (r: bool)
        ensures
            r == survives_storage(self@),
    {
        let text = self.to_column_text();
        match Timestamp::from_column_text(text.as_str()) {
            Some(back) => back.millis == self.millis,
            None => false,
        }
    }

    /// The text under which the instant is stored.
    pub fn to_column_text(&self) -> (r: String)
        ensures
            r@ == encode_instant(self@),
    {
        proof {
            use_type_invariant(self);
        }
        chrono_format(self.millis)
    }
}

/// Reads the text of a temporal column that may be empty.
///
/// `None` means that the column holds a text that cannot be read; an empty
/// column reads as `Some(None)`.
pub fn optional_from_column_text(text: &Option<String>) -> (r: Option<Option<Timestamp>>)
    ensures
        match r {
            Some(Some(t)) => decode_optional_instant(optional_text_view(*text)) == Some(Some(t@)),
            Some(None) => *text is None,
            None => decode_optional_instant(optional_text_view(*text)) is None,
        },
{
    match text {
        None => Some(None),
        Some(present) => match Timestamp::from_column_text(present.as_str()) {
            Some(t) => Some(Some(t)),
            None => None,
        },
    }
}

/// The text under which an optional instant is stored: nothing for none.
pub fn optional_to_column_text(instant: &Option<Timestamp>) -> (r: Option<String>)
    ensures
        optional_text_view(r) == encode_optional_instant(optional_instant_view(*instant)),
{
    match instant {
        None => None,
        Some(t) => Some(t.to_column_text()),
    }
}

/// The view of an optional string.
pub open spec fn optional_text_view(text: Option<String>) -> Option<Seq<char>> {
    match text {
        Some(t) => Some(t@),
        None => None,
    }
}

/// The view of an optional timestamp.
pub open spec fn optional_instant_view(instant: Option<Timestamp>) -> Option<int> {
    match instant {
        Some(t) => Some(t@),
        None => None,
    }
}

} // verus!
