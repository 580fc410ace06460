use chrono::{Datelike, Timelike};
use snowflake_connector_rs::{SnowflakeColumnType, SnowflakeDecode};
use vstd::prelude::*;
use vstd::string::StrSliceExecFns;

use crate::text::{all_digits, ascii_uppercase, digits_value, integer_in_range, integer_text, is_digit, opt_text, unsigned_part};
use crate::typesystem::unicode_uppercase;

verus! {

#[verifier::external_type_specification]
#[verifier::external_body]
pub struct ExJsonValue(serde_json::Value);

/// The type of a column of a result, as Snowflake describes it.
pub struct ColumnType {
    pub snowflake_type: String,
    pub nullable: bool,
    pub length: Option<i64>,
    pub precision: Option<i64>,
    pub scale: Option<i64>,
}

pub struct ColumnTypeView {
    pub snowflake_type: Seq<char>,
    pub nullable: bool,
    pub length: Option<i64>,
    pub precision: Option<i64>,
    pub scale: Option<i64>,
}

impl View for ColumnType {
    type V = ColumnTypeView;

    open spec fn view(&self) -> ColumnTypeView {
        ColumnTypeView {
            snowflake_type: self.snowflake_type@,
            nullable: self.nullable,
            length: self.length,
            precision: self.precision,
            scale: self.scale,
        }
    }
}

/// A column of a result: its name and its type.
pub struct Column {
    pub name: String,
    pub column_type: ColumnType,
}

/// A row of a result: its columns, and the text of each cell (`None` for a
/// null).
pub struct Row {
    pub columns: Vec<Column>,
    pub values: Vec<Option<String>>,
}

pub struct RowView {
    pub names: Seq<Seq<char>>,
    pub types: Seq<ColumnTypeView>,
    pub values: Seq<Option<Seq<char>>>,
}

impl View for Row {
    type V = RowView;

    open spec fn view(&self) -> RowView {
        RowView {
            names: self.columns@.map_values(|c: Column| c.name@),
            types: self.columns@.map_values(|c: Column| c.column_type@),
            values: self.values@.map_values(|v: Option<String>| opt_text(v)),
        }
    }
}

impl RowView {
    /// Whether the row has a cell, and a type for it, at this column.
    pub open spec fn has_cell(self, c: int) -> bool {
        0 <= c < self.values.len() && c < self.types.len()
    }
}

/// The message of a decoding error on a null cell.
pub open spec fn null_message() -> Seq<char> {
    "decode error: value is null"@
}

/// The message of a decoding error on a cell whose text is not of the type.
pub open spec fn mismatch_message(text: Seq<char>, type_word: Seq<char>) -> Seq<char> {
    "decode error: '"@ + text + "' is not "@ + type_word
}

/// The integer that a cell holds, within `lo ..= hi`, or the message of the
/// decoding error.
pub open spec fn integer_cell(
    value: Option<Seq<char>>,
    signed: bool,
    lo: int,
    hi: int,
    type_word: Seq<char>,
) -> Result<int, Seq<char>> {
    match value {
        None => Err(null_message()),
        Some(s) => match integer_in_range(s, signed, lo, hi) {
            Some(v) => Ok(v),
            None => Err(mismatch_message(s, type_word)),
        },
    }
}

/// The boolean that a cell holds: `1` or `TRUE` and `0` or `FALSE`, in any
/// letter case.
pub open spec fn bool_cell(value: Option<Seq<char>>) -> Result<bool, Seq<char>> {
    match value {
        None => Err(null_message()),
        Some(s) => {
            let u = unicode_uppercase(s);
            if u == "1"@ || u == "TRUE"@ {
                Ok(true)
            } else if u == "0"@ || u == "FALSE"@ {
                Ok(false)
            } else {
                Err(mismatch_message(s, "bool"@))
            }
        },
    }
}

/// The text that a cell holds.
pub open spec fn text_cell(value: Option<Seq<char>>) -> Result<Seq<char>, Seq<char>> {
    match value {
        None => Err(null_message()),
        Some(s) => Ok(s),
    }
}

/// A decoded value with its error message by its characters.
pub open spec fn decoded<T>(r: Result<T, String>) -> Result<T, Seq<char>> {
    match r {
        Ok(v) => Ok(v),
        Err(m) => Err(m@),
    }
}

/// Calls `<i8 as SnowflakeDecode>::try_decode` of `snowflake_connector_rs`.
/// Trusted: a null cell fails; else the text is read by `str::parse::<i8>`,
/// and fails with the crate's message; an error is given by its message.
#[verifier::external_body]
pub(crate) fn decode_i8(value: &Option<String>, ty: &ColumnType) -> (res: Result<i8, String>)
    ensures
        match res {
            Ok(v) => integer_cell(opt_text(*value), true, i8::MIN as int, i8::MAX as int, "i8"@) == Ok::<int, Seq<char>>(v as int),
            Err(m) => integer_cell(opt_text(*value), true, i8::MIN as int, i8::MAX as int, "i8"@) == Err::<int, Seq<char>>(m@),
        },
{
    let ty = SnowflakeColumnType::new(ty.snowflake_type.clone(), ty.nullable, ty.length, ty.precision, ty.scale);
    match <i8 as SnowflakeDecode>::try_decode(value, &ty) {
        Ok(v) => Ok(v),
        Err(e) => Err(e.to_string()),
    }
}

/// Calls `<i32 as SnowflakeDecode>::try_decode` of `snowflake_connector_rs`.
/// Trusted: a null cell fails; else the text is read by `str::parse::<i32>`,
/// and fails with the crate's message; an error is given by its message.
#[verifier::external_body]
pub(crate) fn decode_i32(value: &Option<String>, ty: &ColumnType) -> (res: Result<i32, String>)
    ensures
        match res {
            Ok(v) => integer_cell(opt_text(*value), true, i32::MIN as int, i32::MAX as int, "i32"@) == Ok::<int, Seq<char>>(v as int),
            Err(m) => integer_cell(opt_text(*value), true, i32::MIN as int, i32::MAX as int, "i32"@) == Err::<int, Seq<char>>(m@),
        },
{
    let ty = SnowflakeColumnType::new(ty.snowflake_type.clone(), ty.nullable, ty.length, ty.precision, ty.scale);
    match <i32 as SnowflakeDecode>::try_decode(value, &ty) {
        Ok(v) => Ok(v),
        Err(e) => Err(e.to_string()),
    }
}

/// Calls `<i64 as SnowflakeDecode>::try_decode` of `snowflake_connector_rs`.
/// Trusted: a null cell fails; else the text is read by `str::parse::<i64>`,
/// and fails with the crate's message; an error is given by its message.
#[verifier::external_body]
pub(crate) fn decode_i64(value: &Option<String>, ty: &ColumnType) -> (res: Result<i64, String>)
    ensures
        match res {
            Ok(v) => integer_cell(opt_text(*value), true, i64::MIN as int, i64::MAX as int, "i64"@) == Ok::<int, Seq<char>>(v as int),
            Err(m) => integer_cell(opt_text(*value), true, i64::MIN as int, i64::MAX as int, "i64"@) == Err::<int, Seq<char>>(m@),
        },
{
    let ty = SnowflakeColumnType::new(ty.snowflake_type.clone(), ty.nullable, ty.length, ty.precision, ty.scale);
    match <i64 as SnowflakeDecode>::try_decode(value, &ty) {
        Ok(v) => Ok(v),
        Err(e) => Err(e.to_string()),
    }
}

/// Calls `<u64 as SnowflakeDecode>::try_decode` of `snowflake_connector_rs`.
/// Trusted: a null cell fails; else the text is read by `str::parse::<u64>`,
/// and fails with the crate's message; an error is given by its message.
#[verifier::external_body]
pub(crate) fn decode_u64(value: &Option<String>, ty: &ColumnType) -> (res: Result<u64, String>)
    ensures
        match res {
            Ok(v) => integer_cell(opt_text(*value), false, 0, u64::MAX as int, "u64"@) == Ok::<int, Seq<char>>(v as int),
            Err(m) => integer_cell(opt_text(*value), false, 0, u64::MAX as int, "u64"@) == Err::<int, Seq<char>>(m@),
        },
{
    let ty = SnowflakeColumnType::new(ty.snowflake_type.clone(), ty.nullable, ty.length, ty.precision, ty.scale);
    match <u64 as SnowflakeDecode>::try_decode(value, &ty) {
        Ok(v) => Ok(v),
        Err(e) => Err(e.to_string()),
    }
}

/// Calls `<bool as SnowflakeDecode>::try_decode` of `snowflake_connector_rs`.
/// Trusted: a null cell fails; else the text, uppercased by
/// `str::to_uppercase`, must be `1`, `TRUE`, `0` or `FALSE`; an error is
/// given by its message.
#[verifier::external_body]
pub(crate) fn decode_bool(value: &Option<String>, ty: &ColumnType) -> (res: Result<bool, String>)
    ensures
        decoded(res) == bool_cell(opt_text(*value)),
{
    let ty = SnowflakeColumnType::new(ty.snowflake_type.clone(), ty.nullable, ty.length, ty.precision, ty.scale);
    match <bool as SnowflakeDecode>::try_decode(value, &ty) {
        Ok(v) => Ok(v),
        Err(e) => Err(e.to_string()),
    }
}

/// Calls `<String as SnowflakeDecode>::try_decode` of `snowflake_connector_rs`.
/// Trusted: a null cell fails; else the text of the cell is given back.
#[verifier::external_body]
pub(crate) fn decode_string(value: &Option<String>, ty: &ColumnType) -> (res: Result<String, String>)
    ensures
        match res {
            Ok(s) => text_cell(opt_text(*value)) == Ok::<Seq<char>, Seq<char>>(s@),
            Err(m) => text_cell(opt_text(*value)) == Err::<Seq<char>, Seq<char>>(m@),
        },
{
    let ty = SnowflakeColumnType::new(ty.snowflake_type.clone(), ty.nullable, ty.length, ty.precision, ty.scale);
    match <String as SnowflakeDecode>::try_decode(value, &ty) {
        Ok(v) => Ok(v),
        Err(e) => Err(e.to_string()),
    }
}

/// Whether a column type is one of Snowflake's timestamp types.
pub open spec fn is_timestamp_type(t: Seq<char>) -> bool {
    let u = ascii_uppercase(t);
    u == "TIMESTAMP_LTZ"@ || u == "TIMESTAMP_NTZ"@ || u == "TIMESTAMP_TZ"@
}

/// The message of the error on a cell of a column that holds no timestamp.
pub open spec fn not_timestamp_message(text: Seq<char>, column_type: Seq<char>) -> Seq<char> {
    "decode error: Could not decode '"@ + text + "' as timestamp, found type "@ + column_type
}

/// A calendar date, by its day number in the proleptic Gregorian calendar,
/// January 1 of the year 1 being day 1.
#[derive(Copy, Clone, Debug, PartialEq, Eq, Structural)]
pub struct DateValue {
    pub days_from_ce: i32,
}

/// A time of day: the seconds from midnight, and the nanosecond within the
/// second (a billion or more within a leap second).
#[derive(Copy, Clone, Debug, PartialEq, Eq, Structural)]
pub struct TimeValue {
    pub secs: u32,
    pub nanos: u32,
}

/// A date and a time of day.
#[derive(Copy, Clone, Debug, PartialEq, Eq, Structural)]
pub struct DateTimeValue {
    pub date: DateValue,
    pub time: TimeValue,
}

/// The day number of January 1, 1970.
pub open spec fn unix_epoch_day() -> int {
    719_163
}

/// The day number of the date that `snowflake_connector_rs` decodes from the
/// text of a DATE cell; `None` where decoding fails.
pub uninterp spec fn decoded_date(text: Seq<char>) -> Option<i32>;

/// What `snowflake_connector_rs` makes of the text of a TIME cell, given the
/// scale of its column: the seconds from midnight and nanosecond of the
/// time, or the message it fails with.
pub uninterp spec fn decoded_time(text: Seq<char>, scale: Option<i64>) -> Result<(u32, u32), Seq<char>>;

/// What `snowflake_connector_rs` makes of the text of a cell read as a
/// timestamp, given the type and scale of its column: the day number,
/// seconds from midnight and nanosecond of the timestamp, or the message it
/// fails with.
pub uninterp spec fn decoded_datetime(text: Seq<char>, column_type: Seq<char>, scale: Option<i64>) -> Result<(i32, u32, u32), Seq<char>>;

/// Whether `snowflake_connector_rs` decodes the text of a cell as JSON.
pub uninterp spec fn json_decodes(text: Seq<char>) -> bool;

/// Calls `<NaiveDate as SnowflakeDecode>::try_decode` of
/// `snowflake_connector_rs` and takes the day number of the date. Trusted: a
/// null cell fails with the null message; the text is read by
/// `str::parse::<i64>` as a number of days after January 1, 1970, and fails
/// with the crate's message where it is not a number or the date is out of
/// chrono's range. The range is left to the name `decoded_date`.
#[verifier::external_body]
pub(crate) fn decode_date(value: &Option<String>, ty: &ColumnType) -> (res: Result<DateValue, String>)
    ensures
        match (res, opt_text(*value)) {
            (Ok(d), Some(s)) => decoded_date(s) == Some(d.days_from_ce) && (integer_in_range(
                s,
                true,
                i64::MIN as int,
                i64::MAX as int,
            ) matches Some(n) && d.days_from_ce == unix_epoch_day() + n),
            (Ok(_), None) => false,
            (Err(m), None) => m@ == null_message(),
            (Err(m), Some(s)) => decoded_date(s) is None && m@ == (if integer_in_range(
                s,
                true,
                i64::MIN as int,
                i64::MAX as int,
            ) is None {
                mismatch_message(s, "Date type"@)
            } else {
                mismatch_message(s, "a valid date"@)
            }),
        },
{
    let ty = SnowflakeColumnType::new(ty.snowflake_type.clone(), ty.nullable, ty.length, ty.precision, ty.scale);
    match <chrono::NaiveDate as SnowflakeDecode>::try_decode(value, &ty) {
        Ok(v) => Ok(DateValue { days_from_ce: v.num_days_from_ce() }),
        Err(e) => Err(e.to_string()),
    }
}

/// Whether a scale lies in Snowflake's range, 0 to 9.
pub open spec fn scale_in_range(scale: Option<i64>) -> bool {
    scale matches Some(k) ==> 0 <= k <= 9
}

/// Calls `<NaiveTime as SnowflakeDecode>::try_decode` of
/// `snowflake_connector_rs` and takes the seconds and nanosecond of the time.
/// Trusted: a null cell fails with the null message; a scale outside 0 to 9
/// fails; a time has fewer than 86,400 seconds and a nanosecond under two
/// billion. Which texts decode, to which time, and with which message the
/// others fail, is left to the name `decoded_time`.
#[verifier::external_body]
pub(crate) fn decode_time(value: &Option<String>, ty: &ColumnType) -> (res: Result<TimeValue, String>)
    ensures
        match (res, opt_text(*value)) {
            (Ok(t), Some(s)) => decoded_time(s, ty.scale) == Ok::<(u32, u32), Seq<char>>((t.secs, t.nanos))
                && scale_in_range(ty.scale) && t.secs < 86_400 && t.nanos < 2_000_000_000,
            (Ok(_), None) => false,
            (Err(m), None) => m@ == null_message(),
            (Err(m), Some(s)) => decoded_time(s, ty.scale) == Err::<(u32, u32), Seq<char>>(m@),
        },
{
    let ty = SnowflakeColumnType::new(ty.snowflake_type.clone(), ty.nullable, ty.length, ty.precision, ty.scale);
    match <chrono::NaiveTime as SnowflakeDecode>::try_decode(value, &ty) {
        Ok(v) => Ok(TimeValue { secs: v.num_seconds_from_midnight(), nanos: v.nanosecond() }),
        Err(e) => Err(e.to_string()),
    }
}

/// Whether a character is white space, as `char::is_whitespace` of std
/// defines it (the Unicode property White_Space).
pub open spec fn is_white_space(c: char) -> bool {
    ('\u{9}' <= c && c <= '\u{d}') || c == ' ' || c == '\u{85}' || c == '\u{a0}' || c == '\u{1680}'
        || ('\u{2000}' <= c && c <= '\u{200a}') || c == '\u{2028}' || c == '\u{2029}' || c == '\u{202f}'
        || c == '\u{205f}' || c == '\u{3000}'
}

/// A text without its leading white space.
pub open spec fn trim_start(s: Seq<char>) -> Seq<char>
    decreases s.len(),
{
    if s.len() > 0 && is_white_space(s[0]) {
        trim_start(s.drop_first())
    } else {
        s
    }
}

/// A text without its trailing white space.
pub open spec fn trim_end(s: Seq<char>) -> Seq<char>
    decreases s.len(),
{
    if s.len() > 0 && is_white_space(s.last()) {
        trim_end(s.drop_last())
    } else {
        s
    }
}

/// The index of the first `.` of a text, or its length where it has none.
pub open spec fn first_dot(s: Seq<char>) -> int
    decreases s.len(),
{
    if s.len() == 0 || s[0] == '.' {
        0
    } else {
        1 + first_dot(s.drop_first())
    }
}

/// Whether the first `scale` characters of a fraction (or all of it, where
/// it is shorter) are digits, and one of them is not `0`.
pub open spec fn nonzero_fraction(frac: Seq<char>, scale: int) -> bool {
    let k = if scale < frac.len() {
        scale
    } else {
        frac.len() as int
    };
    &&& forall|i: int| 0 <= i < k ==> is_digit(#[trigger] frac[i])
    &&& exists|i: int| 0 <= i < k && #[trigger] frac[i] != '0'
}

/// Whether an epoch timestamp text has the smallest `i64` as its whole
/// seconds and a fraction that is not zero: the crate then steps the seconds
/// below that smallest `i64`.
pub open spec fn epoch_seconds_underflow(text: Seq<char>, scale: i64) -> bool {
    let t = trim_end(trim_start(text));
    let k = first_dot(t);
    &&& scale > 0
    &&& integer_in_range(t.take(k), true, i64::MIN as int, i64::MAX as int) == Some(i64::MIN as int)
    &&& k < t.len()
    &&& nonzero_fraction(t.skip(k + 1), scale as int)
}

/// Whether a column type is a timestamp type kept as epoch seconds.
pub open spec fn is_epoch_timestamp_type(t: Seq<char>) -> bool {
    let u = ascii_uppercase(t);
    u == "TIMESTAMP_LTZ"@ || u == "TIMESTAMP_NTZ"@
}

/// Whether `snowflake_connector_rs` can decode a cell as a timestamp without
/// failing on an arithmetic overflow: a null cell, or a cell of a column that
/// is not of a timestamp type, always can; else the scale must lie in 0 to 9,
/// and an epoch text must not step below the smallest `i64` seconds.
pub open spec fn timestamp_input_ok(value: Option<Seq<char>>, ty: ColumnTypeView) -> bool {
    value matches Some(s) ==> (is_timestamp_type(ty.snowflake_type) ==> (scale_in_range(ty.scale) && (
    is_epoch_timestamp_type(ty.snowflake_type) ==> !epoch_seconds_underflow(
        s,
        match ty.scale {
            Some(k) => k,
            None => 9,
        },
    ))))
}

/// Calls `<NaiveDateTime as SnowflakeDecode>::try_decode` of
/// `snowflake_connector_rs` and takes the day number, seconds and nanosecond
/// of the timestamp. The crate steps over an arithmetic overflow on the
/// inputs that `timestamp_input_ok` leaves out. Trusted: a null cell fails
/// with the null message; a cell of a column that is not of a timestamp type
/// (by `str::to_ascii_uppercase` of its type) fails with the crate's message.
/// Which texts decode, to which timestamp, and with which message the others
/// fail, is left to the name `decoded_datetime`.
#[verifier::external_body]
pub(crate) fn decode_datetime(value: &Option<String>, ty: &ColumnType) -> (res: Result<DateTimeValue, String>)
    requires
        timestamp_input_ok(opt_text(*value), ty@),
    ensures
        match (res, opt_text(*value)) {
            (Ok(t), Some(s)) => decoded_datetime(s, ty.snowflake_type@, ty.scale) == Ok::<(i32, u32, u32), Seq<char>>(
                (t.date.days_from_ce, t.time.secs, t.time.nanos),
            ) && is_timestamp_type(ty.snowflake_type@),
            (Ok(_), None) => false,
            (Err(m), None) => m@ == null_message(),
            (Err(m), Some(s)) => decoded_datetime(s, ty.snowflake_type@, ty.scale) == Err::<(i32, u32, u32), Seq<char>>(m@)
                && (!is_timestamp_type(ty.snowflake_type@) ==> m@ == not_timestamp_message(s, ty.snowflake_type@)),
        },
{
    let ty = SnowflakeColumnType::new(ty.snowflake_type.clone(), ty.nullable, ty.length, ty.precision, ty.scale);
    match <chrono::NaiveDateTime as SnowflakeDecode>::try_decode(value, &ty) {
        Ok(v) => Ok(DateTimeValue {
            date: DateValue { days_from_ce: v.date().num_days_from_ce() },
            time: TimeValue { secs: v.time().num_seconds_from_midnight(), nanos: v.time().nanosecond() },
        }),
        Err(e) => Err(e.to_string()),
    }
}

/// Calls `<serde_json::Value as SnowflakeDecode>::try_decode` of
/// `snowflake_connector_rs`. Trusted: a null cell fails with the null
/// message; a text decodes where `json_decodes` holds, and otherwise fails
/// with the crate's message. Which JSON value a text gives is not stated.
#[verifier::external_body]
pub(crate) fn decode_json(value: &Option<String>, ty: &ColumnType) -> (res: Result<serde_json::Value, String>)
    ensures
        match (res, opt_text(*value)) {
            (Ok(_), Some(s)) => json_decodes(s),
            (Ok(_), None) => false,
            (Err(m), None) => m@ == null_message(),
            (Err(m), Some(s)) => !json_decodes(s) && m@ == mismatch_message(s, "json"@),
        },
{
    let ty = SnowflakeColumnType::new(ty.snowflake_type.clone(), ty.nullable, ty.length, ty.precision, ty.scale);
    match <serde_json::Value as SnowflakeDecode>::try_decode(value, &ty) {
        Ok(v) => Ok(v),
        Err(e) => Err(e.to_string()),
    }
}


/// Whether a text, with its ASCII letters uppercased, is another text.
pub fn ascii_upper_eq(a: &str, b: &str) -> (res: bool)
    ensures
        res == (ascii_uppercase(a@) == b@),
{
    let n = a.unicode_len();
    if n != b.unicode_len() {
        return false;
    }
    let mut i: usize = 0;
    while i < n
        invariant
            n == a@.len() == b@.len(),
            i <= n,
            forall|j: int| 0 <= j < i ==> ascii_uppercase(a@)[j] == b@[j],
        decreases n - i,
    {
        let c = a.get_char(i);
        let d = b.get_char(i);
        let same = if 'a' <= c && c <= 'z' {
            (c as u32) - 32 == d as u32
        } else {
            c == d
        };
        if !same {
            proof {
                assert(ascii_uppercase(a@)[i as int] != b@[i as int]);
            }
            return false;
        }
        i = i + 1;
    }
    assert(ascii_uppercase(a@) =~= b@);
    true
}

/// Whether a character is white space.
pub fn white_space(c: char) -> (res: bool)
    ensures
        res == is_white_space(c),
{
    ('\u{9}' <= c && c <= '\u{d}') || c == ' ' || c == '\u{85}' || c == '\u{a0}' || c == '\u{1680}'
        || ('\u{2000}' <= c && c <= '\u{200a}') || c == '\u{2028}' || c == '\u{2029}' || c == '\u{202f}'
        || c == '\u{205f}' || c == '\u{3000}'
}

proof fn lemma_negative_text(sec: Seq<char>)
    requires
        sec.len() >= 2,
        sec[0] == '-',
        is_digit(sec[1]),
    ensures
        integer_text(sec, true) == match integer_text(sec.drop_first(), false) {
            Some(x) => Some(-x),
            None => None::<int>,
        },
{
    let d = sec.drop_first();
    assert(d[0] == sec[1]);
    assert(unsigned_part(d, false) == d);
    assert(unsigned_part(sec, true) == d);
}

proof fn lemma_digits_value_nonneg(d: Seq<char>)
    requires
        forall|i: int| 0 <= i < d.len() ==> is_digit(#[trigger] d[i]),
    ensures
        digits_value(d) >= 0,
    decreases d.len(),
{
    if d.len() > 0 {
        assert(is_digit(d[d.len() - 1]));
        lemma_digits_value_nonneg(d.drop_last());
    }
}

/// A text that `FromStr` reads as an integer writes a number of the sign it
/// shows: one without a leading `-` is not negative.
proof fn lemma_unsigned_text_nonneg(s: Seq<char>, signed: bool)
    requires
        !(s.len() > 0 && s[0] == '-'),
    ensures
        integer_text(s, signed) matches Some(v) ==> v >= 0,
{
    let body = unsigned_part(s, signed);
    if body.len() > 0 && all_digits(body) {
        lemma_digits_value_nonneg(body);
    }
}

proof fn lemma_first_dot(t: Seq<char>, k: int)
    requires
        0 <= k <= t.len(),
        forall|m: int| 0 <= m < k ==> t[m] != '.',
        k == t.len() || t[k] == '.',
    ensures
        first_dot(t) == k,
    decreases k,
{
    if k > 0 {
        lemma_first_dot(t.drop_first(), k - 1);
    }
}

/// The bounds of a text without its leading and trailing white space.
fn trimmed_bounds(text: &str) -> (res: (usize, usize))
    ensures
        res.0 <= res.1 <= text@.len(),
        trim_end(trim_start(text@)) == text@.subrange(res.0 as int, res.1 as int),
{
    let ghost s = text@;
    let n = text.unicode_len();
    let mut i: usize = 0;
    assert(s.skip(0) =~= s);
    while i < n && white_space(text.get_char(i))
        invariant
            s == text@,
            n == s.len(),
            i <= n,
            trim_start(s) == trim_start(s.skip(i as int)),
        decreases n - i,
    {
        proof {
            assert(s.skip(i as int).drop_first() =~= s.skip(i + 1));
        }
        i = i + 1;
    }
    proof {
        assert(s.skip(i as int) =~= s.subrange(i as int, n as int));
    }
    let mut j: usize = n;
    while j > i && white_space(text.get_char(j - 1))
        invariant
            s == text@,
            n == s.len(),
            i <= j <= n,
            trim_start(s) == s.subrange(i as int, n as int),
            trim_end(s.subrange(i as int, n as int)) == trim_end(s.subrange(i as int, j as int)),
        decreases j - i,
    {
        proof {
            assert(s.subrange(i as int, j as int).drop_last() =~= s.subrange(i as int, j - 1));
        }
        j = j - 1;
    }
    (i, j)
}

/// The index of the first `.` between two bounds of a text, or the upper
/// bound where there is none.
fn dot_between(text: &str, from: usize, to: usize) -> (res: usize)
    requires
        from <= to <= text@.len(),
    ensures
        from <= res <= to,
        first_dot(text@.subrange(from as int, to as int)) == res - from,
{
    let ghost s = text@;
    let ghost t = s.subrange(from as int, to as int);
    let mut k: usize = from;
    while k < to && text.get_char(k) != '.'
        invariant
            s == text@,
            from <= k <= to <= s.len(),
            t == s.subrange(from as int, to as int),
            forall|m: int| from <= m < k ==> s[m] != '.',
        decreases to - k,
    {
        k = k + 1;
    }
    proof {
        lemma_first_dot(t, k - from);
    }
    k
}

/// Whether the characters of a text between two bounds make a fraction of
/// which the first `scale` characters are digits, one of them not `0`.
fn nonzero_fraction_between(text: &str, from: usize, to: usize, scale: i64) -> (res: bool)
    requires
        from <= to <= text@.len(),
        scale >= 0,
    ensures
        res == nonzero_fraction(text@.subrange(from as int, to as int), scale as int),
{
    let ghost frac = text@.subrange(from as int, to as int);
    let flen = to - from;
    let lim: usize = if (scale as u64) < (flen as u64) {
        scale as usize
    } else {
        flen
    };
    assert(lim == (if scale < frac.len() {
        scale as int
    } else {
        frac.len() as int
    }));
    let mut m: usize = 0;
    let mut nonzero = false;
    while m < lim
        invariant
            lim == (if scale < frac.len() {
                scale as int
            } else {
                frac.len() as int
            }),
            from <= to <= text@.len(),
            frac == text@.subrange(from as int, to as int),
            lim <= frac.len(),
            m <= lim,
            forall|q: int| 0 <= q < m ==> is_digit(#[trigger] frac[q]),
            nonzero <==> exists|q: int| 0 <= q < m && #[trigger] frac[q] != '0',
        decreases lim - m,
    {
        let c = text.get_char(from + m);
        assert(c == frac[m as int]);
        if !crate::text::is_digit_char(c) {
            proof {
                assert(!is_digit(frac[m as int]));
                assert(!nonzero_fraction(frac, scale as int));
            }
            return false;
        }
        if c != '0' {
            nonzero = true;
        }
        m = m + 1;
    }
    nonzero
}

/// Whether an epoch timestamp text steps below the smallest `i64` seconds.
pub fn epoch_underflow_checked(text: &str, scale: i64) -> (res: bool)
    ensures
        res == epoch_seconds_underflow(text@, scale),
{
    let (i, j) = trimmed_bounds(text);
    let ghost t = text@.subrange(i as int, j as int);
    let k = dot_between(text, i, j);
    if scale <= 0 || k >= j {
        return false;
    }
    let secs = text.substring_char(i, k);
    assert(secs@ == t.take(k - i));
    if k - i < 2 || text.get_char(i) != '-' {
        proof {
            let ghost sc = secs@;
            if sc.len() == 1 && sc[0] == '-' {
                assert(sc.drop_first().len() == 0);
            } else {
                lemma_unsigned_text_nonneg(sc, true);
            }
        }
        return false;
    }
    let d = text.substring_char(i + 1, k);
    assert(d@ == secs@.drop_first());
    if !crate::text::is_digit_char(d.get_char(0)) {
        proof {
            assert(secs@[0] == '-');
            assert(!is_digit(d@[0]));
        }
        return false;
    }
    proof {
        lemma_negative_text(secs@);
    }
    let parsed = crate::conn::parse_u64_text(d);
    let is_min = match parsed {
        Ok(v) => v == 9_223_372_036_854_775_808u64,
        Err(_) => false,
    };
    if !is_min {
        proof {
            lemma_unsigned_text_nonneg(d@, false);
        }
        return false;
    }
    assert(t.skip(k - i + 1) =~= text@.subrange(k + 1, j as int));
    nonzero_fraction_between(text, k + 1, j, scale)
}

/// Whether `snowflake_connector_rs` can decode a cell as a timestamp without
/// an arithmetic overflow.
pub fn timestamp_input_checked(value: &Option<String>, ty: &ColumnType) -> (res: bool)
    ensures
        res == timestamp_input_ok(opt_text(*value), ty@),
{
    let s = match value {
        None => {
            return true;
        },
        Some(s) => s,
    };
    let t = ty.snowflake_type.as_str();
    let ltz = ascii_upper_eq(t, "TIMESTAMP_LTZ");
    let ntz = ascii_upper_eq(t, "TIMESTAMP_NTZ");
    let tz = ascii_upper_eq(t, "TIMESTAMP_TZ");
    if !(ltz || ntz || tz) {
        return true;
    }
    let scale = match ty.scale {
        Some(k) => k,
        None => 9,
    };
    if scale < 0 || scale > 9 {
        return false;
    }
    if !(ltz || ntz) {
        return true;
    }
    !epoch_underflow_checked(s.as_str(), scale)
}

} // verus!
