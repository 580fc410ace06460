use std::sync::Arc;
use tokio::runtime::Runtime;
use vstd::prelude::*;

use vstd::string::StrSliceExecFns;

use crate::decode::{
    bool_cell, decode_bool, decoded_date, decoded_datetime, decoded_time, is_timestamp_type, json_decodes,
    mismatch_message, not_timestamp_message, timestamp_input_ok, unix_epoch_day, DateTimeValue, DateValue, TimeValue, decode_date, decode_datetime, decode_i32, decode_i64, decode_i8,
    decode_json, decode_string, decode_time, integer_cell, null_message, text_cell, ColumnType,
    ColumnTypeView, Row, RowView,
};
use crate::source::Client;
use crate::errors::{outcome, SnowflakeSourceError, SourceErrorKind};
use crate::text::{integer_in_range, opt_text};
use crate::typesystem::SnowflakeTypeSystem;

verus! {

/// Hands out the cells of a query's result, row by row.
pub struct SnowflakeSourceParser {
    _rt: Arc<Runtime>,
    _client: Arc<Client>,
    rows: Vec<Row>,
    current_row: usize,
    ncols: usize,
    current_col: usize,
}

impl SnowflakeSourceParser {
    pub closed spec fn spec_rows(&self) -> Seq<RowView> {
        self.rows@.map_values(|r: Row| r@)
    }

    pub closed spec fn row_index(&self) -> usize {
        self.current_row
    }

    pub closed spec fn col_index(&self) -> usize {
        self.current_col
    }

    pub closed spec fn width(&self) -> usize {
        self.ncols
    }

    pub closed spec fn spec_rt(&self) -> Arc<Runtime> {
        self._rt
    }

    pub closed spec fn spec_client(&self) -> Arc<Client> {
        self._client
    }

    /// The cell at the current location with the type of its column, where
    /// the current row exists.
    pub open spec fn current_cell(&self) -> Option<(Option<Seq<char>>, ColumnTypeView)> {
        if self.row_index() < self.spec_rows().len() {
            let r = self.spec_rows()[self.row_index() as int];
            Some((r.values[self.col_index() as int], r.types[self.col_index() as int]))
        } else {
            None
        }
    }

    /// Where the current row exists, it has the current column.
    pub open spec fn cell_reachable(&self) -> bool {
        self.row_index() < self.spec_rows().len() ==> self.spec_rows()[self.row_index() as int].has_cell(
            self.col_index() as int,
        )
    }

    /// The parser can move to its next location: it has a column, and the
    /// row number does not overflow.
    pub open spec fn can_advance(&self) -> bool {
        &&& self.location_valid()
        &&& self.width() > 0
        &&& self.col_index() + 1 == self.width() ==> self.row_index() < usize::MAX
    }

    /// `next` is this parser moved to the cell after the current one: the
    /// next column of the row, or the first column of the next row.
    pub open spec fn moved_to(&self, next: &Self) -> bool {
        &&& next.spec_rows() == self.spec_rows()
        &&& next.width() == self.width()
        &&& next.spec_rt() == self.spec_rt()
        &&& next.spec_client() == self.spec_client()
        &&& next.row_index() == self.row_index() + (self.col_index() + 1) / (self.width() as int)
        &&& next.col_index() == (self.col_index() + 1) % (self.width() as int)
    }

    /// The column to read lies within the width of a row.
    pub open spec fn location_valid(&self) -> bool {
        if self.width() == 0 {
            self.col_index() == 0
        } else {
            self.col_index() < self.width()
        }
    }

    /// The number of cells handed out before the current one.
    pub open spec fn position(&self) -> int {
        self.row_index() * self.width() + self.col_index()
    }

    /// A parser at the first cell of the rows, as wide as the types.
    pub(crate) fn new(
        rt: Arc<Runtime>,
        client: Arc<Client>,
        rows: Vec<Row>,
        schema: &[SnowflakeTypeSystem],
    ) -> (res: Self)
        ensures
            res.spec_rows() == rows@.map_values(|r: Row| r@),
            res.row_index() == 0,
            res.col_index() == 0,
            res.width() == schema@.len(),
            res.spec_rt() == rt,
            res.spec_client() == client,
    {
        SnowflakeSourceParser {
            _rt: rt,
            _client: client,
            rows,
            current_row: 0,
            ncols: schema.len(),
            current_col: 0,
        }
    }

    /// The row and column of the current cell.
    pub fn location(&self) -> (res: (usize, usize))
        ensures
            res == (self.row_index(), self.col_index()),
    {
        (self.current_row, self.current_col)
    }

    /// Whether the parser can read its current cell: it has a column, its row
    /// number does not overflow, and where the current row exists it has the
    /// current column.
    pub fn ready(&self) -> (res: bool)
        ensures
            res == (self.can_advance() && self.cell_reachable()),
    {
        let valid = if self.ncols == 0 {
            self.current_col == 0
        } else {
            self.current_col < self.ncols
        };
        if !valid || self.ncols == 0 {
            return false;
        }
        if self.current_col + 1 == self.ncols && self.current_row == usize::MAX {
            return false;
        }
        if self.current_row < self.rows.len() {
            let r = &self.rows[self.current_row];
            self.current_col < r.values.len() && self.current_col < r.columns.len()
        } else {
            true
        }
    }

    /// Whether the current cell, where its row exists, can be read as a
    /// timestamp without an arithmetic overflow.
    pub fn timestamp_ready(&self) -> (res: bool)
        requires
            self.cell_reachable(),
        ensures
            res == (self.current_cell() matches Some((v, t)) ==> timestamp_input_ok(v, t)),
    {
        if self.current_row < self.rows.len() {
            let r = &self.rows[self.current_row];
            let v = &r.values[self.current_col];
            let t = &r.columns[self.current_col].column_type;
            proof {
                assert(self.spec_rows()[self.row_index() as int] == r@);
                assert(r@.values[self.col_index() as int] == opt_text(*v));
                assert(r@.types[self.col_index() as int] == t@);
            }
            crate::decode::timestamp_input_checked(v, t)
        } else {
            true
        }
    }

    /// The location of the current cell; the parser moves to the next cell.
    /// The location moves on by one cell: after `k` calls from the first cell,
    /// the parser is at row `k / width` and column `k % width`.
    pub fn next_loc(&mut self) -> (res: Result<(usize, usize), SnowflakeSourceError>)
        requires
            old(self).can_advance(),
        ensures
            res matches Ok(loc) && loc == (old(self).row_index(), old(self).col_index()),
            old(self).moved_to(final(self)),
            final(self).location_valid(),
            final(self).position() == old(self).position() + 1,
    {
        let ret = (self.current_row, self.current_col);
        let n = self.ncols;
        let c = self.current_col;
        let r = self.current_row;
        proof {
            if c + 1 < n {
                assert((c + 1) / (n as int) == 0 && (c + 1) % (n as int) == c + 1) by (nonlinear_arith)
                    requires
                        c + 1 < n,
                        0 < n,
                ;
            } else {
                assert((c + 1) / (n as int) == 1 && (c + 1) % (n as int) == 0) by (nonlinear_arith)
                    requires
                        c + 1 == n,
                        0 < n,
                ;
                assert((r + 1) * n == r * n + n) by (nonlinear_arith);
            }
        }
        self.current_row = self.current_row + (self.current_col + 1) / self.ncols;
        self.current_col = (self.current_col + 1) % self.ncols;
        Ok(ret)
    }

    /// The number of rows to read, all of them at once; the parser must be at
    /// the start of a row.
    pub fn fetch_next(&mut self) -> (res: Result<(usize, bool), SnowflakeSourceError>)
        requires
            old(self).col_index() == 0,
        ensures
            *final(self) == *old(self),
            res matches Ok(r) && r == (old(self).spec_rows().len() as usize, true),
    {
        Ok((self.rows.len(), true))
    }

    /// The location of the current cell, where its row exists; the parser
    /// moves to the next cell whether or not it does.
    pub fn next_cell(&mut self) -> (res: Result<(usize, usize), SnowflakeSourceError>)
        requires
            old(self).can_advance(),
            old(self).cell_reachable(),
        ensures
            old(self).moved_to(final(self)),
            final(self).location_valid(),
            final(self).position() == old(self).position() + 1,
            old(self).current_cell() is None ==> outcome(res) == Err::<(usize, usize), SourceErrorKind>(
                SourceErrorKind::Other("row is none"@),
            ),
            old(self).current_cell() is Some ==> (res matches Ok(loc) && loc == (
                old(self).row_index(),
                old(self).col_index(),
            )),
            res matches Ok(loc) ==> loc.0 < final(self).spec_rows().len() && final(self).spec_rows()[loc.0 as int].has_cell(loc.1 as int),
    {
        let (ridx, cidx) = self.next_loc()?;
        if ridx < self.rows.len() {
            Ok((ridx, cidx))
        } else {
            Err(SnowflakeSourceError::Other(String::from_str("row is none")))
        }
    }

    /// The text of a cell.
    pub fn value_at(&self, r: usize, c: usize) -> (res: &Option<String>)
        requires
            r < self.spec_rows().len(),
            self.spec_rows()[r as int].has_cell(c as int),
        ensures
            opt_text(*res) == self.spec_rows()[r as int].values[c as int],
    {
        &self.rows[r].values[c]
    }

    /// The type of a cell's column.
    pub fn type_at(&self, r: usize, c: usize) -> (res: &ColumnType)
        requires
            r < self.spec_rows().len(),
            self.spec_rows()[r as int].has_cell(c as int),
        ensures
            res@ == self.spec_rows()[r as int].types[c as int],
    {
        &self.rows[r].columns[c].column_type
    }

    /// The current cell as an `i8`; the parser moves to the next cell.
    pub fn produce_i8(&mut self) -> (res: Result<i8, SnowflakeSourceError>)
        requires
            old(self).can_advance(),
            old(self).cell_reachable(),
        ensures
            old(self).moved_to(final(self)),
            final(self).position() == old(self).position() + 1,
            match old(self).current_cell() {
                None => outcome(res) == Err::<i8, SourceErrorKind>(SourceErrorKind::Other("row is none"@)),
                Some((v, _)) => match integer_cell(v, true, i8::MIN as int, i8::MAX as int, "i8"@) {
                    Ok(n) => res matches Ok(x) && x as int == n,
                    Err(m) => outcome(res) == Err::<i8, SourceErrorKind>(SourceErrorKind::Other(m)),
                },
            },
    {
        let (r, c) = self.next_cell()?;
        match decode_i8(self.value_at(r, c), self.type_at(r, c)) {
            Ok(v) => Ok(v),
            Err(m) => Err(SnowflakeSourceError::Other(m)),
        }
    }

    /// The current cell as an `i8` or a null; the parser moves to the next cell.
    pub fn produce_opt_i8(&mut self) -> (res: Result<Option<i8>, SnowflakeSourceError>)
        requires
            old(self).can_advance(),
            old(self).cell_reachable(),
        ensures
            old(self).moved_to(final(self)),
            final(self).position() == old(self).position() + 1,
            match old(self).current_cell() {
                None => outcome(res) == Err::<Option<i8>, SourceErrorKind>(SourceErrorKind::Other("row is none"@)),
                Some((None, _)) => res matches Ok(x) && x is None,
                Some((v, _)) => match integer_cell(v, true, i8::MIN as int, i8::MAX as int, "i8"@) {
                    Ok(n) => res matches Ok(Some(x)) && x as int == n,
                    Err(m) => outcome(res) == Err::<Option<i8>, SourceErrorKind>(SourceErrorKind::Other(m)),
                },
            },
    {
        let (r, c) = self.next_cell()?;
        let v = self.value_at(r, c);
        if v.is_none() {
            return Ok(None);
        }
        match decode_i8(v, self.type_at(r, c)) {
            Ok(x) => Ok(Some(x)),
            Err(m) => Err(SnowflakeSourceError::Other(m)),
        }
    }

    /// The current cell as an `i32`; the parser moves to the next cell.
    pub fn produce_i32(&mut self) -> (res: Result<i32, SnowflakeSourceError>)
        requires
            old(self).can_advance(),
            old(self).cell_reachable(),
        ensures
            old(self).moved_to(final(self)),
            final(self).position() == old(self).position() + 1,
            match old(self).current_cell() {
                None => outcome(res) == Err::<i32, SourceErrorKind>(SourceErrorKind::Other("row is none"@)),
                Some((v, _)) => match integer_cell(v, true, i32::MIN as int, i32::MAX as int, "i32"@) {
                    Ok(n) => res matches Ok(x) && x as int == n,
                    Err(m) => outcome(res) == Err::<i32, SourceErrorKind>(SourceErrorKind::Other(m)),
                },
            },
    {
        let (r, c) = self.next_cell()?;
        match decode_i32(self.value_at(r, c), self.type_at(r, c)) {
            Ok(v) => Ok(v),
            Err(m) => Err(SnowflakeSourceError::Other(m)),
        }
    }

    /// The current cell as an `i32` or a null; the parser moves to the next cell.
    pub fn produce_opt_i32(&mut self) -> (res: Result<Option<i32>, SnowflakeSourceError>)
        requires
            old(self).can_advance(),
            old(self).cell_reachable(),
        ensures
            old(self).moved_to(final(self)),
            final(self).position() == old(self).position() + 1,
            match old(self).current_cell() {
                None => outcome(res) == Err::<Option<i32>, SourceErrorKind>(SourceErrorKind::Other("row is none"@)),
                Some((None, _)) => res matches Ok(x) && x is None,
                Some((v, _)) => match integer_cell(v, true, i32::MIN as int, i32::MAX as int, "i32"@) {
                    Ok(n) => res matches Ok(Some(x)) && x as int == n,
                    Err(m) => outcome(res) == Err::<Option<i32>, SourceErrorKind>(SourceErrorKind::Other(m)),
                },
            },
    {
        let (r, c) = self.next_cell()?;
        let v = self.value_at(r, c);
        if v.is_none() {
            return Ok(None);
        }
        match decode_i32(v, self.type_at(r, c)) {
            Ok(x) => Ok(Some(x)),
            Err(m) => Err(SnowflakeSourceError::Other(m)),
        }
    }

    /// The current cell as an `i64`; the parser moves to the next cell.
    pub fn produce_i64(&mut self) -> (res: Result<i64, SnowflakeSourceError>)
        requires
            old(self).can_advance(),
            old(self).cell_reachable(),
        ensures
            old(self).moved_to(final(self)),
            final(self).position() == old(self).position() + 1,
            match old(self).current_cell() {
                None => outcome(res) == Err::<i64, SourceErrorKind>(SourceErrorKind::Other("row is none"@)),
                Some((v, _)) => match integer_cell(v, true, i64::MIN as int, i64::MAX as int, "i64"@) {
                    Ok(n) => res matches Ok(x) && x as int == n,
                    Err(m) => outcome(res) == Err::<i64, SourceErrorKind>(SourceErrorKind::Other(m)),
                },
            },
    {
        let (r, c) = self.next_cell()?;
        match decode_i64(self.value_at(r, c), self.type_at(r, c)) {
            Ok(v) => Ok(v),
            Err(m) => Err(SnowflakeSourceError::Other(m)),
        }
    }

    /// The current cell as an `i64` or a null; the parser moves to the next cell.
    pub fn produce_opt_i64(&mut self) -> (res: Result<Option<i64>, SnowflakeSourceError>)
        requires
            old(self).can_advance(),
            old(self).cell_reachable(),
        ensures
            old(self).moved_to(final(self)),
            final(self).position() == old(self).position() + 1,
            match old(self).current_cell() {
                None => outcome(res) == Err::<Option<i64>, SourceErrorKind>(SourceErrorKind::Other("row is none"@)),
                Some((None, _)) => res matches Ok(x) && x is None,
                Some((v, _)) => match integer_cell(v, true, i64::MIN as int, i64::MAX as int, "i64"@) {
                    Ok(n) => res matches Ok(Some(x)) && x as int == n,
                    Err(m) => outcome(res) == Err::<Option<i64>, SourceErrorKind>(SourceErrorKind::Other(m)),
                },
            },
    {
        let (r, c) = self.next_cell()?;
        let v = self.value_at(r, c);
        if v.is_none() {
            return Ok(None);
        }
        match decode_i64(v, self.type_at(r, c)) {
            Ok(x) => Ok(Some(x)),
            Err(m) => Err(SnowflakeSourceError::Other(m)),
        }
    }

    /// The current cell as a boolean; the parser moves to the next cell.
    pub fn produce_bool(&mut self) -> (res: Result<bool, SnowflakeSourceError>)
        requires
            old(self).can_advance(),
            old(self).cell_reachable(),
        ensures
            old(self).moved_to(final(self)),
            final(self).position() == old(self).position() + 1,
            match old(self).current_cell() {
                None => outcome(res) == Err::<bool, SourceErrorKind>(SourceErrorKind::Other("row is none"@)),
                Some((v, _)) => match bool_cell(v) {
                    Ok(b) => res matches Ok(x) && x == b,
                    Err(m) => outcome(res) == Err::<bool, SourceErrorKind>(SourceErrorKind::Other(m)),
                },
            },
    {
        let (r, c) = self.next_cell()?;
        match decode_bool(self.value_at(r, c), self.type_at(r, c)) {
            Ok(v) => Ok(v),
            Err(m) => Err(SnowflakeSourceError::Other(m)),
        }
    }

    /// The current cell as a boolean or a null; the parser moves to the next cell.
    pub fn produce_opt_bool(&mut self) -> (res: Result<Option<bool>, SnowflakeSourceError>)
        requires
            old(self).can_advance(),
            old(self).cell_reachable(),
        ensures
            old(self).moved_to(final(self)),
            final(self).position() == old(self).position() + 1,
            match old(self).current_cell() {
                None => outcome(res) == Err::<Option<bool>, SourceErrorKind>(SourceErrorKind::Other("row is none"@)),
                Some((None, _)) => res matches Ok(x) && x is None,
                Some((v, _)) => match bool_cell(v) {
                    Ok(b) => res matches Ok(Some(x)) && x == b,
                    Err(m) => outcome(res) == Err::<Option<bool>, SourceErrorKind>(SourceErrorKind::Other(m)),
                },
            },
    {
        let (r, c) = self.next_cell()?;
        let v = self.value_at(r, c);
        if v.is_none() {
            return Ok(None);
        }
        match decode_bool(v, self.type_at(r, c)) {
            Ok(x) => Ok(Some(x)),
            Err(m) => Err(SnowflakeSourceError::Other(m)),
        }
    }

    /// The current cell as a string; the parser moves to the next cell.
    pub fn produce_string(&mut self) -> (res: Result<String, SnowflakeSourceError>)
        requires
            old(self).can_advance(),
            old(self).cell_reachable(),
        ensures
            old(self).moved_to(final(self)),
            final(self).position() == old(self).position() + 1,
            match old(self).current_cell() {
                None => outcome(res) == Err::<String, SourceErrorKind>(SourceErrorKind::Other("row is none"@)),
                Some((v, _)) => match text_cell(v) {
                    Ok(s) => res matches Ok(x) && x@ == s,
                    Err(m) => outcome(res) == Err::<String, SourceErrorKind>(SourceErrorKind::Other(m)),
                },
            },
    {
        let (r, c) = self.next_cell()?;
        match decode_string(self.value_at(r, c), self.type_at(r, c)) {
            Ok(v) => Ok(v),
            Err(m) => Err(SnowflakeSourceError::Other(m)),
        }
    }

    /// The current cell as a string or a null; the parser moves to the next cell.
    pub fn produce_opt_string(&mut self) -> (res: Result<Option<String>, SnowflakeSourceError>)
        requires
            old(self).can_advance(),
            old(self).cell_reachable(),
        ensures
            old(self).moved_to(final(self)),
            final(self).position() == old(self).position() + 1,
            match old(self).current_cell() {
                None => outcome(res) == Err::<Option<String>, SourceErrorKind>(SourceErrorKind::Other("row is none"@)),
                Some((v, _)) => res matches Ok(x) && opt_text(x) == v,
            },
    {
        let (r, c) = self.next_cell()?;
        let v = self.value_at(r, c);
        if v.is_none() {
            return Ok(None);
        }
        match decode_string(v, self.type_at(r, c)) {
            Ok(x) => Ok(Some(x)),
            Err(m) => Err(SnowflakeSourceError::Other(m)),
        }
    }

    /// The current cell as bytes: the UTF-8 encoding of its text; the parser
    /// moves to the next cell.
    pub fn produce_bytes(&mut self) -> (res: Result<Vec<u8>, SnowflakeSourceError>)
        requires
            old(self).can_advance(),
            old(self).cell_reachable(),
        ensures
            old(self).moved_to(final(self)),
            final(self).position() == old(self).position() + 1,
            match old(self).current_cell() {
                None => outcome(res) == Err::<Vec<u8>, SourceErrorKind>(SourceErrorKind::Other("row is none"@)),
                Some((v, _)) => match text_cell(v) {
                    Ok(s) => res matches Ok(x) && x@ == vstd::utf8::encode_utf8(s),
                    Err(m) => outcome(res) == Err::<Vec<u8>, SourceErrorKind>(SourceErrorKind::Other(m)),
                },
            },
    {
        let (r, c) = self.next_cell()?;
        match decode_string(self.value_at(r, c), self.type_at(r, c)) {
            Ok(v) => Ok(v.as_str().as_bytes_vec()),
            Err(m) => Err(SnowflakeSourceError::Other(m)),
        }
    }

    /// The current cell as bytes or a null; the parser moves to the next cell.
    pub fn produce_opt_bytes(&mut self) -> (res: Result<Option<Vec<u8>>, SnowflakeSourceError>)
        requires
            old(self).can_advance(),
            old(self).cell_reachable(),
        ensures
            old(self).moved_to(final(self)),
            final(self).position() == old(self).position() + 1,
            match old(self).current_cell() {
                None => outcome(res) == Err::<Option<Vec<u8>>, SourceErrorKind>(SourceErrorKind::Other("row is none"@)),
                Some((None, _)) => res matches Ok(x) && x is None,
                Some((Some(s), _)) => res matches Ok(Some(x)) && x@ == vstd::utf8::encode_utf8(s),
            },
    {
        let (r, c) = self.next_cell()?;
        let v = self.value_at(r, c);
        if v.is_none() {
            return Ok(None);
        }
        match decode_string(v, self.type_at(r, c)) {
            Ok(x) => Ok(Some(x.as_str().as_bytes_vec())),
            Err(m) => Err(SnowflakeSourceError::Other(m)),
        }
    }

    /// The current cell as a date: the day number of January 1, 1970 plus the number of days that the cell holds; the parser moves to the next cell.
    pub fn produce_date(&mut self) -> (res: Result<DateValue, SnowflakeSourceError>)
        requires
            old(self).can_advance(),
            old(self).cell_reachable(),
        ensures
            old(self).moved_to(final(self)),
            final(self).position() == old(self).position() + 1,
            match old(self).current_cell() {
                None => outcome(res) == Err::<DateValue, SourceErrorKind>(SourceErrorKind::Other("row is none"@)),
                Some((None, _)) => outcome(res) == Err::<DateValue, SourceErrorKind>(SourceErrorKind::Other(null_message())),
                Some((Some(s), _)) => match decoded_date(s) {
                    Some(d) => res matches Ok(x) && x.days_from_ce == d && (integer_in_range(s, true, i64::MIN as int, i64::MAX as int) matches Some(n) && d
                        == unix_epoch_day() + n),
                    None => outcome(res) == Err::<DateValue, SourceErrorKind>(
                        SourceErrorKind::Other(
                            if integer_in_range(s, true, i64::MIN as int, i64::MAX as int) is None {
                                mismatch_message(s, "Date type"@)
                            } else {
                                mismatch_message(s, "a valid date"@)
                            },
                        ),
                    ),
                },
            },
    {
        let (r, c) = self.next_cell()?;
        match decode_date(self.value_at(r, c), self.type_at(r, c)) {
            Ok(v) => Ok(v),
            Err(m) => Err(SnowflakeSourceError::Other(m)),
        }
    }

    /// The current cell as a date or a null: the day number of January 1, 1970 plus the number of days that the cell holds; the parser moves to the next cell.
    pub fn produce_opt_date(&mut self) -> (res: Result<Option<DateValue>, SnowflakeSourceError>)
        requires
            old(self).can_advance(),
            old(self).cell_reachable(),
        ensures
            old(self).moved_to(final(self)),
            final(self).position() == old(self).position() + 1,
            match old(self).current_cell() {
                None => outcome(res) == Err::<Option<DateValue>, SourceErrorKind>(SourceErrorKind::Other("row is none"@)),
                Some((None, _)) => res matches Ok(x) && x is None,
                Some((Some(s), _)) => match decoded_date(s) {
                    Some(d) => res matches Ok(Some(x)) && x.days_from_ce == d && (integer_in_range(s, true, i64::MIN as int, i64::MAX as int) matches Some(n) && d
                        == unix_epoch_day() + n),
                    None => outcome(res) == Err::<Option<DateValue>, SourceErrorKind>(
                        SourceErrorKind::Other(
                            if integer_in_range(s, true, i64::MIN as int, i64::MAX as int) is None {
                                mismatch_message(s, "Date type"@)
                            } else {
                                mismatch_message(s, "a valid date"@)
                            },
                        ),
                    ),
                },
            },
    {
        let (r, c) = self.next_cell()?;
        let v = self.value_at(r, c);
        if v.is_none() {
            return Ok(None);
        }
        match decode_date(v, self.type_at(r, c)) {
            Ok(x) => Ok(Some(x)),
            Err(m) => Err(SnowflakeSourceError::Other(m)),
        }
    }

    /// The current cell as a time of day; the parser moves to the next cell.
    pub fn produce_time(&mut self) -> (res: Result<TimeValue, SnowflakeSourceError>)
        requires
            old(self).can_advance(),
            old(self).cell_reachable(),
        ensures
            old(self).moved_to(final(self)),
            final(self).position() == old(self).position() + 1,
            match old(self).current_cell() {
                None => outcome(res) == Err::<TimeValue, SourceErrorKind>(SourceErrorKind::Other("row is none"@)),
                Some((None, _)) => outcome(res) == Err::<TimeValue, SourceErrorKind>(SourceErrorKind::Other(null_message())),
                Some((Some(s), t)) => match decoded_time(s, t.scale) {
                    Ok((secs, n)) => res matches Ok(x) && x.secs == secs && x.nanos == n,
                    Err(m) => outcome(res) == Err::<TimeValue, SourceErrorKind>(SourceErrorKind::Other(m)),
                },
            },
    {
        let (r, c) = self.next_cell()?;
        match decode_time(self.value_at(r, c), self.type_at(r, c)) {
            Ok(v) => Ok(v),
            Err(m) => Err(SnowflakeSourceError::Other(m)),
        }
    }

    /// The current cell as a time of day or a null; the parser moves to the next cell.
    pub fn produce_opt_time(&mut self) -> (res: Result<Option<TimeValue>, SnowflakeSourceError>)
        requires
            old(self).can_advance(),
            old(self).cell_reachable(),
        ensures
            old(self).moved_to(final(self)),
            final(self).position() == old(self).position() + 1,
            match old(self).current_cell() {
                None => outcome(res) == Err::<Option<TimeValue>, SourceErrorKind>(SourceErrorKind::Other("row is none"@)),
                Some((None, _)) => res matches Ok(x) && x is None,
                Some((Some(s), t)) => match decoded_time(s, t.scale) {
                    Ok((secs, n)) => res matches Ok(Some(x)) && x.secs == secs && x.nanos == n,
                    Err(m) => outcome(res) == Err::<Option<TimeValue>, SourceErrorKind>(SourceErrorKind::Other(m)),
                },
            },
    {
        let (r, c) = self.next_cell()?;
        let v = self.value_at(r, c);
        if v.is_none() {
            return Ok(None);
        }
        match decode_time(v, self.type_at(r, c)) {
            Ok(x) => Ok(Some(x)),
            Err(m) => Err(SnowflakeSourceError::Other(m)),
        }
    }

    /// The current cell as a timestamp; the parser moves to the next cell. A cell of a timestamp column must have a scale within 0 to 9, and must not step below the smallest epoch seconds.
    pub fn produce_datetime(&mut self) -> (res: Result<DateTimeValue, SnowflakeSourceError>)
        requires
            old(self).can_advance(),
            old(self).cell_reachable(),
            old(self).current_cell() matches Some((v, t)) ==> timestamp_input_ok(v, t),
        ensures
            old(self).moved_to(final(self)),
            final(self).position() == old(self).position() + 1,
            match old(self).current_cell() {
                None => outcome(res) == Err::<DateTimeValue, SourceErrorKind>(SourceErrorKind::Other("row is none"@)),
                Some((None, _)) => outcome(res) == Err::<DateTimeValue, SourceErrorKind>(SourceErrorKind::Other(null_message())),
                Some((Some(s), t)) => match decoded_datetime(s, t.snowflake_type, t.scale) {
                    Ok((d, secs, n)) => res matches Ok(x) && x.date.days_from_ce == d && x.time.secs == secs
                        && x.time.nanos == n,
                    Err(m) => outcome(res) == Err::<DateTimeValue, SourceErrorKind>(SourceErrorKind::Other(m))
                        && (!is_timestamp_type(t.snowflake_type) ==> m == not_timestamp_message(s, t.snowflake_type)),
                },
            },
    {
        let (r, c) = self.next_cell()?;
        match decode_datetime(self.value_at(r, c), self.type_at(r, c)) {
            Ok(v) => Ok(v),
            Err(m) => Err(SnowflakeSourceError::Other(m)),
        }
    }

    /// The current cell as a timestamp or a null; the parser moves to the next cell. A cell of a timestamp column must have a scale within 0 to 9, and must not step below the smallest epoch seconds.
    pub fn produce_opt_datetime(&mut self) -> (res: Result<Option<DateTimeValue>, SnowflakeSourceError>)
        requires
            old(self).can_advance(),
            old(self).cell_reachable(),
            old(self).current_cell() matches Some((v, t)) ==> timestamp_input_ok(v, t),
        ensures
            old(self).moved_to(final(self)),
            final(self).position() == old(self).position() + 1,
            match old(self).current_cell() {
                None => outcome(res) == Err::<Option<DateTimeValue>, SourceErrorKind>(SourceErrorKind::Other("row is none"@)),
                Some((None, _)) => res matches Ok(x) && x is None,
                Some((Some(s), t)) => match decoded_datetime(s, t.snowflake_type, t.scale) {
                    Ok((d, secs, n)) => res matches Ok(Some(x)) && x.date.days_from_ce == d && x.time.secs == secs
                        && x.time.nanos == n,
                    Err(m) => outcome(res) == Err::<Option<DateTimeValue>, SourceErrorKind>(SourceErrorKind::Other(m))
                        && (!is_timestamp_type(t.snowflake_type) ==> m == not_timestamp_message(s, t.snowflake_type)),
                },
            },
    {
        let (r, c) = self.next_cell()?;
        let v = self.value_at(r, c);
        if v.is_none() {
            return Ok(None);
        }
        match decode_datetime(v, self.type_at(r, c)) {
            Ok(x) => Ok(Some(x)),
            Err(m) => Err(SnowflakeSourceError::Other(m)),
        }
    }

    /// The current cell as a JSON value; the parser moves to the next cell.
    pub fn produce_json(&mut self) -> (res: Result<serde_json::Value, SnowflakeSourceError>)
        requires
            old(self).can_advance(),
            old(self).cell_reachable(),
        ensures
            old(self).moved_to(final(self)),
            final(self).position() == old(self).position() + 1,
            match old(self).current_cell() {
                None => outcome(res) == Err::<serde_json::Value, SourceErrorKind>(SourceErrorKind::Other("row is none"@)),
                Some((None, _)) => outcome(res) == Err::<serde_json::Value, SourceErrorKind>(SourceErrorKind::Other(null_message())),
                Some((Some(s), _)) => if json_decodes(s) {
                    res is Ok
                } else {
                    outcome(res) == Err::<serde_json::Value, SourceErrorKind>(SourceErrorKind::Other(mismatch_message(s, "json"@)))
                },
            },
    {
        let (r, c) = self.next_cell()?;
        match decode_json(self.value_at(r, c), self.type_at(r, c)) {
            Ok(v) => Ok(v),
            Err(m) => Err(SnowflakeSourceError::Other(m)),
        }
    }

    /// The current cell as a JSON value or a null; the parser moves to the next cell.
    pub fn produce_opt_json(&mut self) -> (res: Result<Option<serde_json::Value>, SnowflakeSourceError>)
        requires
            old(self).can_advance(),
            old(self).cell_reachable(),
        ensures
            old(self).moved_to(final(self)),
            final(self).position() == old(self).position() + 1,
            match old(self).current_cell() {
                None => outcome(res) == Err::<Option<serde_json::Value>, SourceErrorKind>(SourceErrorKind::Other("row is none"@)),
                Some((None, _)) => res matches Ok(x) && x is None,
                Some((Some(s), _)) => if json_decodes(s) {
                    res matches Ok(x) && x is Some
                } else {
                    outcome(res) == Err::<Option<serde_json::Value>, SourceErrorKind>(SourceErrorKind::Other(mismatch_message(s, "json"@)))
                },
            },
    {
        let (r, c) = self.next_cell()?;
        let v = self.value_at(r, c);
        if v.is_none() {
            return Ok(None);
        }
        match decode_json(v, self.type_at(r, c)) {
            Ok(x) => Ok(Some(x)),
            Err(m) => Err(SnowflakeSourceError::Other(m)),
        }
    }
}

/// The cells come out row by row. A parser of width `n > 0` whose location
/// is valid, with `k` cells handed out before the current one, is at row
/// `k / n` and column `k % n`, and finds its row exactly when `k` is below
/// the number of rows times `n`; so from a fresh parser (which `next_loc`
/// and every `produce_` method move on by one cell) the reads find a row for
/// the first `rows * n` cells and no row after them. The cell at row `r` and
/// column `c < n` is the current one exactly when `k == r * n + c`, so each
/// cell is read once; and of two counts `k1 < k2`, `k1` comes first in
/// row-major order.
pub proof fn lemma_row_major_traversal(p: &SnowflakeSourceParser, r: int, c: int, k1: int, k2: int)
    requires
        p.location_valid(),
        p.width() > 0,
        0 <= c < p.width(),
        0 <= k1 < k2,
    ensures
        p.row_index() == p.position() / (p.width() as int),
        p.col_index() == p.position() % (p.width() as int),
        p.current_cell() is Some <==> p.position() < p.spec_rows().len() * p.width(),
        (p.row_index() == r && p.col_index() == c) <==> p.position() == r * p.width() + c,
        k1 / (p.width() as int) < k2 / (p.width() as int) || (k1 / (p.width() as int) == k2 / (
        p.width() as int) && k1 % (p.width() as int) < k2 % (p.width() as int)),
{
    let n = p.width() as int;
    let row = p.row_index() as int;
    let col = p.col_index() as int;
    let m = p.spec_rows().len() as int;
    vstd::arithmetic::div_mod::lemma_fundamental_div_mod_converse(p.position(), n, row, col);
    assert(row < m <==> row * n + col < m * n) by (nonlinear_arith)
        requires
            0 <= col < n,
            0 <= row,
            0 <= m,
    {
        if row < m {
            assert(row * n <= (m - 1) * n);
        } else {
            assert(row * n >= m * n);
        }
    }
    if p.position() == r * n + c {
        vstd::arithmetic::div_mod::lemma_fundamental_div_mod_converse(p.position(), n, r, c);
    }
    vstd::arithmetic::div_mod::lemma_fundamental_div_mod(k1, n);
    vstd::arithmetic::div_mod::lemma_fundamental_div_mod(k2, n);
    vstd::arithmetic::div_mod::lemma_div_is_ordered(k1, k2, n);
    vstd::arithmetic::div_mod::lemma_mod_bound(k1, n);
    vstd::arithmetic::div_mod::lemma_mod_bound(k2, n);
}

} // verus!
