//! Tabular ingestion of downloaded CSV content.
//!
//! The dialect is CSV with a header row: records are separated by line
//! feeds (a carriage return before a line feed is dropped, and a final
//! empty record after a trailing line feed is ignored), fields are
//! separated by commas and carry no quoting. The header row defines the
//! column names; every data row must have as many fields as the header.
use vstd::prelude::*;
use vstd::string::StrSliceExecFns;
use vstd::string::StringExecFns;

use crate::Error;

verus! {

/// The fields of a record: the record's characters split at every
/// separator, as a sequence of field character sequences. Splitting an
/// empty record gives one empty field.
pub open spec fn split_on(s: Seq<char>, sep: char) -> Seq<Seq<char>>
    decreases s.len(),
{
    if s.len() == 0 {
        seq![Seq::<char>::empty()]
    } else if s[0] == sep {
        seq![Seq::<char>::empty()] + split_on(s.drop_first(), sep)
    } else {
        let rest = split_on(s.drop_first(), sep);
        seq![seq![s[0]] + rest[0]] + rest.drop_first()
    }
}

/// Splitting yields at least one field.
pub proof fn lemma_split_len_pos(s: Seq<char>, sep: char)
    ensures
        split_on(s, sep).len() >= 1,
    decreases s.len(),
{
    if s.len() == 0 {
    } else {
        lemma_split_len_pos(s.drop_first(), sep);
    }
}

/// A record without the separator is a single field: itself.
proof fn lemma_split_no_sep(s: Seq<char>, sep: char)
    requires
        forall|i: int| 0 <= i < s.len() ==> s[i] != sep,
    ensures
        split_on(s, sep) =~~= seq![s],
    decreases s.len(),
{
    if s.len() == 0 {
        assert(s =~= Seq::<char>::empty());
    } else {
        lemma_split_no_sep(s.drop_first(), sep);
        assert(seq![s[0]] + s.drop_first() =~= s);
    }
}

/// Splitting at the first separator: the prefix before it is the first
/// field, and the rest of the record is split on its own.
proof fn lemma_split_first_sep(s: Seq<char>, sep: char, j: int)
    requires
        0 <= j < s.len(),
        s[j] == sep,
        forall|i: int| 0 <= i < j ==> s[i] != sep,
    ensures
        split_on(s, sep) =~~= seq![s.take(j)] + split_on(s.skip(j + 1), sep),
    decreases j,
{
    if j == 0 {
        assert(s.take(0) =~= Seq::<char>::empty());
        assert(s.skip(1) =~= s.drop_first());
    } else {
        let rest = split_on(s.drop_first(), sep);
        lemma_split_len_pos(s.drop_first(), sep);
        lemma_split_first_sep(s.drop_first(), sep, j - 1);
        assert(s.drop_first().take(j - 1) =~= s.subrange(1, j));
        assert(s.drop_first().skip(j) =~= s.skip(j + 1));
        assert(rest[0] == s.subrange(1, j));
        assert(seq![s[0]] + s.subrange(1, j) =~= s.take(j));
        assert(rest.drop_first() =~~= split_on(s.skip(j + 1), sep));
        assert(split_on(s, sep) =~~= seq![s.take(j)] + split_on(s.skip(j + 1), sep));
    }
}

/// Splits a record into its fields at every occurrence of the
/// separator.
pub fn split_str(s: &str, sep: char) -> (parts: Vec<String>)
    ensures
        parts.deep_view() == split_on(s@, sep),
{
    let n = s.unicode_len();
    let mut parts: Vec<String> = Vec::new();
    let mut start: usize = 0;
    let mut i: usize = 0;
    proof {
        assert(s@.skip(0) =~= s@);
    }
    while i < n
        invariant
            0 <= start <= i <= n,
            n == s@.len(),
            forall|k: int| start <= k < i ==> s@[k] != sep,
            split_on(s@, sep) == parts.deep_view() + split_on(s@.skip(start as int), sep),
        decreases n - i,
    {
        let c = s.get_char(i);
        if c == sep {
            let ghost old_dv = parts.deep_view();
            let piece = s.substring_char(start, i);
            parts.push(String::from_str(piece));
            proof {
                assert(parts.deep_view() =~= old_dv.push(piece@));
                let t = s@.skip(start as int);
                assert(t[i - start] == sep);
                assert(forall|k: int| 0 <= k < i - start ==> t[k] != sep);
                lemma_split_first_sep(t, sep, i - start);
                assert(t.take(i - start) =~= s@.subrange(start as int, i as int));
                assert(t.skip(i - start + 1) =~= s@.skip(i as int + 1));
                assert(old_dv + (seq![piece@] + split_on(s@.skip(i as int + 1), sep)) =~~= parts.deep_view() + split_on(s@.skip(i as int + 1), sep));
            }
            start = i + 1;
        }
        i = i + 1;
    }
    let ghost old_dv = parts.deep_view();
    let piece = s.substring_char(start, n);
    parts.push(String::from_str(piece));
    proof {
        assert(parts.deep_view() =~= old_dv.push(piece@));
        let t = s@.skip(start as int);
        assert(forall|k: int| 0 <= k < t.len() ==> t[k] != sep);
        lemma_split_no_sep(t, sep);
        assert(t =~= s@.subrange(start as int, n as int));
        assert(old_dv + split_on(s@.skip(start as int), sep) =~~= parts.deep_view());
    }
    parts
}

/// A record with a trailing carriage return dropped: line feeds end
/// records, so a preceding carriage return belongs to the separator.
pub open spec fn strip_cr(l: Seq<char>) -> Seq<char> {
    if l.len() > 0 && l[l.len() - 1] == '\r' {
        l.take(l.len() - 1)
    } else {
        l
    }
}

/// The records of a CSV file: its characters split at every line feed,
/// each record stripped of a trailing carriage return, and a final
/// empty record — the effect of a trailing line feed — ignored.
pub open spec fn csv_records(s: Seq<char>) -> Seq<Seq<char>> {
    let raw = split_on(s, '\n').map_values(|l: Seq<char>| strip_cr(l));
    if raw.len() > 0 && raw.last().len() == 0 {
        raw.drop_last()
    } else {
        raw
    }
}

/// The column names: the fields of the first record.
pub open spec fn header_fields(s: Seq<char>) -> Seq<Seq<char>> {
    split_on(csv_records(s)[0], ',')
}

/// Well-formed CSV: a header record exists and every data record has
/// exactly as many fields as the header.
pub open spec fn well_formed_csv(s: Seq<char>) -> bool {
    let recs = csv_records(s);
    &&& recs.len() >= 1
    &&& forall|i: int|
        1 <= i < recs.len() ==> #[trigger] split_on(recs[i], ',').len() == split_on(
            recs[0],
            ',',
        ).len()
}

/// The type a column is inferred to hold, from the shape of its cells.
#[derive(Clone, Copy, Debug, PartialEq, Eq, Structural)]
pub enum ColumnType {
    /// Every scanned cell is an optionally signed run of digits.
    Int,
    /// Every scanned cell is an optionally signed run of digits with at
    /// most one decimal point between digits.
    Float,
    /// Some scanned cell fits neither numeric shape.
    Str,
}

/// A decimal digit.
pub open spec fn is_digit(c: char) -> bool {
    48 <= (c as u32) <= 57
}

/// A non-empty run of digits.
pub open spec fn is_uint_token(s: Seq<char>) -> bool {
    s.len() > 0 && forall|i: int| 0 <= i < s.len() ==> is_digit(#[trigger] s[i])
}

/// The token without a single leading minus sign.
pub open spec fn strip_sign(s: Seq<char>) -> Seq<char> {
    if s.len() > 0 && s[0] == '-' {
        s.drop_first()
    } else {
        s
    }
}

/// An integer-shaped token: an optional minus sign followed by a
/// non-empty run of digits.
pub open spec fn is_int_token(s: Seq<char>) -> bool {
    is_uint_token(strip_sign(s))
}

/// A number-shaped token: an optional minus sign followed by either a
/// run of digits or two runs of digits around one decimal point.
pub open spec fn is_decimal_token(s: Seq<char>) -> bool {
    let b = strip_sign(s);
    is_uint_token(b) || (exists|k: int|
        0 <= k < b.len() && b[k] == '.' && is_uint_token(b.take(k)) && is_uint_token(
            b.skip(k + 1),
        ))
}

/// How many leading rows take part in type inference: all of them, or
/// at most the given limit.
pub open spec fn scan_count(nrows: int, infer_rows: Option<usize>) -> int {
    match infer_rows {
        None => nrows,
        Some(m) => if m < nrows {
            m as int
        } else {
            nrows
        },
    }
}

/// Every scanned cell of the column is empty or integer-shaped.
pub open spec fn col_all_int(rows: Seq<Seq<Seq<char>>>, j: int, m: int) -> bool {
    forall|i: int| 0 <= i < m ==> (#[trigger] rows[i][j]).len() == 0 || is_int_token(rows[i][j])
}

/// Every scanned cell of the column is empty or number-shaped.
pub open spec fn col_all_decimal(rows: Seq<Seq<Seq<char>>>, j: int, m: int) -> bool {
    forall|i: int| 0 <= i < m ==> (#[trigger] rows[i][j]).len() == 0 || is_decimal_token(rows[i][j])
}

/// The type inferred for a column from its first `m` cells: integers if
/// every one is empty or integer-shaped, otherwise numbers if every one
/// is empty or number-shaped, otherwise text. A small scan limit can
/// mis-type a column whose early rows are unrepresentative.
pub open spec fn inferred_type(rows: Seq<Seq<Seq<char>>>, j: int, m: int) -> ColumnType {
    if col_all_int(rows, j, m) {
        ColumnType::Int
    } else if col_all_decimal(rows, j, m) {
        ColumnType::Float
    } else {
        ColumnType::Str
    }
}

/// An in-memory table: the header tokens as column names, the data
/// records as rows of fields, and the inferred column types, all owned
/// by the caller.
#[derive(Debug)]
pub struct Table {
    pub headers: Vec<String>,
    pub rows: Vec<Vec<String>>,
    pub col_types: Vec<ColumnType>,
}

impl Table {
    /// Every row has exactly one field per column, and every column has
    /// an inferred type.
    pub open spec fn wf(&self) -> bool {
        &&& forall|i: int|
            0 <= i < self.rows@.len() ==> #[trigger] self.rows@[i]@.len() == self.headers@.len()
        &&& self.col_types@.len() == self.headers@.len()
    }
}

/// Strips a trailing carriage return from a record.
fn strip_cr_str(line: &String) -> (r: String)
    ensures
        r@ == strip_cr(line@),
{
    let len = line.as_str().unicode_len();
    if len > 0 && line.as_str().get_char(len - 1) == '\r' {
        let stripped = line.as_str().substring_char(0, len - 1);
        proof {
            assert(stripped@ =~= strip_cr(line@));
        }
        String::from_str(stripped)
    } else {
        line.clone()
    }
}

/// Tests whether every character in the index range is a digit.
fn all_digits_range(s: &str, from: usize, to: usize) -> (r: bool)
    requires
        from <= to <= s@.len(),
    ensures
        r == forall|k: int| from <= k < to ==> is_digit(#[trigger] s@[k]),
{
    let mut i = from;
    while i < to
        invariant
            from <= i <= to <= s@.len(),
            forall|k: int| from <= k < i ==> is_digit(#[trigger] s@[k]),
        decreases to - i,
    {
        let c = s.get_char(i);
        let d = c as u32;
        if d < 48 || d > 57 {
            proof {
                assert(!is_digit(s@[i as int]));
            }
            return false;
        }
        i = i + 1;
    }
    true
}

/// Tests whether the index range holds a non-empty run of digits.
fn is_uint_range(s: &str, from: usize, to: usize) -> (r: bool)
    requires
        from <= to <= s@.len(),
    ensures
        r == is_uint_token(s@.subrange(from as int, to as int)),
{
    let ghost b = s@.subrange(from as int, to as int);
    if to == from {
        return false;
    }
    let ok = all_digits_range(s, from, to);
    proof {
        if ok {
            assert forall|i: int| 0 <= i < b.len() implies is_digit(#[trigger] b[i]) by {
                assert(b[i] == s@[from + i]);
            }
        } else {
            let k = choose|k: int| from <= k < to && !is_digit(#[trigger] s@[k]);
            assert(b[k - from] == s@[k]);
            assert(!is_uint_token(b));
        }
    }
    ok
}

/// Tests whether a cell is integer-shaped: an optional minus sign
/// followed by a non-empty run of digits.
fn is_int_cell(s: &str) -> (r: bool)
    ensures
        r == is_int_token(s@),
{
    let n = s.unicode_len();
    let start: usize = if n > 0 && s.get_char(0) == '-' {
        1
    } else {
        0
    };
    let r = is_uint_range(s, start, n);
    proof {
        assert(strip_sign(s@) =~= s@.subrange(start as int, n as int));
    }
    r
}

/// Tests whether a cell is number-shaped: an optional minus sign
/// followed by a run of digits with at most one decimal point between
/// digits.
fn is_decimal_cell(s: &str) -> (r: bool)
    ensures
        r == is_decimal_token(s@),
{
    let n = s.unicode_len();
    let start: usize = if n > 0 && s.get_char(0) == '-' {
        1
    } else {
        0
    };
    let ghost b = strip_sign(s@);
    proof {
        assert(b =~= s@.subrange(start as int, n as int));
    }
    let mut i = start;
    while i < n && s.get_char(i) != '.'
        invariant
            start <= i <= n,
            n == s@.len(),
            forall|k: int| start <= k < i ==> s@[k] != '.',
        decreases n - i,
    {
        i = i + 1;
    }
    if i == n {
        let r = is_uint_range(s, start, n);
        proof {
            assert forall|k: int| 0 <= k < b.len() implies b[k] != '.' by {
                assert(b[k] == s@[start + k]);
            }
        }
        r
    } else {
        let left = is_uint_range(s, start, i);
        let right = is_uint_range(s, i + 1, n);
        let r = left && right;
        proof {
            let d = i - start;
            assert(b[d] == s@[i as int]);
            assert(b[d] == '.');
            assert(b.take(d) =~= s@.subrange(start as int, i as int));
            assert(b.skip(d + 1) =~= s@.subrange(i as int + 1, n as int));
            assert forall|k: int| 0 <= k < d implies b[k] != '.' by {
                assert(b[k] == s@[start + k]);
            }
            if r {
                assert(0 <= d < b.len() && b[d] == '.' && is_uint_token(b.take(d)) && is_uint_token(
                    b.skip(d + 1),
                ));
                assert(is_decimal_token(s@));
            } else {
                assert(!is_digit(b[d]));
                assert(!is_uint_token(b));
                assert forall|k: int|
                    0 <= k < b.len() && b[k] == '.' implies !(is_uint_token(b.take(k))
                    && is_uint_token(b.skip(k + 1))) by {
                    if k == d {
                    } else {
                        assert(k > d);
                        assert(b.take(k)[d] == '.');
                        assert(!is_digit(b.take(k)[d]));
                        assert(!is_uint_token(b.take(k)));
                    }
                }
                assert(!is_decimal_token(s@));
            }
        }
        r
    }
}

/// Infers the type of one column from its first `m` cells.
fn infer_column(rows: &Vec<Vec<String>>, j: usize, m: usize) -> (t: ColumnType)
    requires
        m <= rows@.len(),
        forall|i: int| 0 <= i < rows@.len() ==> j < #[trigger] rows@[i]@.len(),
    ensures
        t == inferred_type(rows.deep_view(), j as int, m as int),
{
    let ghost dv = rows.deep_view();
    let mut all_int = true;
    let mut all_dec = true;
    let mut i: usize = 0;
    while i < m
        invariant
            0 <= i <= m <= rows@.len(),
            forall|k: int| 0 <= k < rows@.len() ==> j < #[trigger] rows@[k]@.len(),
            dv == rows.deep_view(),
            all_int == col_all_int(dv, j as int, i as int),
            all_dec == col_all_decimal(dv, j as int, i as int),
        decreases m - i,
    {
        let cell = &rows[i][j];
        proof {
            assert(dv[i as int] == rows@[i as int].deep_view());
            assert(dv[i as int][j as int] == cell@);
        }
        if !cell.as_str().is_empty() {
            let int_ok = is_int_cell(cell.as_str());
            let dec_ok = is_decimal_cell(cell.as_str());
            if !int_ok {
                all_int = false;
            }
            if !dec_ok {
                all_dec = false;
            }
        }
        proof {
            assert(col_all_int(dv, j as int, i + 1) <==> (col_all_int(dv, j as int, i as int) && (
            dv[i as int][j as int].len() == 0 || is_int_token(dv[i as int][j as int]))));
            assert(col_all_decimal(dv, j as int, i + 1) <==> (col_all_decimal(dv, j as int, i as int)
                && (dv[i as int][j as int].len() == 0 || is_decimal_token(
                dv[i as int][j as int],
            ))));
        }
        i = i + 1;
    }
    if all_int {
        ColumnType::Int
    } else if all_dec {
        ColumnType::Float
    } else {
        ColumnType::Str
    }
}

/// Infers every column's type, scanning at most the given number of
/// leading rows.
fn infer_types(rows: &Vec<Vec<String>>, ncols: usize, infer_rows: Option<usize>) -> (ts: Vec<
    ColumnType,
>)
    requires
        forall|i: int| 0 <= i < rows@.len() ==> #[trigger] rows@[i]@.len() == ncols,
    ensures
        ts@.len() == ncols,
        forall|j: int|
            0 <= j < ncols ==> #[trigger] ts@[j] == inferred_type(
                rows.deep_view(),
                j,
                scan_count(rows@.len() as int, infer_rows),
            ),
{
    let m: usize = match infer_rows {
        None => rows.len(),
        Some(lim) => if lim < rows.len() {
            lim
        } else {
            rows.len()
        },
    };
    let mut ts: Vec<ColumnType> = Vec::new();
    let mut j: usize = 0;
    while j < ncols
        invariant
            0 <= j <= ncols,
            m as int == scan_count(rows@.len() as int, infer_rows),
            m <= rows@.len(),
            forall|i: int| 0 <= i < rows@.len() ==> #[trigger] rows@[i]@.len() == ncols,
            ts@.len() == j,
            forall|k: int|
                0 <= k < j ==> #[trigger] ts@[k] == inferred_type(
                    rows.deep_view(),
                    k,
                    scan_count(rows@.len() as int, infer_rows),
                ),
        decreases ncols - j,
    {
        ts.push(infer_column(rows, j, m));
        j = j + 1;
    }
    ts
}

/// Parses CSV content with a header row into a table.
///
/// Returns [`Error::ParseError`] exactly when the content is not
/// well-formed: when no record is present, or when some data record
/// has a field count different from the header's. On success the
/// column names are the header tokens in order, the rows are the data
/// records in order with one field per column, and each column's type
/// is inferred from its cells — all of them, or at most the first
/// `infer_rows` when a limit is given.
pub fn from_csv(content: &str, infer_rows: Option<usize>) -> (r: Result<Table, Error>)
    ensures
        match r {
            Ok(t) => {
                &&& well_formed_csv(content@)
                &&& t.headers.deep_view() == header_fields(content@)
                &&& t.rows@.len() == csv_records(content@).len() - 1
                &&& forall|i: int|
                    0 <= i < t.rows@.len() ==> #[trigger] t.rows@[i].deep_view() == split_on(
                        csv_records(content@)[i + 1],
                        ',',
                    )
                &&& forall|j: int|
                    0 <= j < t.col_types@.len() ==> #[trigger] t.col_types@[j] == inferred_type(
                        t.rows.deep_view(),
                        j,
                        scan_count(t.rows@.len() as int, infer_rows),
                    )
                &&& t.wf()
            },
            Err(e) => e == Error::ParseError && !well_formed_csv(content@),
        },
{
    let raw_lines: Vec<String> = split_str(content, '\n');
    let mut records: Vec<String> = Vec::new();
    let mut idx: usize = 0;
    while idx < raw_lines.len()
        invariant
            0 <= idx <= raw_lines@.len(),
            records@.len() == idx,
            forall|k: int|
                0 <= k < idx ==> #[trigger] records.deep_view()[k] == strip_cr(
                    raw_lines.deep_view()[k],
                ),
        decreases raw_lines@.len() - idx,
    {
        let stripped = strip_cr_str(&raw_lines[idx]);
        let ghost old_dv = records.deep_view();
        let ghost stripped_view = stripped@;
        records.push(stripped);
        proof {
            assert(records.deep_view() =~= old_dv.push(stripped_view));
        }
        idx = idx + 1;
    }
    proof {
        assert(records.deep_view() =~= split_on(content@, '\n').map_values(
            |l: Seq<char>| strip_cr(l),
        ));
    }
    if records.len() > 0 {
        let last_len = records[records.len() - 1].as_str().unicode_len();
        if last_len == 0 {
            records.pop();
        }
    }
    proof {
        assert(records.deep_view() =~= csv_records(content@));
    }
    if records.len() == 0 {
        return Err(Error::ParseError);
    }
    let headers: Vec<String> = split_str(records[0].as_str(), ',');
    let ncols = headers.len();
    proof {
        assert(headers.deep_view() == header_fields(content@));
    }
    let mut rows: Vec<Vec<String>> = Vec::new();
    let mut i: usize = 1;
    while i < records.len()
        invariant
            1 <= i <= records@.len(),
            records.deep_view() == csv_records(content@),
            headers.deep_view() == header_fields(content@),
            ncols == headers@.len(),
            rows@.len() == i - 1,
            forall|k: int|
                0 <= k < rows@.len() ==> #[trigger] rows@[k].deep_view() == split_on(
                    csv_records(content@)[k + 1],
                    ',',
                ),
            forall|k: int| 0 <= k < rows@.len() ==> #[trigger] rows@[k]@.len() == ncols,
        decreases records@.len() - i,
    {
        let fields = split_str(records[i].as_str(), ',');
        if fields.len() != ncols {
            proof {
                assert(split_on(csv_records(content@)[i as int], ',').len() != split_on(
                    csv_records(content@)[0],
                    ',',
                ).len());
            }
            return Err(Error::ParseError);
        }
        rows.push(fields);
        i = i + 1;
    }
    let col_types = infer_types(&rows, ncols, infer_rows);
    let t = Table { headers, rows, col_types };
    proof {
        assert forall|j: int| 1 <= j < csv_records(content@).len() implies #[trigger] split_on(
            csv_records(content@)[j],
            ',',
        ).len() == split_on(csv_records(content@)[0], ',').len() by {
            assert(t.rows@[j - 1].deep_view() == split_on(csv_records(content@)[j], ','));
            assert(t.rows@[j - 1]@.len() == ncols);
        }
    }
    Ok(t)
}

} // verus!
