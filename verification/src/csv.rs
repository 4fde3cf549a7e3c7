//! Verified decoding of CSV text into a table.
//!
//! The first line is the header; every later line is a data row and must
//! have exactly as many fields as the header. An empty field is a missing
//! value. Column types are inferred from the present cells.
use vstd::assert_by_contradiction;
use vstd::prelude::*;
use vstd::slice::{slice_subrange, slice_to_vec};

use crate::error::ApiError;
use crate::strutil::{chars_of, str_views, string_from_chars};
use crate::table::{ColType, Table};

verus! {

/// Splitting a character sequence at every occurrence of a separator; the
/// result has one entry more than there are separators, in order.
pub open spec fn split_on(s: Seq<char>, sep: char) -> Seq<Seq<char>>
    decreases s.len(),
{
    if s.len() == 0 {
        seq![Seq::<char>::empty()]
    } else if s[0] == sep {
        seq![Seq::<char>::empty()] + split_on(s.skip(1), sep)
    } else {
        let rest = split_on(s.skip(1), sep);
        seq![seq![s[0]] + rest[0]] + rest.skip(1)
    }
}

pub proof fn lemma_split_on_nonempty(s: Seq<char>, sep: char)
    ensures
        split_on(s, sep).len() >= 1,
    decreases s.len(),
{
    if s.len() == 0 {
    } else {
        lemma_split_on_nonempty(s.skip(1), sep);
    }
}

/// View of a list of character vectors.
pub open spec fn char_vec_views(v: Seq<Vec<char>>) -> Seq<Seq<char>> {
    v.map_values(|x: Vec<char>| x@)
}

fn split_chars(s: &[char], sep: char) -> (r: Vec<Vec<char>>)
    ensures
        char_vec_views(r@) == split_on(s@, sep),
        r@.len() >= 1,
    decreases s@.len(),
{
    proof {
        lemma_split_on_nonempty(s@, sep);
    }
    if s.len() == 0 {
        let mut r: Vec<Vec<char>> = Vec::new();
        let empty: Vec<char> = Vec::new();
        r.push(empty);
        proof {
            assert(char_vec_views(r@) =~~= split_on(s@, sep));
        }
        r
    } else if s[0] == sep {
        let tail = slice_subrange(s, 1, s.len());
        proof {
            assert(tail@ =~= s@.skip(1));
        }
        let mut r = split_chars(tail, sep);
        let empty: Vec<char> = Vec::new();
        r.insert(0, empty);
        proof {
            assert(char_vec_views(r@) =~~= seq![Seq::<char>::empty()] + split_on(s@.skip(1), sep));
        }
        r
    } else {
        let tail = slice_subrange(s, 1, s.len());
        proof {
            assert(tail@ =~= s@.skip(1));
            lemma_split_on_nonempty(s@.skip(1), sep);
        }
        let mut r = split_chars(tail, sep);
        let first = r.remove(0);
        let mut first2: Vec<char> = Vec::new();
        first2.push(s[0]);
        let mut rest_of_first = first;
        let mut k: usize = 0;
        while k < rest_of_first.len()
            invariant
                k <= rest_of_first@.len(),
                first2@ == seq![s@[0]] + rest_of_first@.subrange(0, k as int),
            decreases rest_of_first@.len() - k,
        {
            first2.push(rest_of_first[k]);
            proof {
                assert(rest_of_first@.subrange(0, (k + 1) as int) =~= rest_of_first@.subrange(
                    0,
                    k as int,
                ).push(rest_of_first@[k as int]));
            }
            k += 1;
        }
        proof {
            assert(rest_of_first@.subrange(0, rest_of_first@.len() as int) =~= rest_of_first@);
        }
        r.insert(0, first2);
        proof {
            let rest = split_on(s@.skip(1), sep);
            assert(char_vec_views(r@) =~~= seq![seq![s@[0]] + rest[0]] + rest.skip(1));
        }
        r
    }
}

/// A line with a trailing carriage return loses it.
pub open spec fn strip_cr(l: Seq<char>) -> Seq<char> {
    if l.len() > 0 && l[l.len() - 1] == '\r' {
        l.drop_last()
    } else {
        l
    }
}

/// The lines of a CSV body: split at every line feed, each line stripped of
/// a trailing carriage return, and a final empty line (from a trailing line
/// break) dropped.
pub open spec fn csv_lines(s: Seq<char>) -> Seq<Seq<char>> {
    let stripped = split_on(s, '\n').map_values(|l: Seq<char>| strip_cr(l));
    if stripped.len() > 0 && stripped.last().len() == 0 {
        stripped.drop_last()
    } else {
        stripped
    }
}

fn split_into_lines(body: &Vec<char>) -> (r: Vec<Vec<char>>)
    ensures
        char_vec_views(r@) == csv_lines(body@),
{
    let raw = split_chars(body.as_slice(), '\n');
    let ghost stripped_spec = split_on(body@, '\n').map_values(|l: Seq<char>| strip_cr(l));
    let mut out: Vec<Vec<char>> = Vec::new();
    let mut i: usize = 0;
    while i < raw.len()
        invariant
            i <= raw@.len(),
            char_vec_views(raw@) == split_on(body@, '\n'),
            stripped_spec == split_on(body@, '\n').map_values(|l: Seq<char>| strip_cr(l)),
            out@.len() == i,
            forall|k: int| 0 <= k < i ==> (#[trigger] out@[k])@ == stripped_spec[k],
        decreases raw@.len() - i,
    {
        let mut line = slice_to_vec(raw[i].as_slice());
        let n = line.len();
        if n > 0 {
            let last = line[n - 1];
            if last == '\r' {
                line.pop();
            }
        }
        proof {
            assert(line@ == strip_cr(raw@[i as int]@));
            assert(stripped_spec[i as int] == strip_cr(char_vec_views(raw@)[i as int]));
        }
        out.push(line);
        i += 1;
    }
    proof {
        assert(char_vec_views(out@) =~~= stripped_spec);
    }
    if out.len() > 0 {
        let last_len = out[out.len() - 1].len();
        if last_len == 0 {
            proof {
                assert(stripped_spec.last().len() == 0);
            }
            out.pop();
            proof {
                assert(char_vec_views(out@) =~~= stripped_spec.drop_last());
            }
        }
    }
    proof {
        assert(char_vec_views(out@) =~~= csv_lines(body@));
    }
    out
}

/// A field as a cell: empty text is a missing value.
pub open spec fn cell_of(f: Seq<char>) -> Option<Seq<char>> {
    if f.len() == 0 {
        Option::None
    } else {
        Option::Some(f)
    }
}

/// The cells of one data line.
pub open spec fn cells_of_line(l: Seq<char>) -> Seq<Option<Seq<char>>> {
    split_on(l, ',').map_values(|f: Seq<char>| cell_of(f))
}

/// A decimal digit.
pub open spec fn is_digit(c: char) -> bool {
    '0' <= c && c <= '9'
}

/// The text after an optional leading minus sign.
pub open spec fn unsigned_part(s: Seq<char>) -> Seq<char> {
    if s.len() > 0 && s[0] == '-' {
        s.skip(1)
    } else {
        s
    }
}

/// At least one character, all of them digits.
pub open spec fn is_uint_lit(u: Seq<char>) -> bool {
    u.len() > 0 && forall|i: int| 0 <= i < u.len() ==> is_digit(#[trigger] u[i])
}

/// An integer literal: an optional minus sign, then one or more digits.
pub open spec fn is_int_lit(s: Seq<char>) -> bool {
    is_uint_lit(unsigned_part(s))
}

/// One decimal point, every other character a digit, and at least one digit.
pub open spec fn is_ufloat_lit(u: Seq<char>) -> bool {
    u.len() >= 2 && exists|i: int|
        0 <= i < u.len() && u[i] == '.' && (forall|j: int|
            0 <= j < u.len() && j != i ==> is_digit(#[trigger] u[j]))
}

/// A float literal: an optional minus sign, then digits with one decimal
/// point among them.
pub open spec fn is_float_lit(s: Seq<char>) -> bool {
    is_ufloat_lit(unsigned_part(s))
}

fn unsigned_of(s: &str) -> (u: Vec<char>)
    ensures
        u@ == unsigned_part(s@),
{
    let v = chars_of(s);
    if v.len() > 0 {
        let c0 = v[0];
        if c0 == '-' {
            let tail = slice_to_vec(slice_subrange(v.as_slice(), 1, v.len()));
            proof {
                assert(tail@ =~= s@.skip(1));
            }
            return tail;
        }
    }
    v
}

fn check_digit(c: char) -> (r: bool)
    ensures
        r == is_digit(c),
{
    c >= '0' && c <= '9'
}

fn check_uint(u: &Vec<char>) -> (r: bool)
    ensures
        r == is_uint_lit(u@),
{
    if u.len() == 0 {
        return false;
    }
    let mut i: usize = 0;
    while i < u.len()
        invariant
            i <= u@.len(),
            forall|k: int| 0 <= k < i ==> is_digit(#[trigger] u@[k]),
        decreases u@.len() - i,
    {
        if !check_digit(u[i]) {
            return false;
        }
        i += 1;
    }
    true
}

/// Decides whether the text is an integer literal.
pub fn check_int_lit(s: &str) -> (r: bool)
    ensures
        r == is_int_lit(s@),
{
    let u = unsigned_of(s);
    check_uint(&u)
}

fn find_dot(u: &Vec<char>) -> (r: Option<usize>)
    ensures
        r matches Some(d) ==> d < u@.len() && u@[d as int] == '.',
        r is None ==> forall|k: int| 0 <= k < u@.len() ==> u@[k] != '.',
{
    let mut d: usize = 0;
    while d < u.len()
        invariant
            d <= u@.len(),
            forall|k: int| 0 <= k < d ==> u@[k] != '.',
        decreases u@.len() - d,
    {
        if u[d] == '.' {
            return Some(d);
        }
        d += 1;
    }
    None
}

fn check_ufloat(u: &Vec<char>) -> (r: bool)
    ensures
        r == is_ufloat_lit(u@),
{
    if u.len() < 2 {
        return false;
    }
    let d = match find_dot(u) {
        Option::Some(d) => d,
        Option::None => {
            proof {
                let uu = u@;
                assert_by_contradiction!(!is_ufloat_lit(uu), {
                    let i = choose|i: int|
                        0 <= i < uu.len() && uu[i] == '.' && (forall|k: int|
                            0 <= k < uu.len() && k != i ==> is_digit(#[trigger] uu[k]));
                    assert(uu[i] != '.');
                });
            }
            return false;
        },
    };
    let mut j: usize = 0;
    while j < u.len()
        invariant
            j <= u@.len(),
            u@.len() >= 2,
            d < u@.len(),
            u@[d as int] == '.',
            forall|k: int| 0 <= k < j && k != d ==> is_digit(#[trigger] u@[k]),
        decreases u@.len() - j,
    {
        if j != d {
            if !check_digit(u[j]) {
                proof {
                    let uu = u@;
                    assert_by_contradiction!(!is_ufloat_lit(uu), {
                        let i = choose|i: int|
                            0 <= i < uu.len() && uu[i] == '.' && (forall|k: int|
                                0 <= k < uu.len() && k != i ==> is_digit(#[trigger] uu[k]));
                        if i == d {
                            assert(is_digit(uu[j as int]));
                        } else {
                            assert(is_digit(uu[d as int]));
                        }
                    });
                }
                return false;
            }
        }
        j += 1;
    }
    proof {
        assert(is_ufloat_lit(u@));
    }
    true
}

/// Decides whether the text is a float literal.
pub fn check_float_lit(s: &str) -> (r: bool)
    ensures
        r == is_float_lit(s@),
{
    let u = unsigned_of(s);
    check_ufloat(&u)
}

/// View of an optional cell.
pub open spec fn opt_cell_view(c: Option<String>) -> Option<Seq<char>> {
    match c {
        Option::None => Option::None,
        Option::Some(s) => Option::Some(s@),
    }
}

/// View of one data row.
pub open spec fn row_views(r: Seq<Option<String>>) -> Seq<Option<Seq<char>>> {
    r.map_values(|c: Option<String>| opt_cell_view(c))
}

/// View of all data rows.
pub open spec fn rows_views(rs: Seq<Vec<Option<String>>>) -> Seq<Seq<Option<Seq<char>>>> {
    rs.map_values(|r: Vec<Option<String>>| row_views(r@))
}

/// The cells of one column, over all rows.
pub open spec fn column_cells(rows: Seq<Seq<Option<Seq<char>>>>, j: int) -> Seq<
    Option<Seq<char>>,
> {
    rows.map_values(|r: Seq<Option<Seq<char>>>| r[j])
}

/// The type inferred for a column: integral when every present cell is an
/// integer literal, floating when every present cell is numeric, textual
/// otherwise. A column with no present cells is integral.
pub open spec fn infer_type(cells: Seq<Option<Seq<char>>>) -> ColType {
    if forall|i: int|
        0 <= i < cells.len() ==> (#[trigger] cells[i] matches Option::Some(s) ==> is_int_lit(s)) {
        ColType::IntCol
    } else if forall|i: int|
        0 <= i < cells.len() ==> (#[trigger] cells[i] matches Option::Some(s) ==> is_int_lit(s)
            || is_float_lit(s)) {
        ColType::FloatCol
    } else {
        ColType::StrCol
    }
}

fn infer_column(rows: &Vec<Vec<Option<String>>>, j: usize) -> (r: ColType)
    requires
        forall|i: int| 0 <= i < rows@.len() ==> j < (#[trigger] rows@[i])@.len(),
    ensures
        r == infer_type(column_cells(rows_views(rows@), j as int)),
{
    let ghost col = column_cells(rows_views(rows@), j as int);
    let mut all_int = true;
    let mut all_num = true;
    let mut i: usize = 0;
    while i < rows.len()
        invariant
            i <= rows@.len(),
            forall|k: int| 0 <= k < rows@.len() ==> j < (#[trigger] rows@[k])@.len(),
            col == column_cells(rows_views(rows@), j as int),
            all_int == (forall|k: int|
                0 <= k < i ==> (#[trigger] col[k] matches Option::Some(s) ==> is_int_lit(s))),
            all_num == (forall|k: int|
                0 <= k < i ==> (#[trigger] col[k] matches Option::Some(s) ==> is_int_lit(s)
                    || is_float_lit(s))),
        decreases rows@.len() - i,
    {
        let row = &rows[i];
        proof {
            assert(col[i as int] == row_views(rows@[i as int]@)[j as int]);
        }
        match &row[j] {
            Option::Some(s) => {
                let ci = check_int_lit(s.as_str());
                let cf = check_float_lit(s.as_str());
                all_int = all_int && ci;
                all_num = all_num && (ci || cf);
            },
            Option::None => {},
        }
        i += 1;
    }
    proof {
        assert(col.len() == rows@.len());
    }
    if all_int {
        ColType::IntCol
    } else if all_num {
        ColType::FloatCol
    } else {
        ColType::StrCol
    }
}

/// The body decodes to a table: at least a header line, and every data line
/// with exactly as many fields as the header.
pub open spec fn csv_shape_ok(s: Seq<char>) -> bool {
    let ls = csv_lines(s);
    &&& ls.len() >= 1
    &&& forall|i: int|
        1 <= i < ls.len() ==> split_on(#[trigger] ls[i], ',').len() == split_on(ls[0], ',').len()
}

/// The cells of one column of a decoded table.
pub open spec fn table_column(t: Table, j: int) -> Seq<Option<Seq<char>>> {
    column_cells(rows_views(t.rows@), j)
}

/// The table is the decode of the body: headers from the first line, one
/// row per later line with empty fields missing, and one inferred type per
/// column.
pub open spec fn decodes_to(s: Seq<char>, t: Table) -> bool {
    let ls = csv_lines(s);
    &&& t.wf()
    &&& str_views(t.headers@) == split_on(ls[0], ',')
    &&& t.rows@.len() == ls.len() - 1
    &&& forall|i: int|
        0 <= i < t.rows@.len() ==> row_views((#[trigger] t.rows@[i])@) == cells_of_line(
            ls[i + 1],
        )
    &&& forall|j: int|
        0 <= j < t.dtypes@.len() ==> t.dtypes@[j] == infer_type(table_column(t, j))
}

/// Decodes a CSV body into a table. Succeeds exactly when the body has a
/// header line and no ragged data line; the header gives the column names,
/// every later line gives one row, empty fields become missing values, and
/// each column's type is inferred from its present cells.
pub fn decode_csv(body: &str) -> (r: Result<Table, ApiError>)
    ensures
        r is Ok <==> csv_shape_ok(body@),
        r is Err ==> r == Err::<Table, ApiError>(ApiError::InvalidData),
        r matches Ok(t) ==> decodes_to(body@, t),
{
    let ghost ls = csv_lines(body@);
    let body_chars = chars_of(body);
    let lines = split_into_lines(&body_chars);
    if lines.len() == 0 {
        return Err(ApiError::InvalidData);
    }
    let header_fields = split_chars(lines[0].as_slice(), ',');
    let width = header_fields.len();

    let mut headers: Vec<String> = Vec::new();
    let mut h: usize = 0;
    while h < header_fields.len()
        invariant
            h <= header_fields@.len(),
            headers@.len() == h,
            forall|k: int| 0 <= k < h ==> (#[trigger] headers@[k])@ == char_vec_views(
                header_fields@,
            )[k],
        decreases header_fields@.len() - h,
    {
        headers.push(string_from_chars(&header_fields[h]));
        h += 1;
    }
    proof {
        assert(str_views(headers@) =~~= split_on(ls[0], ','));
    }

    let mut rows: Vec<Vec<Option<String>>> = Vec::new();
    let mut i: usize = 1;
    while i < lines.len()
        invariant
            1 <= i <= lines@.len(),
            ls == csv_lines(body@),
            char_vec_views(lines@) == ls,
            width == split_on(ls[0], ',').len(),
            rows@.len() == i - 1,
            forall|k: int| 0 <= k < i - 1 ==> (#[trigger] rows@[k])@.len() == width,
            forall|k: int| 0 <= k < i - 1 ==> row_views((#[trigger] rows@[k])@) == cells_of_line(
                ls[k + 1],
            ),
        decreases lines@.len() - i,
    {
        let fields = split_chars(lines[i].as_slice(), ',');
        if fields.len() != width {
            proof {
                assert(char_vec_views(lines@)[i as int] == lines@[i as int]@);
                assert(char_vec_views(fields@) == split_on(ls[i as int], ','));
                assert(char_vec_views(fields@).len() == fields@.len());
                assert(split_on(ls[i as int], ',').len() != split_on(ls[0], ',').len());
                assert(char_vec_views(lines@).len() == lines@.len());
                assert((1 <= i as int) && ((i as int) < ls.len()));
                assert_by_contradiction!(!csv_shape_ok(body@), {
                    assert(csv_lines(body@) == ls);
                    assert(split_on(csv_lines(body@)[i as int], ',').len() == split_on(
                        csv_lines(body@)[0],
                        ',',
                    ).len());
                    assert(split_on(ls[i as int], ',').len() == split_on(ls[0], ',').len());
                });
            }
            return Err(ApiError::InvalidData);
        }
        let mut row: Vec<Option<String>> = Vec::new();
        let mut t: usize = 0;
        while t < fields.len()
            invariant
                t <= fields@.len(),
                row@.len() == t,
                forall|k: int| 0 <= k < t ==> opt_cell_view(#[trigger] row@[k]) == cell_of(
                    char_vec_views(fields@)[k],
                ),
            decreases fields@.len() - t,
        {
            if fields[t].len() == 0 {
                row.push(None);
            } else {
                row.push(Some(string_from_chars(&fields[t])));
            }
            t += 1;
        }
        proof {
            assert(row_views(row@) =~~= cells_of_line(ls[i as int]));
        }
        rows.push(row);
        i += 1;
    }

    let mut dtypes: Vec<ColType> = Vec::new();
    let mut j: usize = 0;
    while j < width
        invariant
            j <= width,
            forall|k: int| 0 <= k < rows@.len() ==> (#[trigger] rows@[k])@.len() == width,
            dtypes@.len() == j,
            forall|k: int|
                0 <= k < j ==> dtypes@[k] == infer_type(column_cells(rows_views(rows@), k)),
        decreases width - j,
    {
        dtypes.push(infer_column(&rows, j));
        j += 1;
    }

    proof {
        assert forall|i2: int| 1 <= i2 < ls.len() implies split_on(
            #[trigger] ls[i2],
            ',',
        ).len() == split_on(ls[0], ',').len() by {
            let k = i2 - 1;
            assert(row_views(rows@[k]@) == cells_of_line(ls[i2]));
            assert(row_views(rows@[k]@).len() == rows@[k]@.len());
            assert(cells_of_line(ls[i2]).len() == split_on(ls[i2], ',').len());
            assert(rows@[k]@.len() == width);
        }
        assert(csv_shape_ok(body@));
    }
    let t = Table { headers, dtypes, rows };
    proof {
        assert(t.wf());
    }
    Ok(t)
}

} // verus!
