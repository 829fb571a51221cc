//! Building the warehouse SQL statements: the compute half of the SQL
//! output path. Sending statements and decoding their responses happens
//! outside the library; the statement text, the batching and the
//! response decisions are verified here.

use vstd::prelude::*;
use crate::csvfmt::{spec_i32_text, spec_tenths_text, i32_text, tenths_text};
use crate::rows::{rows_view, PrecipitationRow, RowView};
use crate::text::{spec_u64_dec, str_eq, u64_dec};

verus! {

/// Single quotes doubled, every other character kept: SQL string
/// literal escaping.
pub open spec fn spec_escaped(s: Seq<char>) -> Seq<char>
    decreases s.len(),
{
    if s.len() == 0 {
        Seq::empty()
    } else {
        spec_escaped(s.drop_last()) + (if s.last() == '\'' {
            seq!['\'', '\'']
        } else {
            seq![s.last()]
        })
    }
}

/// Escape a text for use inside a SQL string literal.
pub fn escape_quotes(s: &str) -> (r: String)
    ensures
        r@ == spec_escaped(s@),
{
    let n = s.unicode_len();
    let mut out = String::new();
    let mut seg: usize = 0;
    let mut i: usize = 0;
    proof {
        assert(s@.take(0) =~= Seq::<char>::empty());
        assert(s@.subrange(0, 0) =~= Seq::<char>::empty());
    }
    while i < n
        invariant
            n == s@.len(),
            seg <= i <= n,
            forall|j: int| seg <= j < i ==> s@[j] != '\'',
            out@ + s@.subrange(seg as int, i as int) == spec_escaped(s@.take(i as int)),
        decreases n - i,
    {
        proof {
            assert(s@.take(i + 1).drop_last() =~= s@.take(i as int));
            assert(s@.take(i + 1).last() == s@[i as int]);
        }
        if s.get_char(i) == '\'' {
            let piece = s.substring_char(seg, i);
            out.append(piece);
            out.append("''");
            proof {
                reveal_strlit("''");
                assert("''"@ =~= seq!['\'', '\'']);
                assert(out@ =~= spec_escaped(s@.take(i + 1)));
                assert(s@.subrange(i + 1, i + 1) =~= Seq::<char>::empty());
            }
            seg = i + 1;
        } else {
            proof {
                assert(s@.subrange(seg as int, i + 1) =~= s@.subrange(seg as int, i as int)
                    + seq![s@[i as int]]);
            }
        }
        i += 1;
    }
    let tail = s.substring_char(seg, n);
    out.append(tail);
    proof {
        assert(s@.take(n as int) =~= s@);
    }
    out
}

/// `NULL`, or the amount in decimal.
pub open spec fn spec_sql_tenths(o: Option<u64>) -> Seq<char> {
    match o {
        Some(v) => spec_tenths_text(v as int),
        None => "NULL"@,
    }
}

/// `NULL`, or the code in decimal.
pub open spec fn spec_sql_i32(o: Option<i32>) -> Seq<char> {
    match o {
        Some(v) => spec_i32_text(v as int),
        None => "NULL"@,
    }
}

/// One row's VALUES tuple: quoted text fields (the display name
/// escaped), the two numbers or NULL, and the ingestion timestamp.
pub open spec fn spec_row_values(r: RowView) -> Seq<char> {
    "('"@ + r.station_id + "', '"@ + spec_escaped(r.station_name) + "', '"@ + r.el_area + "', '"@
        + r.reference_time + "', "@ + spec_sql_tenths(r.precipitation_tenths_mm) + ", "@
        + spec_sql_i32(r.quality_code) + ", CURRENT_TIMESTAMP())"@
}

/// Render one row's VALUES tuple.
pub fn row_values(row: &PrecipitationRow) -> (r: String)
    ensures
        r@ == spec_row_values(row@),
{
    let mut s = String::from_str("('");
    s.append(row.station_id.as_str());
    s.append("', '");
    let escaped = escape_quotes(row.station_name.as_str());
    s.append(escaped.as_str());
    s.append("', '");
    s.append(row.el_area.as_str());
    s.append("', '");
    s.append(row.reference_time.as_str());
    s.append("', ");
    match row.precipitation_tenths_mm {
        Some(v) => {
            let t = tenths_text(v);
            s.append(t.as_str());
        },
        None => {
            s.append("NULL");
        },
    }
    s.append(", ");
    match row.quality_code {
        Some(v) => {
            let t = i32_text(v);
            s.append(t.as_str());
        },
        None => {
            s.append("NULL");
        },
    }
    s.append(", CURRENT_TIMESTAMP())");
    proof {
        assert(s@ =~= spec_row_values(row@));
    }
    s
}

/// The VALUES tuples of a batch, joined by commas, in order.
pub open spec fn spec_values_joined(rows: Seq<RowView>) -> Seq<char>
    decreases rows.len(),
{
    if rows.len() == 0 {
        Seq::empty()
    } else if rows.len() == 1 {
        spec_row_values(rows[0])
    } else {
        spec_values_joined(rows.drop_last()) + ", "@ + spec_row_values(rows.last())
    }
}

/// The full INSERT statement for one batch of rows.
pub open spec fn spec_insert_statement(catalog: Seq<char>, rows: Seq<RowView>) -> Seq<char> {
    "INSERT INTO "@ + catalog
        + ".raw_frost.precipitation (station_id, station_name, el_area, reference_time, precipitation_mm, quality_code, ingested_at) VALUES "@
        + spec_values_joined(rows)
}

/// Render the INSERT statement for one non-empty batch.
pub fn insert_statement(catalog: &str, batch: &Vec<PrecipitationRow>) -> (r: String)
    requires
        batch@.len() >= 1,
    ensures
        r@ == spec_insert_statement(catalog@, rows_view(batch@)),
{
    let mut s = String::from_str("INSERT INTO ");
    s.append(catalog);
    s.append(
        ".raw_frost.precipitation (station_id, station_name, el_area, reference_time, precipitation_mm, quality_code, ingested_at) VALUES ",
    );
    let mut i: usize = 0;
    let mut vals = String::new();
    proof {
        assert(batch@.take(0) =~= Seq::<PrecipitationRow>::empty());
    }
    while i < batch.len()
        invariant
            i <= batch@.len(),
            batch@.len() >= 1,
            vals@ == spec_values_joined(rows_view(batch@.take(i as int))),
        decreases batch@.len() - i,
    {
        proof {
            assert(batch@.take(i + 1).drop_last() =~= batch@.take(i as int));
            assert(batch@.take(i + 1).last() == batch@[i as int]);
            crate::rows::lemma_rows_view_len(batch@.take(i + 1));
            crate::rows::lemma_rows_view_len(batch@.take(i as int));
            assert(rows_view(batch@.take(i + 1)).drop_last() =~= rows_view(batch@.take(i as int)));
        }
        if i > 0 {
            vals.append(", ");
        }
        let v = row_values(&batch[i]);
        vals.append(v.as_str());
        proof {
            if i == 0 {
                assert(rows_view(batch@.take(1)).len() == 1);
                assert(rows_view(batch@.take(1))[0] == batch@[0]@);
                assert(vals@ =~= spec_values_joined(rows_view(batch@.take(1))));
            }
        }
        i += 1;
    }
    proof {
        assert(batch@.take(batch@.len() as int) =~= batch@);
    }
    s.append(vals.as_str());
    s
}

/// The batches' concatenation, in order.
pub open spec fn spec_batches_concat(bs: Seq<Vec<PrecipitationRow>>) -> Seq<PrecipitationRow>
    decreases bs.len(),
{
    if bs.len() == 0 {
        Seq::empty()
    } else {
        spec_batches_concat(bs.drop_last()) + bs.last()@
    }
}

/// Split rows into insertion batches: every batch non-empty and at most
/// `size` long, every batch but the last exactly `size` long, and the
/// batches concatenating back to the input in order.
pub fn batch_rows(rows: &Vec<PrecipitationRow>, size: usize) -> (r: Vec<Vec<PrecipitationRow>>)
    requires
        size >= 1,
    ensures
        spec_batches_concat(r@) == rows@,
        forall|b: int| 0 <= b < r@.len() ==> 1 <= (#[trigger] r@[b])@.len() <= size,
        forall|b: int| 0 <= b < r@.len() - 1 ==> (#[trigger] r@[b])@.len() == size,
{
    let mut out: Vec<Vec<PrecipitationRow>> = Vec::new();
    let mut cur: Vec<PrecipitationRow> = Vec::new();
    let mut i: usize = 0;
    proof {
        assert(rows@.take(0) =~= Seq::<PrecipitationRow>::empty());
        assert(spec_batches_concat(out@) + cur@ =~= Seq::<PrecipitationRow>::empty());
    }
    while i < rows.len()
        invariant
            size >= 1,
            i <= rows@.len(),
            cur@.len() < size,
            spec_batches_concat(out@) + cur@ == rows@.take(i as int),
            forall|b: int| 0 <= b < out@.len() ==> (#[trigger] out@[b])@.len() == size,
        decreases rows@.len() - i,
    {
        proof {
            assert(rows@.take(i + 1).drop_last() =~= rows@.take(i as int));
            assert(rows@.take(i + 1).last() == rows@[i as int]);
        }
        cur.push(rows[i].clone());
        if cur.len() == size {
            let ghost prev_out = out@;
            let full = cur;
            cur = Vec::new();
            out.push(full);
            proof {
                assert(out@.drop_last() =~= prev_out);
                assert(spec_batches_concat(out@) + cur@ =~= spec_batches_concat(out@));
                assert(spec_batches_concat(out@) =~= rows@.take(i + 1));
            }
        }
        i += 1;
    }
    proof {
        assert(rows@.take(rows@.len() as int) =~= rows@);
    }
    if cur.len() > 0 {
        let ghost prev_out = out@;
        out.push(cur);
        proof {
            assert(out@.drop_last() =~= prev_out);
        }
    }
    out
}

/// The statement that makes sure the schema exists.
pub fn create_schema_sql(catalog: &str) -> (r: String)
    ensures
        r@ == "CREATE SCHEMA IF NOT EXISTS "@ + catalog@ + ".raw_frost"@,
{
    let mut s = String::from_str("CREATE SCHEMA IF NOT EXISTS ");
    s.append(catalog);
    s.append(".raw_frost");
    s
}

/// The statement that makes sure the precipitation table exists.
pub fn create_table_sql(catalog: &str) -> (r: String)
    ensures
        r@ == "CREATE TABLE IF NOT EXISTS "@ + catalog@
            + ".raw_frost.precipitation (station_id STRING NOT NULL, station_name STRING NOT NULL, el_area STRING NOT NULL, reference_time DATE NOT NULL, precipitation_mm DOUBLE, quality_code INT, ingested_at TIMESTAMP)"@,
{
    let mut s = String::from_str("CREATE TABLE IF NOT EXISTS ");
    s.append(catalog);
    s.append(
        ".raw_frost.precipitation (station_id STRING NOT NULL, station_name STRING NOT NULL, el_area STRING NOT NULL, reference_time DATE NOT NULL, precipitation_mm DOUBLE, quality_code INT, ingested_at TIMESTAMP)",
    );
    s
}

/// The statement that clears the rows of a date range before re-insertion.
pub fn delete_range_sql(catalog: &str, from: &crate::dates::Date, to: &crate::dates::Date) -> (r:
    String)
    ensures
        r@ == "DELETE FROM "@ + catalog@ + ".raw_frost.precipitation WHERE reference_time >= '"@
            + crate::dates::spec_date_text(*from) + "' AND reference_time < '"@
            + crate::dates::spec_date_text(*to) + "'"@,
{
    let mut s = String::from_str("DELETE FROM ");
    s.append(catalog);
    s.append(".raw_frost.precipitation WHERE reference_time >= '");
    let f = from.render();
    s.append(f.as_str());
    s.append("' AND reference_time < '");
    let t = to.render();
    s.append(t.as_str());
    s.append("'");
    s
}

/// Decide what a statement execution's HTTP status means: `None` for
/// success, otherwise the failure text carrying status and body.
pub fn sql_http_error(status: u16, body: &str) -> (r: Option<String>)
    ensures
        200 <= status <= 299 ==> r is None,
        !(200 <= status <= 299) ==> (r matches Some(m) && m@ == "HTTP "@ + spec_u64_dec(
            status as int,
        ) + ": "@ + body@),
{
    if 200 <= status && status <= 299 {
        None
    } else {
        let mut s = String::from_str("HTTP ");
        let d = u64_dec(status as u64);
        s.append(d.as_str());
        s.append(": ");
        s.append(body);
        Some(s)
    }
}

/// Decide what a decoded statement response means: a `FAILED` state is
/// an error carrying the reported message, or a fixed text when the
/// report carries none; any other state passes.
pub fn sql_state_error(state: Option<String>, message: Option<String>) -> (r: Option<String>)
    ensures
        match state {
            Some(st) => {
                &&& st@ == "FAILED"@ ==> (match message {
                    Some(m) => r matches Some(rm) && rm@ == m@,
                    None => r matches Some(rm) && rm@ == "Unknown SQL error"@,
                })
                &&& st@ != "FAILED"@ ==> r is None
            },
            None => r is None,
        },
{
    match state {
        Some(st) => {
            if str_eq(st.as_str(), "FAILED") {
                match message {
                    Some(m) => Some(m),
                    None => Some(String::from_str("Unknown SQL error")),
                }
            } else {
                None
            }
        },
        None => None,
    }
}

} // verus!
