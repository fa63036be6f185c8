//! The preview summarizer: consumes the normalized rows of a source and
//! produces a bounded preview — the full column list, a small sample of rows
//! as ordered name/value pairs, and the total row count observed.
use vstd::prelude::*;
use crate::adapters::MatClass;
use crate::headers::{resolve_headers, spec_resolve_headers};
use crate::text::{column_name, spec_column_name};

verus! {

/// The number of sample rows a preview retains.
pub const SAMPLE_CAP: usize = 5;

/// Shape and element class of one named array of a binary matrix container.
#[derive(Debug, PartialEq)]
pub struct MatArrayMeta {
    pub name: String,
    pub shape: Vec<usize>,
    pub class: MatClass,
}

/// A bounded structural preview of a source.
#[derive(Debug, PartialEq)]
pub struct Preview {
    /// The resolved column names, in display order.
    pub columns: Vec<String>,
    /// At most [`SAMPLE_CAP`] rows, each an ordered list of name/value pairs.
    pub sample_rows: Vec<Vec<(String, String)>>,
    /// The total number of data rows observed; never capped at the sample size.
    pub rows_seen: usize,
    /// Array metadata; only populated for binary-matrix sources.
    pub metadata: Option<Vec<MatArrayMeta>>,
}

/// The name under which the cell at position `idx` is reported: the resolved
/// column name when one exists, else a positional fallback name.
pub open spec fn row_key(columns: Seq<Seq<char>>, idx: int) -> Seq<char> {
    if 0 <= idx < columns.len() {
        columns[idx]
    } else {
        spec_column_name(idx as nat)
    }
}

/// One sample row: every cell of the row, keyed by position.
pub open spec fn spec_row_pairs(columns: Seq<Seq<char>>, row: Seq<Seq<char>>) -> Seq<
    (Seq<char>, Seq<char>),
> {
    Seq::new(row.len(), |i: int| (row_key(columns, i), row[i]))
}

/// The column list of a preview: the source header when one was read
/// eagerly, and otherwise the header policy applied to the width of the
/// first data row — resolved once and never revisited.
pub open spec fn preview_columns(
    header: Option<Seq<Seq<char>>>,
    mode: Seq<char>,
    custom: Option<Seq<Seq<char>>>,
    rows: Seq<Seq<Seq<char>>>,
) -> Seq<Seq<char>> {
    match header {
        Some(h) => h,
        None => if rows.len() == 0 {
            Seq::empty()
        } else {
            spec_resolve_headers(mode, custom, rows[0].len())
        },
    }
}

/// How many sample rows a preview of `n` data rows holds.
pub open spec fn spec_sample_count(n: nat) -> nat {
    if n < 5 {
        n
    } else {
        5
    }
}

/// What it means for `p` to be the preview of a row source: the true total
/// row count, a sample of the first rows capped at [`SAMPLE_CAP`], and the
/// columns given by the header policy.
pub open spec fn is_preview_of(
    p: Preview,
    header: Option<Seq<Seq<char>>>,
    mode: Seq<char>,
    custom: Option<Seq<Seq<char>>>,
    rows: Seq<Seq<Seq<char>>>,
) -> bool {
    &&& p.rows_seen == rows.len()
    &&& p.metadata is None
    &&& p.columns.deep_view() == preview_columns(header, mode, custom, rows)
    &&& p.sample_rows@.len() == spec_sample_count(rows.len())
    &&& forall|i: int|
        0 <= i < p.sample_rows@.len() ==> p.sample_rows.deep_view()[i] == spec_row_pairs(
            preview_columns(header, mode, custom, rows),
            rows[i],
        )
}

/// Builds the ordered name/value pairs of one row: cells beyond the column
/// list get a positional fallback name instead of failing.
pub fn build_row_pairs(columns: &Vec<String>, row: &Vec<String>) -> (r: Vec<(String, String)>)
    ensures
        r.deep_view() == spec_row_pairs(columns.deep_view(), row.deep_view()),
{
    let mut out: Vec<(String, String)> = Vec::new();
    let mut i: usize = 0;
    while i < row.len()
        invariant
            i <= row@.len(),
            out@.len() == i,
            forall|j: int|
                0 <= j < i ==> (#[trigger] out@[j]).0@ == row_key(columns.deep_view(), j)
                    && out@[j].1@ == row@[j]@,
        decreases row@.len() - i,
    {
        let key = if i < columns.len() {
            columns[i].clone()
        } else {
            column_name(i)
        };
        proof {
            assert(key@ == row_key(columns.deep_view(), i as int));
        }
        let val = row[i].clone();
        let ghost pre = out@;
        out.push((key, val));
        proof {
            assert forall|j: int|
                0 <= j < i + 1 implies (#[trigger] out@[j]).0@ == row_key(columns.deep_view(), j)
                && out@[j].1@ == row@[j]@ by {
                if j < i {
                    assert(out@[j] == pre[j]);
                } else {
                    assert(out@[j] == (key, val));
                }
            }
        }
        i += 1;
    }
    proof {
        assert forall|j: int| 0 <= j < out@.len() implies out.deep_view()[j] == spec_row_pairs(
            columns.deep_view(),
            row.deep_view(),
        )[j] by {
            assert(out.deep_view()[j] == (out@[j].0@, out@[j].1@));
        }
        assert(out.deep_view() =~= spec_row_pairs(columns.deep_view(), row.deep_view()));
    }
    out
}

/// Builds a preview from an eagerly read header (if the policy read one)
/// and the data rows of the source. The scan reports the true total row
/// count even when the sample is already full.
pub fn build_preview(
    header: Option<Vec<String>>,
    mode: &str,
    custom: &Option<Vec<String>>,
    rows: &Vec<Vec<String>>,
) -> (p: Preview)
    ensures
        is_preview_of(p, header.deep_view(), mode@, custom.deep_view(), rows.deep_view()),
{
    let columns: Vec<String> = match header {
        Some(h) => h,
        None => {
            if rows.len() == 0 {
                Vec::new()
            } else {
                resolve_headers(mode, custom, rows[0].len())
            }
        },
    };
    proof {
        assert(columns.deep_view() == preview_columns(
            header.deep_view(),
            mode@,
            custom.deep_view(),
            rows.deep_view(),
        ));
    }
    let count = if rows.len() < SAMPLE_CAP {
        rows.len()
    } else {
        SAMPLE_CAP
    };
    let mut samples: Vec<Vec<(String, String)>> = Vec::new();
    let mut i: usize = 0;
    while i < count
        invariant
            i <= count,
            count == spec_sample_count(rows.deep_view().len()),
            count <= rows@.len(),
            samples@.len() == i,
            forall|j: int|
                0 <= j < i ==> (#[trigger] samples@[j]).deep_view() == spec_row_pairs(
                    columns.deep_view(),
                    rows.deep_view()[j],
                ),
        decreases count - i,
    {
        let pairs = build_row_pairs(&columns, &rows[i]);
        let ghost pre = samples@;
        samples.push(pairs);
        proof {
            assert(rows.deep_view()[i as int] == rows@[i as int].deep_view());
            assert forall|j: int|
                0 <= j < i + 1 implies (#[trigger] samples@[j]).deep_view() == spec_row_pairs(
                columns.deep_view(),
                rows.deep_view()[j],
            ) by {
                if j < i {
                    assert(samples@[j] == pre[j]);
                } else {
                    assert(samples@[j] == pairs);
                }
            }
        }
        i += 1;
    }
    proof {
        assert forall|j: int| 0 <= j < samples@.len() implies #[trigger] samples.deep_view()[j]
            == spec_row_pairs(columns.deep_view(), rows.deep_view()[j]) by {
            assert(samples.deep_view()[j] == samples@[j].deep_view());
        }
    }
    Preview { columns, sample_rows: samples, rows_seen: rows.len(), metadata: None }
}

} // verus!
