//! The per-format summarizers and the file-type dispatcher: each one
//! normalizes a source into a header plus data rows and hands them to the
//! preview builder.
use vstd::prelude::*;
use crate::adapters::{
    csv_header_of, csv_header_ok, csv_records_of, mat_arrays_of, mat_ok, read_csv_header,
    read_csv_records, read_mat_arrays, read_xlsx_rows, xlsx_ok, xlsx_rows_of, MatClass,
};
use crate::errors::DataError;
use crate::preview::{
    build_preview, is_preview_of, MatArrayMeta, Preview,
};
use crate::text::{column_name, spec_column_name, str_eq};
use vstd::string::StringExecFns;

verus! {

/// The header the delimited-text adapter reads eagerly: only header mode
/// `file` takes names from the source's first record.
pub open spec fn delimited_header(data: Seq<u8>, delimiter: u8, mode: Seq<char>) -> Option<
    Seq<Seq<char>>,
> {
    if mode == "file"@ {
        Some(csv_header_of(data, delimiter))
    } else {
        None
    }
}

/// The data rows of a delimited source: the first record counts as a header
/// (and is skipped) in every mode but `none`.
pub open spec fn delimited_rows(data: Seq<u8>, delimiter: u8, mode: Seq<char>) -> Seq<
    Seq<Seq<char>>,
> {
    csv_records_of(data, delimiter, mode != "none"@)
}

/// Summarizes a delimited-text source held in memory.
///
/// The only failure is a header record that cannot be read in mode `file`;
/// every other input yields a preview.
pub fn summarize_delimited(
    data: &[u8],
    delimiter: u8,
    header_mode: &str,
    custom: &Option<Vec<String>>,
) -> (r: Result<Preview, DataError>)
    ensures
        r is Ok <==> (header_mode@ == "file"@ ==> csv_header_ok(data@, delimiter)),
        r matches Ok(p) ==> is_preview_of(
            p,
            delimited_header(data@, delimiter, header_mode@),
            header_mode@,
            custom.deep_view(),
            delimited_rows(data@, delimiter, header_mode@),
        ),
        r matches Err(e) ==> header_mode@ == "file"@ && e matches DataError::Format(_),
{
    let header: Option<Vec<String>> = if str_eq(header_mode, "file") {
        match read_csv_header(data, delimiter) {
            Ok(h) => Some(h),
            Err(m) => {
                return Err(DataError::Format(m));
            },
        }
    } else {
        None
    };
    let skip_first = !str_eq(header_mode, "none");
    let rows = read_csv_records(data, delimiter, skip_first);
    Ok(build_preview(header, header_mode, custom, &rows))
}

/// The header names a spreadsheet's first row yields in mode `file`: a cell
/// that renders empty gets a positional fallback name.
pub open spec fn xlsx_header_names(row: Seq<Seq<char>>) -> Seq<Seq<char>> {
    Seq::new(
        row.len(),
        |i: int|
            if row[i].len() == 0 {
                spec_column_name(i as nat)
            } else {
                row[i]
            },
    )
}

/// The header of a spreadsheet source: mode `file` consumes the first row
/// (when there is one), every other mode reads no header at all.
pub open spec fn spreadsheet_header(rows: Seq<Seq<Seq<char>>>, mode: Seq<char>) -> Option<
    Seq<Seq<char>>,
> {
    if mode == "file"@ {
        if rows.len() > 0 {
            Some(xlsx_header_names(rows[0]))
        } else {
            Some(Seq::empty())
        }
    } else {
        None
    }
}

/// The data rows of a spreadsheet source: everything after the consumed
/// header row in mode `file`, and every row otherwise.
pub open spec fn spreadsheet_data(rows: Seq<Seq<Seq<char>>>, mode: Seq<char>) -> Seq<
    Seq<Seq<char>>,
> {
    if mode == "file"@ && rows.len() > 0 {
        rows.drop_first()
    } else {
        rows
    }
}

/// Builds the header names of a spreadsheet's first row.
fn xlsx_header_row(row: &Vec<String>) -> (r: Vec<String>)
    ensures
        r.deep_view() == xlsx_header_names(row.deep_view()),
{
    let mut out: Vec<String> = Vec::new();
    let mut i: usize = 0;
    while i < row.len()
        invariant
            i <= row@.len(),
            out@.len() == i,
            forall|j: int| 0 <= j < i ==> (#[trigger] out@[j])@ == xlsx_header_names(
                row.deep_view(),
            )[j],
        decreases row@.len() - i,
    {
        let name = if row[i].as_str().is_empty() {
            column_name(i)
        } else {
            row[i].clone()
        };
        let ghost pre = out@;
        out.push(name);
        proof {
            assert forall|j: int| 0 <= j < i + 1 implies (#[trigger] out@[j])@
                == xlsx_header_names(row.deep_view())[j] by {
                if j < i {
                    assert(out@[j] == pre[j]);
                } else {
                    assert(out@[j] == name);
                }
            }
        }
        i += 1;
    }
    proof {
        assert forall|j: int| 0 <= j < out@.len() implies out.deep_view()[j] == xlsx_header_names(
            row.deep_view(),
        )[j] by {
            assert(out.deep_view()[j] == out@[j]@);
        }
        assert(out.deep_view() =~= xlsx_header_names(row.deep_view()));
    }
    out
}

/// Summarizes a spreadsheet workbook held in memory: first worksheet only,
/// every cell reduced to its display text. Fails exactly when the workbook
/// cannot be opened, has no worksheet, or its first worksheet cannot be
/// parsed.
pub fn summarize_spreadsheet(data: &[u8], header_mode: &str, custom: &Option<Vec<String>>) -> (r:
    Result<Preview, DataError>)
    ensures
        r is Ok <==> xlsx_ok(data@),
        r matches Ok(p) ==> is_preview_of(
            p,
            spreadsheet_header(xlsx_rows_of(data@), header_mode@),
            header_mode@,
            custom.deep_view(),
            spreadsheet_data(xlsx_rows_of(data@), header_mode@),
        ),
        r matches Err(e) ==> e matches DataError::Format(_),
{
    let mut all = match read_xlsx_rows(data) {
        Ok(r) => r,
        Err(m) => {
            return Err(DataError::Format(m));
        },
    };
    let ghost whole = all.deep_view();
    let header: Option<Vec<String>> = if str_eq(header_mode, "file") {
        if all.len() > 0 {
            let first = all.remove(0);
            proof {
                assert forall|j: int| 0 <= j < all@.len() implies #[trigger] all.deep_view()[j]
                    == whole.drop_first()[j] by {
                    assert(all.deep_view()[j] == all@[j].deep_view());
                }
                assert(all.deep_view() =~= whole.drop_first());
                assert(first.deep_view() == whole[0]);
            }
            Some(xlsx_header_row(&first))
        } else {
            let empty: Vec<String> = Vec::new();
            proof {
                assert(empty.deep_view() =~= Seq::<Seq<char>>::empty());
            }
            Some(empty)
        }
    } else {
        None
    };
    Ok(build_preview(header, header_mode, custom, &all))
}

/// Copies a shape vector.
fn copy_usizes(v: &Vec<usize>) -> (r: Vec<usize>)
    ensures
        r@ == v@,
{
    let mut out: Vec<usize> = Vec::new();
    let mut i: usize = 0;
    while i < v.len()
        invariant
            i <= v@.len(),
            out@ == v@.take(i as int),
        decreases v@.len() - i,
    {
        out.push(v[i]);
        proof {
            assert(out@ =~= v@.take(i + 1));
        }
        i += 1;
    }
    proof {
        assert(out@ =~= v@);
    }
    out
}

/// What it means for `m` to report the arrays of a matrix container.
pub open spec fn is_mat_metadata_of(
    m: Seq<MatArrayMeta>,
    arrays: Seq<(Seq<char>, Seq<usize>, MatClass)>,
) -> bool {
    &&& m.len() == arrays.len()
    &&& forall|i: int|
        0 <= i < m.len() ==> {
            &&& (#[trigger] m[i]).name@ == arrays[i].0
            &&& m[i].shape@ == arrays[i].1
            &&& m[i].class == arrays[i].2
        }
}

/// Summarizes a binary matrix container held in memory: no rows, no
/// columns, only per-array shape and element class. Array payloads are
/// never materialized into the preview. Fails exactly when the container
/// structure cannot be parsed.
pub fn summarize_matrix(data: &[u8]) -> (r: Result<Preview, DataError>)
    ensures
        r is Ok <==> mat_ok(data@),
        r matches Ok(p) ==> {
            &&& p.columns@.len() == 0
            &&& p.sample_rows@.len() == 0
            &&& p.rows_seen == 0
            &&& p.metadata matches Some(m) && is_mat_metadata_of(m@, mat_arrays_of(data@))
        },
        r matches Err(e) ==> e matches DataError::Format(_),
{
    let arrays = match read_mat_arrays(data) {
        Ok(a) => a,
        Err(m) => {
            return Err(DataError::Format(m));
        },
    };
    let mut meta: Vec<MatArrayMeta> = Vec::new();
    let mut i: usize = 0;
    while i < arrays.len()
        invariant
            i <= arrays@.len(),
            meta@.len() == i,
            arrays@.len() == mat_arrays_of(data@).len(),
            forall|j: int|
                0 <= j < arrays@.len() ==> {
                    &&& (#[trigger] arrays@[j]).0@ == mat_arrays_of(data@)[j].0
                    &&& arrays@[j].1@ == mat_arrays_of(data@)[j].1
                    &&& arrays@[j].2 == mat_arrays_of(data@)[j].2
                },
            forall|j: int|
                0 <= j < i ==> {
                    &&& (#[trigger] meta@[j]).name@ == mat_arrays_of(data@)[j].0
                    &&& meta@[j].shape@ == mat_arrays_of(data@)[j].1
                    &&& meta@[j].class == mat_arrays_of(data@)[j].2
                },
        decreases arrays@.len() - i,
    {
        let name = arrays[i].0.clone();
        let shape = copy_usizes(&arrays[i].1);
        let class = arrays[i].2;
        meta.push(MatArrayMeta { name, shape, class });
        i += 1;
    }
    Ok(
        Preview {
            columns: Vec::new(),
            sample_rows: Vec::new(),
            rows_seen: 0,
            metadata: Some(meta),
        },
    )
}

/// Whether a file type tag names a delimited-text source.
pub open spec fn is_delimited_type(t: Seq<char>) -> bool {
    t == "csv"@ || t == "txt"@ || t == "dat"@
}

/// Whether the summarizer supports a file type tag at all.
pub open spec fn is_supported_type(t: Seq<char>) -> bool {
    is_delimited_type(t) || t == "excel"@ || t == "mat"@
}

/// Summarizes one source of any supported file type. An unknown tag fails
/// with an unsupported-type error carrying the offending tag.
pub fn summarize_file(
    data: &[u8],
    file_type: &str,
    header_mode: &str,
    custom: &Option<Vec<String>>,
    delimiter: u8,
) -> (r: Result<Preview, DataError>)
    ensures
        is_delimited_type(file_type@) ==> {
            &&& (r is Ok <==> (header_mode@ == "file"@ ==> csv_header_ok(data@, delimiter)))
            &&& (r matches Ok(p) ==> is_preview_of(
                p,
                delimited_header(data@, delimiter, header_mode@),
                header_mode@,
                custom.deep_view(),
                delimited_rows(data@, delimiter, header_mode@),
            ))
            &&& (r matches Err(e) ==> header_mode@ == "file"@ && e matches DataError::Format(_))
        },
        file_type@ == "excel"@ ==> {
            &&& (r is Ok <==> xlsx_ok(data@))
            &&& (r matches Ok(p) ==> is_preview_of(
                p,
                spreadsheet_header(xlsx_rows_of(data@), header_mode@),
                header_mode@,
                custom.deep_view(),
                spreadsheet_data(xlsx_rows_of(data@), header_mode@),
            ))
            &&& (r matches Err(e) ==> e matches DataError::Format(_))
        },
        file_type@ == "mat"@ ==> {
            &&& (r is Ok <==> mat_ok(data@))
            &&& (r matches Ok(p) ==> {
                &&& p.columns@.len() == 0
                &&& p.sample_rows@.len() == 0
                &&& p.rows_seen == 0
                &&& p.metadata matches Some(m) && is_mat_metadata_of(m@, mat_arrays_of(data@))
            })
            &&& (r matches Err(e) ==> e matches DataError::Format(_))
        },
        !is_supported_type(file_type@) ==> (r matches Err(e) && (e matches DataError::Unsupported(t)
            && t@ == file_type@)),
{
    proof {
        reveal_strlit("csv");
        reveal_strlit("txt");
        reveal_strlit("dat");
        reveal_strlit("excel");
        reveal_strlit("mat");
        assert("csv"@.len() == 3 && "txt"@.len() == 3 && "dat"@.len() == 3 && "excel"@.len() == 5
            && "mat"@.len() == 3);
        assert("csv"@[0] == 'c' && "txt"@[0] == 't' && "dat"@[0] == 'd' && "mat"@[0] == 'm');
    }
    if str_eq(file_type, "csv") || str_eq(file_type, "txt") || str_eq(file_type, "dat") {
        summarize_delimited(data, delimiter, header_mode, custom)
    } else if str_eq(file_type, "excel") {
        summarize_spreadsheet(data, header_mode, custom)
    } else if str_eq(file_type, "mat") {
        summarize_matrix(data)
    } else {
        Err(DataError::Unsupported(String::from_str(file_type)))
    }
}

} // verus!
