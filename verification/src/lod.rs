//! The level-of-detail preparation stage: parses the axis indices, checks
//! them against the header width, and extracts the axis cell pair of every
//! record in one pass. The floating-point aggregation over these pairs is
//! numeric work the verifier does not admit and lives with the embedding
//! code; everything that decides *which* cells reach it is verified here.
use vstd::prelude::*;
use crate::adapters::{csv_header_of, csv_header_ok, csv_records_of, read_csv_header, read_csv_records};
use crate::errors::DataError;
use crate::summary::is_delimited_type;
use crate::text::{parse_axis_index, spec_axis_index, str_eq};
use vstd::string::StringExecFns;

verus! {

/// The axis cell pairs retained for binning: for every record with a cell at
/// both axis positions, the text of those two cells, in record order.
/// Records too short for either axis are skipped silently.
pub open spec fn spec_axis_cells(rows: Seq<Seq<Seq<char>>>, x: int, y: int) -> Seq<
    (Seq<char>, Seq<char>),
>
    decreases rows.len(),
{
    if rows.len() == 0 {
        Seq::empty()
    } else {
        let rest = spec_axis_cells(rows.drop_last(), x, y);
        let r = rows.last();
        if x < r.len() && y < r.len() {
            rest.push((r[x], r[y]))
        } else {
            rest
        }
    }
}

/// Everything the binning pass needs from a delimited source: the header,
/// the resolved axis indices, and the raw cell text of every retained axis
/// pair.
#[derive(Debug, PartialEq)]
pub struct LodExtract {
    /// The header record of the source; always required for binning.
    pub headers: Vec<String>,
    /// The x axis column index.
    pub x_index: usize,
    /// The y axis column index.
    pub y_index: usize,
    /// The (x, y) cell text of every record that carries both cells.
    pub pairs: Vec<(String, String)>,
}

/// What a successful binning preparation reports: the source header, the
/// resolved axis indices (both within the header width), and exactly the
/// axis cell pairs of the records that carry both cells.
pub open spec fn is_lod_extract_of(
    e: LodExtract,
    data: Seq<u8>,
    delimiter: u8,
    x_axis: Seq<char>,
    y_axis: Seq<char>,
) -> bool {
    &&& e.headers.deep_view() == csv_header_of(data, delimiter)
    &&& e.x_index == spec_axis_index(x_axis, 0)
    &&& e.y_index == spec_axis_index(y_axis, 1)
    &&& e.x_index < e.headers@.len()
    &&& e.y_index < e.headers@.len()
    &&& e.pairs.deep_view() == spec_axis_cells(
        csv_records_of(data, delimiter, true),
        e.x_index as int,
        e.y_index as int,
    )
}

/// Whether both resolved axis indices lie within the header width of the
/// source.
pub open spec fn lod_axes_in_range(
    data: Seq<u8>,
    delimiter: u8,
    x_axis: Seq<char>,
    y_axis: Seq<char>,
) -> bool {
    &&& spec_axis_index(x_axis, 0) < csv_header_of(data, delimiter).len()
    &&& spec_axis_index(y_axis, 1) < csv_header_of(data, delimiter).len()
}

/// Which error the binning preparation raises: a format error exactly when
/// the header record cannot be read, and otherwise an axis-range error
/// exactly when an axis index lies at or beyond the header width.
pub open spec fn allowed_lod_error(
    err: DataError,
    data: Seq<u8>,
    delimiter: u8,
    x_axis: Seq<char>,
    y_axis: Seq<char>,
) -> bool {
    match err {
        DataError::AxisRange => csv_header_ok(data, delimiter) && !lod_axes_in_range(
            data,
            delimiter,
            x_axis,
            y_axis,
        ),
        DataError::Format(_) => !csv_header_ok(data, delimiter),
        _ => false,
    }
}

/// Reads a delimited source and prepares it for binning.
///
/// Axis indices arrive as text and fall back to columns 0 and 1 when they do
/// not parse — a deliberate leniency. An index at or beyond the header width
/// is rejected before any data is taken. It succeeds exactly when the header
/// record is readable and both indices lie within it.
pub fn lod_extract(data: &[u8], delimiter: u8, x_axis: &str, y_axis: &str) -> (r: Result<
    LodExtract,
    DataError,
>)
    ensures
        r is Ok <==> csv_header_ok(data@, delimiter) && lod_axes_in_range(
            data@,
            delimiter,
            x_axis@,
            y_axis@,
        ),
        r matches Ok(e) ==> is_lod_extract_of(e, data@, delimiter, x_axis@, y_axis@),
        r matches Err(err) ==> allowed_lod_error(err, data@, delimiter, x_axis@, y_axis@),
{
    let x_index = parse_axis_index(x_axis, 0);
    let y_index = parse_axis_index(y_axis, 1);
    let headers = match read_csv_header(data, delimiter) {
        Ok(h) => h,
        Err(m) => {
            return Err(DataError::Format(m));
        },
    };
    proof {
        assert(headers@.len() == csv_header_of(data@, delimiter).len());
    }
    if x_index >= headers.len() || y_index >= headers.len() {
        return Err(DataError::AxisRange);
    }
    let rows = read_csv_records(data, delimiter, true);
    let ghost rd = rows.deep_view();
    let mut pairs: Vec<(String, String)> = Vec::new();
    let mut i: usize = 0;
    while i < rows.len()
        invariant
            i <= rows@.len(),
            rd == rows.deep_view(),
            rd.len() == rows@.len(),
            pairs.deep_view() == spec_axis_cells(rd.take(i as int), x_index as int, y_index as int),
        decreases rows@.len() - i,
    {
        let row = &rows[i];
        proof {
            assert(rd[i as int] == rows@[i as int].deep_view());
            assert(rd[i as int].len() == row@.len());
            assert(rd.take(i + 1).drop_last() =~= rd.take(i as int));
            assert(rd.take(i + 1).last() == rd[i as int]);
        }
        if x_index < row.len() && y_index < row.len() {
            let xv = row[x_index].clone();
            let yv = row[y_index].clone();
            proof {
                assert(xv@ == rd[i as int][x_index as int]);
                assert(yv@ == rd[i as int][y_index as int]);
            }
            let ghost pre = pairs.deep_view();
            pairs.push((xv, yv));
            proof {
                assert forall|j: int| 0 <= j < pairs@.len() implies #[trigger] pairs.deep_view()[j]
                    == pre.push((xv@, yv@))[j] by {
                    assert(pairs.deep_view()[j] == pairs@[j].deep_view());
                }
                assert(pairs.deep_view() =~= pre.push((xv@, yv@)));
                assert(pairs.deep_view() =~= spec_axis_cells(
                    rd.take(i + 1),
                    x_index as int,
                    y_index as int,
                ));
            }
        }
        i += 1;
    }
    proof {
        assert(rd.take(rows@.len() as int) =~= rd);
    }
    Ok(LodExtract { headers, x_index, y_index, pairs })
}

/// Dispatches the binning preparation by file type: only delimited-text
/// sources support binning; any other tag is rejected with an error whose
/// rendering names the tag after "LOD not supported for".
pub fn lod_extract_file(
    data: &[u8],
    file_type: &str,
    delimiter: u8,
    x_axis: &str,
    y_axis: &str,
) -> (r: Result<LodExtract, DataError>)
    ensures
        is_delimited_type(file_type@) ==> {
            &&& (r is Ok <==> csv_header_ok(data@, delimiter) && lod_axes_in_range(
                data@,
                delimiter,
                x_axis@,
                y_axis@,
            ))
            &&& (r matches Ok(e) ==> is_lod_extract_of(e, data@, delimiter, x_axis@, y_axis@))
            &&& (r matches Err(err) ==> allowed_lod_error(err, data@, delimiter, x_axis@, y_axis@))
        },
        !is_delimited_type(file_type@) ==> (r matches Err(err) && (err
            matches DataError::LodUnsupported(t) && t@ == file_type@)),
{
    if str_eq(file_type, "csv") || str_eq(file_type, "txt") || str_eq(file_type, "dat") {
        lod_extract(data, delimiter, x_axis, y_axis)
    } else {
        Err(DataError::LodUnsupported(String::from_str(file_type)))
    }
}

} // verus!
