//! Trusted adapters over the outside readers: delimited text, spreadsheet
//! workbooks and binary matrix containers. Each wrapper makes one outside
//! call and converts its result into plain values; everything downstream of
//! these functions is verified.
use vstd::prelude::*;
use calamine::Reader;
use vstd::string::StringExecFns;
use matfile::NumericData;

verus! {

/// What the delimited-text reader yields as the header record of `data`:
/// the fields of the first record, split on `delimiter`.
pub uninterp spec fn csv_header_of(data: Seq<u8>, delimiter: u8) -> Seq<Seq<char>>;

/// What the delimited-text reader yields as data records of `data`, split on
/// `delimiter`; when `skip_first` holds, the first record counts as a header
/// and is left out. Over an in-memory buffer the drain is total: no record
/// read can fail.
pub uninterp spec fn csv_records_of(data: Seq<u8>, delimiter: u8, skip_first: bool) -> Seq<
    Seq<Seq<char>>,
>;

/// Whether the delimited-text reader can produce the header record of
/// `data`: it fails exactly when the first record is not valid UTF-8.
pub uninterp spec fn csv_header_ok(data: Seq<u8>, delimiter: u8) -> bool;

/// Relies on `csv::Reader::headers` over an in-memory buffer, with the
/// flexible reader the library always uses: the fields of the first record,
/// a function of the buffer and the delimiter alone, readable exactly when
/// `csv_header_ok` holds.
#[verifier::external_body]
pub(crate) fn read_csv_header(data: &[u8], delimiter: u8) -> (r: Result<Vec<String>, String>)
    ensures
        r is Ok <==> csv_header_ok(data@, delimiter),
        r matches Ok(h) ==> h.deep_view() == csv_header_of(data@, delimiter),
{
    let mut rdr = csv::ReaderBuilder::new()
        .delimiter(delimiter)
        .has_headers(true)
        .flexible(true)
        .from_reader(data);
    match rdr.headers() {
        Ok(h) => Ok(h.iter().map(|f| f.to_string()).collect()),
        Err(e) => Err(format!("Header read error: {e}")),
    }
}

/// Relies on `csv::Reader::read_byte_record` over an in-memory buffer:
/// drains every record (over a buffer no read can fail), decoding fields as
/// UTF-8 with invalid sequences replaced; with `skip_first` the reader
/// swallows the first record as a header. A function of its arguments alone.
#[verifier::external_body]
pub(crate) fn read_csv_records(data: &[u8], delimiter: u8, skip_first: bool) -> (r: Vec<Vec<String>>)
    ensures
        r.deep_view() == csv_records_of(data@, delimiter, skip_first),
{
    let mut rdr = csv::ReaderBuilder::new()
        .delimiter(delimiter)
        .has_headers(skip_first)
        .flexible(true)
        .from_reader(data);
    let mut out: Vec<Vec<String>> = Vec::new();
    let mut rec = csv::ByteRecord::new();
    while rdr.read_byte_record(&mut rec).unwrap_or(false) {
        out.push(rec.iter().map(|f| String::from_utf8_lossy(f).into_owned()).collect());
    }
    out
}

/// What the spreadsheet reader yields for a workbook: the cells of its first
/// worksheet, stringified row by row.
pub uninterp spec fn xlsx_rows_of(data: Seq<u8>) -> Seq<Seq<Seq<char>>>;

/// Whether the spreadsheet reader accepts the workbook bytes: it fails
/// exactly when the workbook cannot be opened, has no worksheet, or its
/// first worksheet cannot be parsed.
pub uninterp spec fn xlsx_ok(data: Seq<u8>) -> bool;

/// Relies on `calamine::Xlsx::new` and `worksheet_range_at`: opens the
/// workbook from the buffer, takes the first worksheet only, and renders
/// every cell to its display text. Succeeds exactly when `xlsx_ok` holds,
/// distinguishing an unreadable workbook, a workbook without worksheets,
/// and an unparseable worksheet in the message.
#[verifier::external_body]
pub(crate) fn read_xlsx_rows(data: &[u8]) -> (r: Result<Vec<Vec<String>>, String>)
    ensures
        r is Ok <==> xlsx_ok(data@),
        r matches Ok(rows) ==> rows.deep_view() == xlsx_rows_of(data@),
{
    let mut wb: calamine::Xlsx<_> = match calamine::Xlsx::new(std::io::Cursor::new(data)) {
        Ok(w) => w,
        Err(e) => return Err(format!("Excel open error: {e}")),
    };
    match wb.worksheet_range_at(0) {
        None => Err(String::from("No worksheet found")),
        Some(Err(e)) => Err(format!("Worksheet error: {e}")),
        Some(Ok(range)) => Ok(
            range.rows().map(|row| row.iter().map(|c| c.to_string()).collect()).collect(),
        ),
    }
}

/// The element classes a binary matrix container can declare for an array.
#[derive(Clone, Copy, PartialEq, Eq, Structural, Debug)]
pub enum MatClass {
    Int8,
    UInt8,
    Int16,
    UInt16,
    Int32,
    UInt32,
    Int64,
    UInt64,
    Single,
    Double,
}

/// What the matrix-container reader yields: for every numeric array the
/// reader reports (it silently skips non-numeric entries), its name, its
/// shape (one entry per dimension) and its element class, in container
/// order.
pub uninterp spec fn mat_arrays_of(data: Seq<u8>) -> Seq<(Seq<char>, Seq<usize>, MatClass)>;

/// Whether the matrix-container reader accepts the bytes: it fails exactly
/// when the container structure cannot be parsed.
pub uninterp spec fn mat_ok(data: Seq<u8>) -> bool;

/// Relies on `matfile::MatFile::parse`: the numeric arrays of the container,
/// each reported by name, dimension sizes and element kind, a function of
/// the container bytes alone; succeeds exactly when `mat_ok` holds. Array
/// payloads are not inspected.
#[verifier::external_body]
pub(crate) fn read_mat_arrays(data: &[u8]) -> (r: Result<
    Vec<(String, Vec<usize>, MatClass)>,
    String,
>)
    ensures
        r is Ok <==> mat_ok(data@),
        r matches Ok(a) ==> {
            &&& a@.len() == mat_arrays_of(data@).len()
            &&& forall|i: int|
                0 <= i < a@.len() ==> {
                    &&& #[trigger] a@[i].0@ == mat_arrays_of(data@)[i].0
                    &&& a@[i].1@ == mat_arrays_of(data@)[i].1
                    &&& a@[i].2 == mat_arrays_of(data@)[i].2
                }
        },
{
    let mat = matfile::MatFile::parse(data).map_err(|e| format!("MAT load error: {e}"))?;
    Ok(mat.arrays().iter().map(|a| (a.name().to_string(), a.size().clone(), match a.data() {
        NumericData::Int8 { .. } => MatClass::Int8, NumericData::UInt8 { .. } => MatClass::UInt8,
        NumericData::Int16 { .. } => MatClass::Int16, NumericData::UInt16 { .. } => MatClass::UInt16,
        NumericData::Int32 { .. } => MatClass::Int32, NumericData::UInt32 { .. } => MatClass::UInt32,
        NumericData::Int64 { .. } => MatClass::Int64, NumericData::UInt64 { .. } => MatClass::UInt64,
        NumericData::Single { .. } => MatClass::Single, NumericData::Double { .. } => MatClass::Double,
    })).collect())
}

impl MatClass {
    /// The tag under which this element class is reported.
    pub open spec fn spec_tag(&self) -> Seq<char> {
        match self {
            MatClass::Int8 => "Int8"@,
            MatClass::UInt8 => "UInt8"@,
            MatClass::Int16 => "Int16"@,
            MatClass::UInt16 => "UInt16"@,
            MatClass::Int32 => "Int32"@,
            MatClass::UInt32 => "UInt32"@,
            MatClass::Int64 => "Int64"@,
            MatClass::UInt64 => "UInt64"@,
            MatClass::Single => "Single"@,
            MatClass::Double => "Double"@,
        }
    }

    /// Renders the element class tag.
    pub fn tag(&self) -> (r: String)
        ensures
            r@ == self.spec_tag(),
    {
        match self {
            MatClass::Int8 => String::from_str("Int8"),
            MatClass::UInt8 => String::from_str("UInt8"),
            MatClass::Int16 => String::from_str("Int16"),
            MatClass::UInt16 => String::from_str("UInt16"),
            MatClass::Int32 => String::from_str("Int32"),
            MatClass::UInt32 => String::from_str("UInt32"),
            MatClass::Int64 => String::from_str("Int64"),
            MatClass::UInt64 => String::from_str("UInt64"),
            MatClass::Single => String::from_str("Single"),
            MatClass::Double => String::from_str("Double"),
        }
    }
}

} // verus!
