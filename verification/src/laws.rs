//! Cross-cutting properties of the library, stated and proved once over the
//! specifications that the executable contracts use.
use vstd::prelude::*;
use crate::headers::synth_columns;
use crate::lod::{is_lod_extract_of, LodExtract};
use crate::preview::{is_preview_of, preview_columns, spec_sample_count, Preview};

verus! {

/// Header mode `none` always yields the synthesized list
/// `column_1 … column_W` taken from the first data row's width, whatever
/// the later rows look like.
pub proof fn lemma_none_mode_columns(
    mode: Seq<char>,
    custom: Option<Seq<Seq<char>>>,
    rows: Seq<Seq<Seq<char>>>,
)
    requires
        mode == "none"@,
        rows.len() > 0,
    ensures
        preview_columns(None, mode, custom, rows) == synth_columns(rows[0].len()),
{
}

/// A preview reports the true total row count — never capped at the sample
/// size — and its sample holds exactly `min(5, rows_seen)` rows.
pub proof fn lemma_sample_bounds(
    p: Preview,
    header: Option<Seq<Seq<char>>>,
    mode: Seq<char>,
    custom: Option<Seq<Seq<char>>>,
    rows: Seq<Seq<Seq<char>>>,
)
    requires
        is_preview_of(p, header, mode, custom, rows),
    ensures
        p.rows_seen == rows.len(),
        p.sample_rows@.len() == spec_sample_count(rows.len()),
        p.sample_rows@.len() <= 5,
        p.sample_rows@.len() <= p.rows_seen,
{
}

/// Summarizing is deterministic: two previews of the same source under the
/// same policy agree on every observable field. (Whether a call succeeds at
/// all is likewise a function of the input alone: the summarizers state it
/// as an exact success condition in their own contracts.)
pub proof fn lemma_preview_deterministic(
    p1: Preview,
    p2: Preview,
    header: Option<Seq<Seq<char>>>,
    mode: Seq<char>,
    custom: Option<Seq<Seq<char>>>,
    rows: Seq<Seq<Seq<char>>>,
)
    requires
        is_preview_of(p1, header, mode, custom, rows),
        is_preview_of(p2, header, mode, custom, rows),
    ensures
        p1.columns.deep_view() == p2.columns.deep_view(),
        p1.rows_seen == p2.rows_seen,
        p1.sample_rows.deep_view() == p2.sample_rows.deep_view(),
{
    assert(p1.sample_rows.deep_view().len() == p1.sample_rows@.len());
    assert(p2.sample_rows.deep_view().len() == p2.sample_rows@.len());
    assert(p1.sample_rows.deep_view() =~= p2.sample_rows.deep_view());
}

/// Preparing a source for binning is deterministic: two successful
/// preparations of the same source with the same axis strings agree on the
/// header, the axis indices and every retained pair. (Success itself is an
/// exact function of the input, stated in the preparation's own contract.)
pub proof fn lemma_lod_extract_deterministic(
    e1: LodExtract,
    e2: LodExtract,
    data: Seq<u8>,
    delimiter: u8,
    x_axis: Seq<char>,
    y_axis: Seq<char>,
)
    requires
        is_lod_extract_of(e1, data, delimiter, x_axis, y_axis),
        is_lod_extract_of(e2, data, delimiter, x_axis, y_axis),
    ensures
        e1.headers.deep_view() == e2.headers.deep_view(),
        e1.x_index == e2.x_index,
        e1.y_index == e2.y_index,
        e1.pairs.deep_view() == e2.pairs.deep_view(),
{
}

} // verus!
