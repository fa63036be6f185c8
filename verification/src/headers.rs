//! The header resolver: decides the column name list from a header-handling
//! policy and the observed width of the first data row.
use vstd::prelude::*;
use crate::text::{column_name, spec_column_name, str_eq};

verus! {

/// The synthesized column list `column_1 … column_<width>`.
pub open spec fn synth_columns(width: nat) -> Seq<Seq<char>> {
    Seq::new(width, |i: int| spec_column_name((i + 1) as nat))
}

/// The column list a header policy yields for an observed row width:
/// `none` synthesizes names, `custom` takes the caller's list when it is
/// present and non-empty (and synthesizes otherwise), and every other mode
/// yields the empty list. Mode `file` never reaches the resolver: its names
/// come straight from the source's first record.
pub open spec fn spec_resolve_headers(
    mode: Seq<char>,
    custom: Option<Seq<Seq<char>>>,
    width: nat,
) -> Seq<Seq<char>> {
    if mode == "none"@ {
        synth_columns(width)
    } else if mode == "custom"@ {
        match custom {
            Some(c) => if c.len() > 0 {
                c
            } else {
                synth_columns(width)
            },
            None => synth_columns(width),
        }
    } else {
        Seq::empty()
    }
}

/// Builds the synthesized column list for `width` columns.
pub fn synthesize_columns(width: usize) -> (r: Vec<String>)
    ensures
        r.deep_view() == synth_columns(width as nat),
{
    let mut out: Vec<String> = Vec::new();
    let mut i: usize = 0;
    while i < width
        invariant
            i <= width,
            out@.len() == i,
            forall|j: int| 0 <= j < i ==> out@[j]@ == spec_column_name((j + 1) as nat),
        decreases width - i,
    {
        let name = column_name(i + 1);
        out.push(name);
        i += 1;
    }
    proof {
        assert forall|j: int| 0 <= j < width implies out.deep_view()[j] == spec_column_name(
            (j + 1) as nat,
        ) by {
            assert(out.deep_view()[j] == out@[j]@);
        }
        assert(out.deep_view() =~= synth_columns(width as nat));
    }
    out
}

/// Copies a list of names.
pub fn copy_strings(v: &Vec<String>) -> (r: Vec<String>)
    ensures
        r@ == v@,
        r.deep_view() == v.deep_view(),
{
    let mut out: Vec<String> = Vec::new();
    let mut i: usize = 0;
    while i < v.len()
        invariant
            i <= v@.len(),
            out@ == v@.take(i as int),
        decreases v@.len() - i,
    {
        out.push(v[i].clone());
        proof {
            assert(out@ =~= v@.take(i + 1));
        }
        i += 1;
    }
    proof {
        assert(out@ =~= v@);
        assert(out.deep_view() =~= v.deep_view());
    }
    out
}

/// Resolves the column list for a header policy, given the caller-supplied
/// custom names and the observed width of the first data row.
pub fn resolve_headers(mode: &str, custom: &Option<Vec<String>>, width: usize) -> (r: Vec<String>)
    ensures
        r.deep_view() == spec_resolve_headers(mode@, custom.deep_view(), width as nat),
{
    if str_eq(mode, "none") {
        synthesize_columns(width)
    } else if str_eq(mode, "custom") {
        match custom {
            Some(c) => {
                if c.len() > 0 {
                    copy_strings(c)
                } else {
                    synthesize_columns(width)
                }
            },
            None => synthesize_columns(width),
        }
    } else {
        Vec::new()
    }
}

} // verus!
