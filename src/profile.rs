//! Optimization profiles: selectors, argument checks and the decoding of the
//! bounds the native profile reports.
use vstd::prelude::*;
use crate::error::Failure;

verus! {

/// Largest number of dimensions a native dimension record holds.
pub const MAX_DIMS: usize = 8;

/// Which of the three bounds of a profile is set or read.
#[derive(Copy, Clone, Debug, PartialEq, Eq, Structural)]
pub enum OptimizationProfileSelector {
    /// The minimum permitted value.
    Min,
    /// The value used for kernel selection.
    Opt,
    /// The maximum permitted value.
    Max,
}

/// The native code of a selector.
pub open spec fn selector_code(s: OptimizationProfileSelector) -> int {
    match s {
        OptimizationProfileSelector::Min => 0,
        OptimizationProfileSelector::Opt => 1,
        OptimizationProfileSelector::Max => 2,
    }
}

impl OptimizationProfileSelector {
    /// The native code of this selector.
    pub fn code(self) -> (r: i32)
        ensures
            r as int == selector_code(self),
    {
        match self {
            OptimizationProfileSelector::Min => 0,
            OptimizationProfileSelector::Opt => 1,
            OptimizationProfileSelector::Max => 2,
        }
    }
}

/// The dimension count to hand to the native setter, or `None` when `dims`
/// has more entries than a native dimension record holds. Such a request is
/// an inconsistency: the setter reports `false` without a native call.
pub fn dimension_count(dims: &[i32]) -> (r: Option<i32>)
    ensures
        dims@.len() <= MAX_DIMS ==> r == Some(dims@.len() as i32),
        dims@.len() > MAX_DIMS ==> r.is_none(),
{
    if dims.len() <= MAX_DIMS {
        Some(dims.len() as i32)
    } else {
        None
    }
}

/// The value count to hand to the native shape-value setter, or `None` when
/// it does not fit the native count type.
pub fn shape_value_count(values: &[i32]) -> (r: Option<i32>)
    ensures
        values@.len() <= i32::MAX ==> r == Some(values@.len() as i32),
        values@.len() > i32::MAX ==> r.is_none(),
{
    if values.len() <= 2147483647 {
        Some(values.len() as i32)
    } else {
        None
    }
}

/// The bound a native query reports: unset when the count is negative,
/// otherwise the first `count` entries.
pub open spec fn reported_bound(count: int, entries: Seq<i32>) -> Option<Seq<i32>> {
    if count < 0 {
        None
    } else {
        Some(entries.subrange(0, count))
    }
}

/// Decodes the result of a native dimension query: `nb_dims` as the native
/// call returned it and `buffer` holding the entries it copied out.
pub fn dimensions_from_native(nb_dims: i32, buffer: &[i32]) -> (r: Option<Vec<i32>>)
    requires
        nb_dims <= buffer@.len(),
    ensures
        r.is_none() <==> nb_dims < 0,
        r.is_some() ==> Some(r->0@) == reported_bound(nb_dims as int, buffer@),
{
    if nb_dims < 0 {
        return None;
    }
    Some(prefix(buffer, nb_dims as usize))
}

/// Decodes the result of a native shape-value query: `count` as the native
/// count query returned it, and `values` the entries the native value query
/// pointed to (`None` for a null pointer).
pub fn shape_values_from_native(count: i32, values: Option<&[i32]>) -> (r: Result<
    Option<Vec<i32>>,
    Failure,
>)
    requires
        values.is_some() ==> count <= values->0@.len(),
    ensures
        count < 0 ==> r == Ok::<Option<Vec<i32>>, Failure>(None),
        count >= 0 && values.is_none() ==> r == Err::<Option<Vec<i32>>, Failure>(
            Failure::NullResult,
        ),
        count >= 0 && values.is_some() ==> r.is_ok() && r->Ok_0.is_some() && Some(
            r->Ok_0->0@,
        ) == reported_bound(count as int, values->0@),
{
    if count < 0 {
        return Ok(None);
    }
    match values {
        None => Err(Failure::NullResult),
        Some(entries) => Ok(Some(prefix(entries, count as usize))),
    }
}

/// The first `n` entries of `s`.
fn prefix(s: &[i32], n: usize) -> (r: Vec<i32>)
    requires
        n <= s@.len(),
    ensures
        r@ == s@.subrange(0, n as int),
{
    let mut out: Vec<i32> = Vec::new();
    let mut i: usize = 0;
    while i < n
        invariant
            i <= n,
            n <= s@.len(),
            out@ == s@.subrange(0, i as int),
        decreases n - i,
    {
        out.push(s[i]);
        i = i + 1;
        assert(out@ =~= s@.subrange(0, i as int));
    }
    out
}

} // verus!
