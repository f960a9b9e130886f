//! Where the preferences file lives: beside the `Cargo.toml` of the nearest
//! enclosing project, or in the current directory when there is none.
use vstd::prelude::*;

verus! {

/// Whether `i` is the first position of `has_manifest` that holds `true`.
pub open spec fn is_nearest(has_manifest: Seq<bool>, i: int) -> bool {
    &&& 0 <= i < has_manifest.len()
    &&& has_manifest[i]
    &&& forall|j: int| 0 <= j < i ==> !#[trigger] has_manifest[j]
}

/// Given, for the current directory and then each of its ancestors in turn,
/// whether it holds a `Cargo.toml`, the position of the nearest one that
/// does; none when none does.
pub fn nearest_project_root(has_manifest: &[bool]) -> (r: Option<usize>)
    ensures
        match r {
            Some(i) => is_nearest(has_manifest@, i as int),
            None => forall|j: int| 0 <= j < has_manifest@.len() ==> !#[trigger] has_manifest@[j],
        },
{
    let mut i: usize = 0;
    while i < has_manifest.len()
        invariant
            i <= has_manifest@.len(),
            forall|j: int| 0 <= j < i ==> !#[trigger] has_manifest@[j],
        decreases has_manifest@.len() - i,
    {
        if has_manifest[i] {
            return Some(i);
        }
        i = i + 1;
    }
    None
}

} // verus!
