//! Resolution of the sidecar executable path across deployment layouts.
//!
//! The search order is fixed: the `resources` directory beside the running
//! application binary, then the flat install layout beside the binary, then a
//! declared list of development-tree paths, and finally a conventional
//! default used even if absent, so that a later start can produce a precise
//! "not found" error. The first existing candidate wins. The filesystem
//! existence checks themselves are the driver's; this module decides.

use vstd::prelude::*;

verus! {

/// The first candidate, at index `i`, that exists: every earlier candidate
/// does not.
pub open spec fn first_existing(exists: Seq<bool>, i: int) -> bool {
    &&& 0 <= i < exists.len()
    &&& exists[i]
    &&& forall|j: int| 0 <= j < i ==> !exists[j]
}

/// Picks the first existing candidate path, in the given priority order, or
/// the fallback when none exists. `exists[i]` reports whether `candidates[i]`
/// names an existing file.
pub fn resolve(candidates: &Vec<String>, exists: &Vec<bool>, fallback: &String) -> (r: String)
    requires
        candidates@.len() == exists@.len(),
    ensures
        forall|i: int| first_existing(exists@, i) ==> r@ == candidates@[i]@,
        (forall|i: int| 0 <= i < exists@.len() ==> !exists@[i]) ==> r@ == fallback@,
{
    let mut i: usize = 0;
    while i < exists.len()
        invariant
            candidates@.len() == exists@.len(),
            i <= exists@.len(),
            forall|j: int| 0 <= j < i ==> !exists@[j],
        decreases exists@.len() - i,
    {
        if exists[i] {
            return candidates[i].clone();
        }
        i = i + 1;
    }
    fallback.clone()
}

/// The development-tree candidate paths, in their declared priority order,
/// tried after the two packaged layouts.
pub fn dev_tree_paths() -> (v: Vec<String>)
    ensures
        v@.len() == 3,
        v@[0]@ == "src-tauri/resources/flask-backend.exe"@,
        v@[1]@ == "dist/flask-backend.exe"@,
        v@[2]@ == "../dist/flask-backend.exe"@,
{
    let mut v: Vec<String> = Vec::new();
    v.push("src-tauri/resources/flask-backend.exe".to_owned());
    v.push("dist/flask-backend.exe".to_owned());
    v.push("../dist/flask-backend.exe".to_owned());
    v
}

/// The conventional default path, used when no candidate exists.
pub fn default_exe_path() -> (s: String)
    ensures
        s@ == "resources/flask-backend.exe"@,
{
    "resources/flask-backend.exe".to_owned()
}

} // verus!
