//! Locating the app-managed ONNX Runtime library that the in-process
//! speech-to-text engine loads.

use vstd::prelude::*;

use crate::paths::{join, join_str};
use crate::text::{lowercase, starts_with_seq, str_eq, to_chars, to_lower};

verus! {

/// One entry of the ONNX Runtime directory.
#[derive(Debug)]
pub struct OrtEntry {
    /// The entry's file name (empty when it is not valid UTF-8).
    pub name: String,
    /// Whether it is a regular file or a symbolic link.
    pub usable: bool,
}

/// Whether a lower-cased file name is an ONNX Runtime library.
pub open spec fn ort_lib_name(lower: Seq<char>) -> bool {
    lower == "libonnxruntime.so"@ || starts_with_seq(lower, "libonnxruntime.so."@) || lower
        == "libonnxruntime.dylib"@ || lower == "onnxruntime.dll"@
}

/// Whether the entry is a candidate library.
pub open spec fn ort_candidate(e: OrtEntry) -> bool {
    e.usable && ort_lib_name(lowercase(e.name@))
}

/// The chosen candidate: the one with the shortest name (the unversioned or
/// primary soname), the first such in directory order.
pub open spec fn best_ort(entries: Seq<OrtEntry>, k: int) -> bool {
    &&& 0 <= k < entries.len()
    &&& ort_candidate(entries[k])
    &&& forall|j: int|
        0 <= j < entries.len() && ort_candidate(#[trigger] entries[j]) ==> entries[k].name@.len()
            <= entries[j].name@.len()
    &&& forall|j: int|
        0 <= j < k && ort_candidate(#[trigger] entries[j]) ==> entries[k].name@.len()
            < entries[j].name@.len()
}

fn is_ort_candidate(e: &OrtEntry) -> (r: bool)
    ensures
        r == ort_candidate(*e),
{
    if !e.usable {
        return false;
    }
    let lower = to_lower(e.name.as_str());
    let lv = to_chars(lower.as_str());
    let prefix = to_chars("libonnxruntime.so.");
    str_eq(lower.as_str(), "libonnxruntime.so") || (lv.len() >= prefix.len()
        && crate::text::matches_at(&lv, &prefix, 0)) || str_eq(lower.as_str(), "libonnxruntime.dylib")
        || str_eq(lower.as_str(), "onnxruntime.dll")
}

/// Error when the directory holds no library.
pub open spec fn no_ort_message(dir: Seq<char>) -> Seq<char> {
    "no onnxruntime shared library in "@ + dir
}

/// Picks the ONNX Runtime library in `ort_lib_dir` from its entries: the
/// candidate with the shortest name; the path is the directory joined with it.
pub fn resolve_ort_dylib(ort_lib_dir: &str, is_dir: bool, entries: &Vec<OrtEntry>) -> (r: Result<String, String>)
    ensures
        !is_dir ==> (r matches Err(e) && e@ == ort_lib_dir@ + " is not a directory"@),
        is_dir ==> match r {
            Ok(p) => exists|k: int| best_ort(entries@, k) && p@ == join(ort_lib_dir@, entries@[k].name@),
            Err(e) => e@ == no_ort_message(ort_lib_dir@) && forall|j: int|
                0 <= j < entries@.len() ==> !ort_candidate(#[trigger] entries@[j]),
        },
{
    if !is_dir {
        return Err(crate::text::concat2(ort_lib_dir, " is not a directory"));
    }
    let mut best: Option<usize> = None;
    let mut i: usize = 0;
    while i < entries.len()
        invariant
            i <= entries@.len(),
            match best {
                Some(k) => {
                    &&& k < i
                    &&& ort_candidate(entries@[k as int])
                    &&& forall|j: int|
                        0 <= j < i && ort_candidate(#[trigger] entries@[j]) ==> entries@[k as int].name@.len()
                            <= entries@[j].name@.len()
                    &&& forall|j: int|
                        0 <= j < k && ort_candidate(#[trigger] entries@[j]) ==> entries@[k as int].name@.len()
                            < entries@[j].name@.len()
                },
                None => forall|j: int| 0 <= j < i ==> !ort_candidate(#[trigger] entries@[j]),
            },
        decreases entries@.len() - i,
    {
        if is_ort_candidate(&entries[i]) {
            let take = match best {
                None => true,
                Some(k) => entries[i].name.unicode_len() < entries[k].name.unicode_len(),
            };
            if take {
                best = Some(i);
            }
        }
        i = i + 1;
    }
    match best {
        None => Err(crate::text::concat2("no onnxruntime shared library in ", ort_lib_dir)),
        Some(k) => {
            assert(best_ort(entries@, k as int));
            Ok(join_str(ort_lib_dir, entries[k].name.as_str()))
        },
    }
}

/// Error when the ONNX Runtime library cannot be found.
pub fn ort_missing_context(ort_lib_dir: &str) -> (r: String)
    ensures
        r@ == "ONNX Runtime library missing under "@ + ort_lib_dir@
            + " — open Setup Wizard / Setup repair"@,
{
    crate::text::concat3("ONNX Runtime library missing under ", ort_lib_dir, " — open Setup Wizard / Setup repair")
}

} // verus!
