//! Piper voices: the curated shortlist, which voices are installed, which
//! voice files to use for speaking (with fallback to the default voice), and
//! where a curated voice is downloaded from.
//!
//! A voice is usable only when both `{id}.onnx` and `{id}.onnx.json` are
//! regular files in the `models/tts` directory; the caller lists that
//! directory and passes its entries in.

use vstd::prelude::*;

use crate::constants::TTS_DEFAULT_VOICE_ID;
use crate::paths::{join, join_str};
use crate::platform::artifact::DirEntryFact;
use crate::text::{concat2, concat3, owned, str_eq};

verus! {

/// Hugging Face resolve base for Piper voices, tag `v1.0.0`.
pub const PIPER_VOICES_HF_V1: &'static str = "https://huggingface.co/rhasspy/piper-voices/resolve/v1.0.0";

/// Text spoken when previewing a voice.
pub const PIPER_VOICE_PREVIEW_SAMPLE: &'static str = "Hello! This is how I sound when I read your messages aloud.";

/// One entry of the curated shortlist: id, label, locale and path stem under
/// the voices repository.
pub struct CuratedMeta {
    pub id: &'static str,
    pub label: &'static str,
    pub locale: &'static str,
    pub hf_stem: &'static str,
}

/// The curated shortlist as (id, label, locale, repository stem), in picker order.
pub open spec fn curated() -> Seq<(Seq<char>, Seq<char>, Seq<char>, Seq<char>)> {
    seq![
        ("en_US-lessac-medium"@, "Lessac"@, "en_US"@, "en/en_US/lessac/medium/en_US-lessac-medium"@),
        ("en_US-joe-medium"@, "Joe"@, "en_US"@, "en/en_US/joe/medium/en_US-joe-medium"@),
        ("en_US-kristin-medium"@, "Kristin"@, "en_US"@, "en/en_US/kristin/medium/en_US-kristin-medium"@),
        ("en_US-bryce-medium"@, "Bryce"@, "en_US"@, "en/en_US/bryce/medium/en_US-bryce-medium"@),
        ("en_US-sam-medium"@, "Sam"@, "en_US"@, "en/en_US/sam/medium/en_US-sam-medium"@),
        ("en_GB-cori-medium"@, "Cori"@, "en_GB"@, "en/en_GB/cori/medium/en_GB-cori-medium"@),
    ]
}

fn curated_table() -> (r: Vec<CuratedMeta>)
    ensures
        r@.len() == curated().len(),
        forall|i: int|
            0 <= i < r@.len() ==> ((#[trigger] r@[i]).id@, r@[i].label@, r@[i].locale@, r@[i].hf_stem@)
                == curated()[i],
{
    let mut v: Vec<CuratedMeta> = Vec::new();
    v.push(CuratedMeta { id: "en_US-lessac-medium", label: "Lessac", locale: "en_US", hf_stem: "en/en_US/lessac/medium/en_US-lessac-medium" });
    v.push(CuratedMeta { id: "en_US-joe-medium", label: "Joe", locale: "en_US", hf_stem: "en/en_US/joe/medium/en_US-joe-medium" });
    v.push(CuratedMeta { id: "en_US-kristin-medium", label: "Kristin", locale: "en_US", hf_stem: "en/en_US/kristin/medium/en_US-kristin-medium" });
    v.push(CuratedMeta { id: "en_US-bryce-medium", label: "Bryce", locale: "en_US", hf_stem: "en/en_US/bryce/medium/en_US-bryce-medium" });
    v.push(CuratedMeta { id: "en_US-sam-medium", label: "Sam", locale: "en_US", hf_stem: "en/en_US/sam/medium/en_US-sam-medium" });
    v.push(CuratedMeta { id: "en_GB-cori-medium", label: "Cori", locale: "en_GB", hf_stem: "en/en_GB/cori/medium/en_GB-cori-medium" });
    v
}

/// File name of a voice model.
pub open spec fn onnx_name(id: Seq<char>) -> Seq<char> {
    id + ".onnx"@
}

/// File name of a voice's configuration.
pub open spec fn json_name(id: Seq<char>) -> Seq<char> {
    id + ".onnx.json"@
}

/// Whether the listing holds a regular file named `name`.
pub open spec fn has_file(listing: Seq<DirEntryFact>, name: Seq<char>) -> bool {
    exists|i: int| 0 <= i < listing.len() && (#[trigger] listing[i]).is_file && listing[i].name@ == name
}

/// Whether both files of voice `id` are present.
pub open spec fn pair_present(listing: Seq<DirEntryFact>, id: Seq<char>) -> bool {
    has_file(listing, onnx_name(id)) && has_file(listing, json_name(id))
}

fn listing_has_file(listing: &Vec<DirEntryFact>, name: &str) -> (r: bool)
    ensures
        r == has_file(listing@, name@),
{
    let mut i: usize = 0;
    while i < listing.len()
        invariant
            i <= listing@.len(),
            forall|j: int| 0 <= j < i ==> !(listing@[j].is_file && listing@[j].name@ == name@),
        decreases listing@.len() - i,
    {
        if listing[i].is_file && str_eq(listing[i].name.as_str(), name) {
            return true;
        }
        i = i + 1;
    }
    false
}

/// Whether `{id}.onnx` and `{id}.onnx.json` are both regular files in the listing.
pub fn piper_voice_pair_present(listing: &Vec<DirEntryFact>, id: &str) -> (r: bool)
    ensures
        r == pair_present(listing@, id@),
{
    let onnx = concat2(id, ".onnx");
    let json = concat2(id, ".onnx.json");
    listing_has_file(listing, onnx.as_str()) && listing_has_file(listing, json.as_str())
}

/// One curated Piper voice as shown to callers (picker, download).
#[derive(Debug, Clone, PartialEq, Eq)]
pub struct CuratedPiperVoice {
    pub id: String,
    pub label: String,
    pub locale: String,
    pub installed: bool,
}

/// The curated shortlist in picker order, each marked installed when its
/// file pair is in the listing of the `tts` directory.
pub fn list_curated_piper_voices(tts_listing: &Vec<DirEntryFact>) -> (r: Vec<CuratedPiperVoice>)
    ensures
        r@.len() == curated().len(),
        forall|i: int|
            0 <= i < r@.len() ==> (#[trigger] r@[i]).id@ == curated()[i].0 && r@[i].label@
                == curated()[i].1 && r@[i].locale@ == curated()[i].2 && r@[i].installed
                == pair_present(tts_listing@, curated()[i].0),
{
    let table = curated_table();
    let mut out: Vec<CuratedPiperVoice> = Vec::new();
    let mut i: usize = 0;
    while i < table.len()
        invariant
            table@.len() == curated().len(),
            forall|k: int|
                0 <= k < table@.len() ==> ((#[trigger] table@[k]).id@, table@[k].label@, table@[k].locale@, table@[k].hf_stem@)
                    == curated()[k],
            i <= table@.len(),
            out@.len() == i,
            forall|k: int|
                0 <= k < i ==> (#[trigger] out@[k]).id@ == curated()[k].0 && out@[k].label@
                    == curated()[k].1 && out@[k].locale@ == curated()[k].2 && out@[k].installed
                    == pair_present(tts_listing@, curated()[k].0),
        decreases table@.len() - i,
    {
        let m = &table[i];
        out.push(
            CuratedPiperVoice {
                id: owned(m.id),
                label: owned(m.label),
                locale: owned(m.locale),
                installed: piper_voice_pair_present(tts_listing, m.id),
            },
        );
        i = i + 1;
    }
    out
}

/// Index of the curated entry with id `id`, if any.
pub open spec fn curated_index(id: Seq<char>) -> Option<int> {
    if exists|i: int| 0 <= i < curated().len() && (#[trigger] curated()[i]).0 == id {
        Some(choose|i: int| 0 <= i < curated().len() && (#[trigger] curated()[i]).0 == id)
    } else {
        None
    }
}

fn find_curated(id: &str) -> (r: Option<CuratedMeta>)
    ensures
        match r {
            Some(m) => exists|i: int|
                0 <= i < curated().len() && (#[trigger] curated()[i]).0 == id@ && (m.id@, m.label@, m.locale@, m.hf_stem@)
                    == curated()[i],
            None => curated_index(id@) is None,
        },
{
    let table = curated_table();
    let mut i: usize = 0;
    while i < table.len()
        invariant
            table@.len() == curated().len(),
            forall|k: int|
                0 <= k < table@.len() ==> ((#[trigger] table@[k]).id@, table@[k].label@, table@[k].locale@, table@[k].hf_stem@)
                    == curated()[k],
            i <= table@.len(),
            forall|k: int| 0 <= k < i ==> (#[trigger] curated()[k]).0 != id@,
        decreases table@.len() - i,
    {
        if str_eq(table[i].id, id) {
            let m = &table[i];
            return Some(CuratedMeta { id: m.id, label: m.label, locale: m.locale, hf_stem: m.hf_stem });
        }
        i = i + 1;
    }
    None
}

/// Whether `id` is on the curated shortlist.
pub fn is_curated_piper_voice_id(id: &str) -> (r: bool)
    ensures
        r == curated_index(id@) is Some,
{
    match find_curated(id) {
        Some(_) => true,
        None => false,
    }
}

/// The stems of distinct curated ids differ, so an id determines its stem.
proof fn lemma_curated_ids_distinct()
    ensures
        forall|i: int, j: int|
            0 <= i < curated().len() && 0 <= j < curated().len() && #[trigger] curated()[i].0
                == #[trigger] curated()[j].0 ==> i == j,
{
    reveal_strlit("en_US-lessac-medium");
    reveal_strlit("en_US-joe-medium");
    reveal_strlit("en_US-kristin-medium");
    reveal_strlit("en_US-bryce-medium");
    reveal_strlit("en_US-sam-medium");
    reveal_strlit("en_GB-cori-medium");
    let c = curated();
    assert(c[0].0.len() == 19 && c[1].0.len() == 16 && c[2].0.len() == 20 && c[3].0.len() == 18
        && c[4].0.len() == 16 && c[5].0.len() == 17);
    assert(c[1].0[6] == 'j' && c[4].0[6] == 's');
}

/// Repository stem of a curated voice (`en/en_US/joe/medium/en_US-joe-medium`).
pub open spec fn hf_stem_of(id: Seq<char>) -> Option<Seq<char>> {
    match curated_index(id) {
        Some(i) => Some(curated()[i].3),
        None => None,
    }
}

/// The repository stem of curated voice `id`, or `None` for other ids.
pub fn curated_voice_hf_stem(id: &str) -> (r: Option<String>)
    ensures
        match hf_stem_of(id@) {
            Some(s) => r is Some && r.unwrap()@ == s,
            None => r is None,
        },
{
    proof {
        lemma_curated_ids_distinct();
    }
    match find_curated(id) {
        Some(m) => Some(owned(m.hf_stem)),
        None => None,
    }
}

/// Error text for an id that is not on the shortlist.
pub open spec fn unknown_voice_message(id: Seq<char>) -> Seq<char> {
    "unknown curated piper voice id: "@ + id
}

/// Download URLs of a curated voice's model and configuration (pinned `v1.0.0`).
pub fn curated_voice_download_urls(voice_id: &str) -> (r: Result<(String, String), String>)
    ensures
        match hf_stem_of(voice_id@) {
            Some(stem) => r matches Ok(p) && p.0@ == PIPER_VOICES_HF_V1@ + "/"@ + stem + ".onnx"@
                && p.1@ == PIPER_VOICES_HF_V1@ + "/"@ + stem + ".onnx.json"@,
            None => r matches Err(e) && e@ == unknown_voice_message(voice_id@),
        },
{
    match curated_voice_hf_stem(voice_id) {
        None => Err(concat2("unknown curated piper voice id: ", voice_id)),
        Some(stem) => {
            let base = concat3(PIPER_VOICES_HF_V1, "/", stem.as_str());
            let onnx = concat2(base.as_str(), ".onnx");
            let json = concat2(base.as_str(), ".onnx.json");
            Ok((onnx, json))
        },
    }
}

/// Where a voice file is written while it downloads.
pub open spec fn partial_path_spec(tts_dir: Seq<char>, filename: Seq<char>) -> Seq<char> {
    join(tts_dir, filename + ".download-partial"@)
}

/// `<tts_dir>/<filename>.download-partial`.
pub fn partial_path(tts_dir: &str, filename: &str) -> (r: String)
    ensures
        r@ == partial_path_spec(tts_dir@, filename@),
{
    let name = concat2(filename, ".download-partial");
    join_str(tts_dir, name.as_str())
}

/// Voice files chosen for speaking.
#[derive(Debug, Clone, PartialEq, Eq)]
pub struct ResolvedPiperVoice {
    pub id: String,
    pub onnx_path: String,
}

/// Voice `id` when it is non-empty and both of its files are present.
pub open spec fn try_resolve_spec(listing: Seq<DirEntryFact>, id: Seq<char>) -> bool {
    id.len() > 0 && pair_present(listing, id)
}

/// Resolution of `selected` under a `tts` directory: the selection when usable,
/// else the default voice when usable, else `None`.
pub open spec fn resolved_id(listing: Seq<DirEntryFact>, selected: Seq<char>) -> Option<Seq<char>> {
    if try_resolve_spec(listing, selected) {
        Some(selected)
    } else if selected != TTS_DEFAULT_VOICE_ID@ && try_resolve_spec(listing, TTS_DEFAULT_VOICE_ID@) {
        Some(TTS_DEFAULT_VOICE_ID@)
    } else {
        None
    }
}

/// Error text when no voice can be resolved.
pub open spec fn voice_not_found_message(selected: Seq<char>) -> Seq<char> {
    "piper voice not found — tried '"@ + selected + "' and default '"@ + TTS_DEFAULT_VOICE_ID@
        + "' (need .onnx + .onnx.json)"@
}

fn try_resolve(tts_dir: &str, listing: &Vec<DirEntryFact>, id: &str) -> (r: Option<
    ResolvedPiperVoice,
>)
    ensures
        match r {
            Some(v) => try_resolve_spec(listing@, id@) && v.id@ == id@ && v.onnx_path@ == join(
                tts_dir@,
                onnx_name(id@),
            ),
            None => !try_resolve_spec(listing@, id@),
        },
{
    if id.unicode_len() == 0 {
        return None;
    }
    if piper_voice_pair_present(listing, id) {
        let name = concat2(id, ".onnx");
        Some(ResolvedPiperVoice { id: owned(id), onnx_path: join_str(tts_dir, name.as_str()) })
    } else {
        None
    }
}

/// Resolves `selected_id` in the `tts` directory (whose entries are
/// `listing`), falling back to the default voice when the selection is
/// missing or incomplete.
pub fn resolve_piper_voice(tts_dir: &str, listing: &Vec<DirEntryFact>, selected_id: &str) -> (r:
    Result<ResolvedPiperVoice, String>)
    ensures
        match resolved_id(listing@, selected_id@) {
            Some(id) => r matches Ok(v) && v.id@ == id && v.onnx_path@ == join(tts_dir@, onnx_name(id)),
            None => r matches Err(e) && e@ == voice_not_found_message(selected_id@),
        },
{
    if let Some(v) = try_resolve(tts_dir, listing, selected_id) {
        return Ok(v);
    }
    if !str_eq(selected_id, TTS_DEFAULT_VOICE_ID) {
        if let Some(v) = try_resolve(tts_dir, listing, TTS_DEFAULT_VOICE_ID) {
            return Ok(v);
        }
    }
    let mut e = concat3("piper voice not found — tried '", selected_id, "' and default '");
    e.append(TTS_DEFAULT_VOICE_ID);
    e.append("' (need .onnx + .onnx.json)");
    Err(e)
}

/// A resolved voice is always complete: whichever voice resolution picks
/// (the selection or the default) has both its model and its configuration
/// in the listing, and the selection wins whenever it is complete.
pub proof fn law_resolved_voice_is_complete(listing: Seq<DirEntryFact>, selected: Seq<char>)
    ensures
        resolved_id(listing, selected) matches Some(id) ==> id.len() > 0 && pair_present(listing, id),
        try_resolve_spec(listing, selected) ==> resolved_id(listing, selected) == Some(selected),
{
}

} // verus!
