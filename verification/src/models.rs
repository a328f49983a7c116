//! The model picker's list: GGUF files of the models directory sorted by
//! name, plus the active model when it lives elsewhere.

use vstd::prelude::*;

use crate::monitor::{first_tag, param_tags, quant_tags, ModelInfo};
use crate::text::{ends_with_seq, uppercase};

verus! {

broadcast use vstd::seq_lib::to_multiset_insert, vstd::seq_lib::to_multiset_build;

/// Strict lexicographic order of names by characters (the order of `str`'s `<`).
pub open spec fn name_lt(a: Seq<char>, b: Seq<char>) -> bool
    decreases a.len(),
{
    if a.len() == 0 {
        b.len() > 0
    } else if b.len() == 0 {
        false
    } else if a[0] != b[0] {
        (a[0] as u32) < (b[0] as u32)
    } else {
        name_lt(a.drop_first(), b.drop_first())
    }
}

proof fn lemma_lt_asym(a: Seq<char>, b: Seq<char>)
    ensures
        name_lt(a, b) ==> !name_lt(b, a),
        !name_lt(a, a),
    decreases a.len(),
{
    if a.len() > 0 && b.len() > 0 && a[0] == b[0] {
        lemma_lt_asym(a.drop_first(), b.drop_first());
    }
    if a.len() > 0 {
        lemma_lt_asym(a.drop_first(), a.drop_first());
    }
}

proof fn lemma_lt_trans(a: Seq<char>, b: Seq<char>, c: Seq<char>)
    requires
        name_lt(a, b),
        name_lt(b, c),
    ensures
        name_lt(a, c),
    decreases a.len(),
{
    if a.len() > 0 && b.len() > 0 && c.len() > 0 && a[0] == b[0] && b[0] == c[0] {
        lemma_lt_trans(a.drop_first(), b.drop_first(), c.drop_first());
    }
}

proof fn lemma_lt_total(a: Seq<char>, b: Seq<char>)
    ensures
        a == b || name_lt(a, b) || name_lt(b, a),
    decreases a.len(),
{
    if a.len() > 0 && b.len() > 0 && a[0] == b[0] {
        lemma_lt_total(a.drop_first(), b.drop_first());
        if a.drop_first() == b.drop_first() {
            assert(a =~= seq![a[0]] + a.drop_first());
            assert(b =~= seq![b[0]] + b.drop_first());
        }
    } else if a.len() == 0 && b.len() == 0 {
        assert(a =~= b);
    } else if a.len() > 0 && b.len() > 0 {
        let x = a[0] as u32;
        let y = b[0] as u32;
        assert(x != y) by {
            if x == y {
                vstd::utf8::char_u32_cast(a[0], x);
                vstd::utf8::char_u32_cast(b[0], y);
                assert(a[0] == b[0]);
            }
        }
    }
}

/// `a` sorts no later than `b`.
pub open spec fn name_le(a: Seq<char>, b: Seq<char>) -> bool {
    !name_lt(b, a)
}

/// View of a listed model: (file name, quantization, parameter count, size, modified).
pub open spec fn info_view(m: ModelInfo) -> (Seq<char>, Seq<char>, Seq<char>, u64, i64) {
    (m.filename@, m.quant_type@, m.param_count@, m.file_size_bytes, m.last_modified)
}

/// Whether the models are in order of file name.
pub open spec fn sorted_by_name(s: Seq<ModelInfo>) -> bool {
    forall|i: int, j: int| 0 <= i < j < s.len() ==> name_le(s[i].filename@, s[j].filename@)
}

/// One directory entry of the models directory.
#[derive(Debug)]
pub struct ModelEntry {
    pub name: String,
    pub size: u64,
    /// Last modification, Unix seconds.
    pub modified: i64,
}

/// Whether a file name has the extension `gguf` (a name that is only
/// `.gguf` has no extension).
pub open spec fn is_gguf_name(name: Seq<char>) -> bool {
    name.len() > 5 && ends_with_seq(name, ".gguf"@)
}

/// What a listed entry shows.
pub open spec fn entry_view(e: ModelEntry) -> (Seq<char>, Seq<char>, Seq<char>, u64, i64) {
    (
        e.name@,
        first_tag(quant_tags(), uppercase(e.name@), 0, "UNKNOWN"@),
        first_tag(param_tags(), uppercase(e.name@), 0, "?B"@),
        e.size,
        e.modified,
    )
}

/// The views of the GGUF entries, in directory order.
pub open spec fn gguf_views(entries: Seq<ModelEntry>) -> Seq<(Seq<char>, Seq<char>, Seq<char>, u64, i64)>
    decreases entries.len(),
{
    if entries.len() == 0 {
        Seq::empty()
    } else if is_gguf_name(entries.last().name@) {
        gguf_views(entries.drop_last()).push(entry_view(entries.last()))
    } else {
        gguf_views(entries.drop_last())
    }
}

fn insert_sorted(out: &mut Vec<ModelInfo>, x: ModelInfo)
    requires
        sorted_by_name(old(out)@),
    ensures
        sorted_by_name(final(out)@),
        final(out)@.map_values(|m: ModelInfo| info_view(m)).to_multiset() == old(out)@.map_values(
            |m: ModelInfo| info_view(m),
        ).to_multiset().insert(info_view(x)),
{
    let name = crate::text::to_chars(x.filename.as_str());
    let mut p: usize = 0;
    while p < out.len() && !lt_name_at(&name, out, p)
        invariant
            p <= out@.len(),
            name@ == x.filename@,
            forall|k: int| 0 <= k < p ==> !name_lt(x.filename@, #[trigger] out@[k].filename@),
        decreases out@.len() - p,
    {
        p = p + 1;
    }
    let ghost before = out@;
    proof {
        assert forall|k: int| p <= k < before.len() implies name_lt(x.filename@, #[trigger] before[k].filename@) by {
            if p < before.len() {
                lemma_lt_total(x.filename@, before[p as int].filename@);
                assert(name_lt(x.filename@, before[p as int].filename@));
                if k > p {
                    assert(name_le(before[p as int].filename@, before[k].filename@));
                    lemma_lt_total(before[p as int].filename@, before[k].filename@);
                    if before[p as int].filename@ == before[k].filename@ {
                    } else {
                        lemma_lt_trans(x.filename@, before[p as int].filename@, before[k].filename@);
                    }
                }
            }
        }
    }
    out.insert(p, x);
    proof {
        let after = out@;
        assert(after == before.insert(p as int, x));
        assert forall|i: int, j: int| 0 <= i < j < after.len() implies name_le(
            after[i].filename@,
            after[j].filename@,
        ) by {
            lemma_lt_asym(after[i].filename@, after[j].filename@);
            lemma_lt_asym(after[j].filename@, after[i].filename@);
            if i < p && j == p {
                lemma_lt_total(x.filename@, before[i].filename@);
            } else if i == p && j > p {
                lemma_lt_asym(x.filename@, before[j - 1].filename@);
            } else if i < p && j > p {
                assert(name_le(before[i].filename@, before[j - 1].filename@));
            } else if j < p {
                assert(name_le(before[i].filename@, before[j].filename@));
            } else {
                assert(name_le(before[i - 1].filename@, before[j - 1].filename@));
            }
        }
        let f = |m: ModelInfo| info_view(m);
        assert(after.map_values(f) =~= before.map_values(f).insert(p as int, info_view(x)));
    }
}

fn lt_name_at(name: &Vec<char>, out: &Vec<ModelInfo>, p: usize) -> (r: bool)
    requires
        p < out@.len(),
    ensures
        r == name_lt(name@, out@[p as int].filename@),
{
    let other = crate::text::to_chars(out[p].filename.as_str());
    lt_chars(name, &other)
}

fn lt_chars(a: &Vec<char>, b: &Vec<char>) -> (r: bool)
    ensures
        r == name_lt(a@, b@),
{
    let mut i: usize = 0;
    assert(a@.skip(0) =~= a@);
    assert(b@.skip(0) =~= b@);
    while i < a.len() && i < b.len() && a[i] == b[i]
        invariant
            i <= a@.len(),
            i <= b@.len(),
            name_lt(a@, b@) == name_lt(a@.skip(i as int), b@.skip(i as int)),
        decreases a@.len() - i,
    {
        proof {
            let sa = a@.skip(i as int);
            let sb = b@.skip(i as int);
            assert(sa.drop_first() =~= a@.skip(i + 1));
            assert(sb.drop_first() =~= b@.skip(i + 1));
        }
        i = i + 1;
    }
    proof {
        let sa = a@.skip(i as int);
        let sb = b@.skip(i as int);
        if i < a@.len() {
            assert(sa[0] == a@[i as int]);
        }
        if i < b@.len() {
            assert(sb[0] == b@[i as int]);
        }
    }
    if i == a.len() {
        i < b.len()
    } else if i == b.len() {
        false
    } else {
        (a[i] as u32) < (b[i] as u32)
    }
}

/// The picker list: the GGUF entries of the models directory sorted by file
/// name (none when the directory does not exist), then `extra` (the active
/// model when it lives outside the directory), which is always listed.
pub fn list_models_from(models_dir_exists: bool, entries: &Vec<ModelEntry>, extra: Option<ModelInfo>) -> (r: Vec<ModelInfo>)
    ensures
        !models_dir_exists ==> r@.map_values(|m: ModelInfo| info_view(m)) == match extra {
            Some(x) => seq![info_view(x)],
            None => Seq::empty(),
        },
        models_dir_exists ==> {
            let k = gguf_views(entries@).len();
            &&& r@.len() == k + (if extra is Some { 1int } else { 0int })
            &&& sorted_by_name(r@.take(k as int))
            &&& r@.take(k as int).map_values(|m: ModelInfo| info_view(m)).to_multiset()
                == gguf_views(entries@).to_multiset()
            &&& extra matches Some(x) ==> info_view(r@.last()) == info_view(x)
        },
{
    let mut out: Vec<ModelInfo> = Vec::new();
    if !models_dir_exists {
        match extra {
            Some(x) => {
                out.push(x);
            },
            None => {},
        }
        assert(out@.map_values(|m: ModelInfo| info_view(m)) =~= match extra {
            Some(x) => seq![info_view(x)],
            None => Seq::<(Seq<char>, Seq<char>, Seq<char>, u64, i64)>::empty(),
        });
        return out;
    }
    let mut i: usize = 0;
    proof {
        assert(entries@.take(0) =~= Seq::<ModelEntry>::empty());
        assert(out@.map_values(|m: ModelInfo| info_view(m)) =~= Seq::<(Seq<char>, Seq<char>, Seq<char>, u64, i64)>::empty());
    }
    while i < entries.len()
        invariant
            i <= entries@.len(),
            sorted_by_name(out@),
            out@.len() == gguf_views(entries@.take(i as int)).len(),
            out@.map_values(|m: ModelInfo| info_view(m)).to_multiset() == gguf_views(
                entries@.take(i as int),
            ).to_multiset(),
        decreases entries@.len() - i,
    {
        let e = &entries[i];
        proof {
            assert(entries@.take(i + 1).drop_last() =~= entries@.take(i as int));
        }
        let name = crate::text::to_chars(e.name.as_str());
        let ext = crate::text::to_chars(".gguf");
        if name.len() > 5 && crate::text::ends_with_chars(&name, &ext) {
            let m = ModelInfo::describe(e.name.clone(), e.size, e.modified);
            let ghost before = out@;
            insert_sorted(&mut out, m);
            proof {
                assert(info_view(m) == entry_view(entries@[i as int]));
                let f = |m: ModelInfo| info_view(m);
                assert(out@.map_values(f).len() == out@.len());
                assert(before.map_values(f).to_multiset().len() == before.len()) by {
                    vstd::seq_lib::to_multiset_len(before.map_values(f));
                }
                assert(out@.map_values(f).to_multiset().len() == out@.len()) by {
                    vstd::seq_lib::to_multiset_len(out@.map_values(f));
                }
            }
        }
        i = i + 1;
    }
    assert(entries@.take(entries@.len() as int) =~= entries@);
    let k = out.len();
    let ghost sorted_part = out@;
    match extra {
        Some(x) => {
            out.push(x);
        },
        None => {},
    }
    assert(out@.take(k as int) =~= sorted_part);
    out
}

} // verus!

verus! {

/// Whether the active model is listed after the directory's models: it is
/// configured, exists, and its directory is not the models directory.
pub open spec fn extra_listed(active: Seq<char>, exists: bool, models_dir: Seq<char>) -> bool {
    active.len() > 0 && exists && match crate::paths::path_parent(active) {
        Some(d) => !crate::paths::path_eq(d, models_dir),
        None => true,
    }
}

/// The active model's entry when it lives outside the models directory: its
/// full path as file name, tags parsed from its last component.
pub fn extra_model(active_model: &str, exists: bool, models_dir: &str, size: u64, modified: i64) -> (r: Option<ModelInfo>)
    ensures
        r is Some <==> extra_listed(active_model@, exists, models_dir@),
        r matches Some(m) ==> {
            let leaf = match crate::paths::path_file_name(active_model@) {
                Some(n) => n,
                None => Seq::empty(),
            };
            &&& m.filename@ == active_model@
            &&& m.quant_type@ == first_tag(quant_tags(), uppercase(leaf), 0, "UNKNOWN"@)
            &&& m.param_count@ == first_tag(param_tags(), uppercase(leaf), 0, "?B"@)
            &&& m.file_size_bytes == size
            &&& m.last_modified == modified
        },
{
    if active_model.unicode_len() == 0 || !exists {
        return None;
    }
    match crate::paths::parent_of(active_model) {
        Some(d) => {
            if crate::paths::same_path(d.as_str(), models_dir) {
                return None;
            }
        },
        None => {},
    }
    let leaf = match crate::paths::file_name_of(active_model) {
        Some(n) => n,
        None => String::new(),
    };
    let (quant_type, param_count) = ModelInfo::parse_filename(leaf.as_str());
    Some(ModelInfo {
        filename: crate::text::owned(active_model),
        quant_type,
        param_count,
        file_size_bytes: size,
        last_modified: modified,
    })
}

} // verus!
