//! Archive construction: which entries of a package directory go into
//! the zip snapshot, and what extracting that snapshot produces.
//!
//! The caller walks the directory and hands every entry over with its
//! path relative to the package root; the selection here decides, the
//! caller writes the chosen entries into the zip. Three rules, in order:
//! a path holding the reserved install-directory name anywhere is always
//! skipped; a path matching an exclude pattern is skipped, even when it
//! also matches a keep pattern; when keep patterns are present, only
//! paths matching one of them survive.

use vstd::prelude::*;

use crate::textutil::contains_sub;

verus! {

/// One directory entry offered for archiving: its path relative to the
/// package root, its contents (empty for a directory), and whether it is
/// a directory.
pub struct ArchiveEntry {
    pub path: String,
    pub data: Vec<u8>,
    pub is_dir: bool,
}

/// Whether a pattern, read as a regular expression, matches a path. An
/// unparsable pattern matches nothing.
pub uninterp spec fn pattern_match_of(pattern: Seq<char>, text: Seq<char>) -> bool;

/// Relies on `regex::Regex::is_match`: whether the expression matches
/// somewhere in the text, a function of pattern and text alone. A pattern
/// `regex::Regex::new` rejects matches nothing.
#[verifier::external_body]
fn pattern_matches(pattern: &str, text: &str) -> (r: bool)
    ensures
        r == pattern_match_of(pattern@, text@),
{
    match regex::Regex::new(pattern) {
        Ok(re) => re.is_match(text),
        Err(_) => false,
    }
}

/// Some pattern of the set matches the path.
pub open spec fn matches_any(patterns: Seq<Seq<char>>, path: Seq<char>) -> bool {
    exists|i: int| 0 <= i < patterns.len() && pattern_match_of(patterns[i], path)
}

/// Whether any pattern of the set matches the path.
fn matches_any_pattern(patterns: &Vec<String>, path: &str) -> (r: bool)
    ensures
        r == matches_any(patterns.deep_view(), path@),
{
    let len = patterns.len();
    let mut i: usize = 0;
    while i < len
        invariant
            i <= len,
            len == patterns@.len(),
            forall|j: int| 0 <= j < i ==> !pattern_match_of(patterns.deep_view()[j], path@),
        decreases len - i,
    {
        if pattern_matches(patterns[i].as_str(), path) {
            proof {
                assert(pattern_match_of(patterns.deep_view()[i as int], path@));
            }
            return true;
        }
        i = i + 1;
    }
    false
}

/// The selection rule for one path: never the reserved install directory,
/// never an excluded path, and when keep patterns exist, only a kept one.
pub open spec fn selected(path: Seq<char>, keep: Seq<Seq<char>>, exclude: Seq<Seq<char>>) -> bool {
    &&& !contains_sub(path, "__stof__"@)
    &&& !matches_any(exclude, path)
    &&& (keep.len() == 0 || matches_any(keep, path))
}

/// Whether one path goes into the archive.
pub fn is_selected(path: &str, keep: &Vec<String>, exclude: &Vec<String>) -> (r: bool)
    ensures
        r == selected(path@, keep.deep_view(), exclude.deep_view()),
{
    if crate::textutil::str_contains(path, "__stof__") {
        return false;
    }
    if matches_any_pattern(exclude, path) {
        return false;
    }
    if keep.len() == 0 {
        return true;
    }
    matches_any_pattern(keep, path)
}

/// The subsequence of entries whose paths the selection rule keeps.
pub open spec fn selected_seq(
    entries: Seq<ArchiveEntry>,
    keep: Seq<Seq<char>>,
    exclude: Seq<Seq<char>>,
) -> Seq<ArchiveEntry>
    decreases entries.len(),
{
    if entries.len() == 0 {
        Seq::empty()
    } else {
        let rest = selected_seq(entries.drop_last(), keep, exclude);
        if selected(entries.last().path@, keep, exclude) {
            rest.push(entries.last())
        } else {
            rest
        }
    }
}

/// Filters a directory walk down to the entries the archive holds,
/// keeping their order.
pub fn select_entries(entries: Vec<ArchiveEntry>, keep: &Vec<String>, exclude: &Vec<String>) -> (out:
    Vec<ArchiveEntry>)
    ensures
        out@ == selected_seq(entries@, keep.deep_view(), exclude.deep_view()),
{
    let ghost all = entries@;
    let mut entries = entries;
    let total = entries.len();
    proof {
        assert(all.len() == total);
    }
    let mut out: Vec<ArchiveEntry> = Vec::new();
    let mut taken: usize = 0;
    while entries.len() > 0
        invariant
            all.len() <= usize::MAX,
            taken + entries@.len() == all.len(),
            entries@ == all.subrange(taken as int, all.len() as int),
            out@ == selected_seq(all.take(taken as int), keep.deep_view(), exclude.deep_view()),
        decreases entries@.len(),
    {
        let e = entries.remove(0);
        proof {
            assert(e == all[taken as int]);
            assert(entries@ =~= all.subrange(taken + 1, all.len() as int));
            assert(all.take(taken + 1).drop_last() =~= all.take(taken as int));
            assert(all.take(taken + 1).last() == e);
        }
        if is_selected(e.path.as_str(), keep, exclude) {
            out.push(e);
        }
        taken = taken + 1;
    }
    proof {
        assert(all.take(taken as int) =~= all);
    }
    out
}

/// The files on disk after extracting the entries into an empty
/// directory, each file written at its archived path; a later entry for
/// the same path overwrites an earlier one.
pub open spec fn extracted_files(entries: Seq<ArchiveEntry>) -> Map<Seq<char>, Seq<u8>>
    decreases entries.len(),
{
    if entries.len() == 0 {
        Map::empty()
    } else if entries.last().is_dir {
        extracted_files(entries.drop_last())
    } else {
        extracted_files(entries.drop_last()).insert(entries.last().path@, entries.last().data@)
    }
}

/// Every file that extraction produces comes from some file entry of the
/// archive, with that entry's path.
pub proof fn lemma_extracted_domain(entries: Seq<ArchiveEntry>)
    ensures
        forall|p: Seq<char>|
            extracted_files(entries).contains_key(p) ==> exists|j: int|
                0 <= j < entries.len() && !(#[trigger] entries[j]).is_dir && entries[j].path@ == p,
    decreases entries.len(),
{
    if entries.len() > 0 {
        lemma_extracted_domain(entries.drop_last());
        assert forall|p: Seq<char>| extracted_files(entries).contains_key(p) implies exists|j: int|
            0 <= j < entries.len() && !(#[trigger] entries[j]).is_dir && entries[j].path@
                == p by {
            let rest = entries.drop_last();
            if entries.last().is_dir || p != entries.last().path@ {
                assert(extracted_files(rest).contains_key(p));
                let j = choose|j: int|
                    0 <= j < rest.len() && !(#[trigger] rest[j]).is_dir && rest[j].path@ == p;
                assert(entries[j] == rest[j]);
            } else {
                assert(entries[entries.len() - 1].path@ == p);
            }
        }
    }
}

/// No path matching an exclude pattern appears in the archive, whatever
/// the keep patterns say.
pub proof fn lemma_exclude_precedence(
    entries: Seq<ArchiveEntry>,
    keep: Seq<Seq<char>>,
    exclude: Seq<Seq<char>>,
    path: Seq<char>,
)
    requires
        matches_any(exclude, path),
    ensures
        forall|k: int|
            0 <= k < selected_seq(entries, keep, exclude).len() ==> (#[trigger] selected_seq(
                entries,
                keep,
                exclude,
            )[k]).path@ != path,
    decreases entries.len(),
{
    if entries.len() > 0 {
        let rest = entries.drop_last();
        let e = entries.last();
        let sel = selected_seq(entries, keep, exclude);
        let sel_rest = selected_seq(rest, keep, exclude);
        lemma_exclude_precedence(rest, keep, exclude, path);
        assert forall|k: int| 0 <= k < sel.len() implies (#[trigger] sel[k]).path@ != path by {
            if k < sel_rest.len() {
                assert(sel[k] == sel_rest[k]);
            } else {
                assert(sel[k] == e);
                assert(!matches_any(exclude, e.path@));
            }
        }
    }
}

/// Archiving a directory and extracting the result into an empty
/// directory reproduces the original file set, minus the excluded paths
/// and the reserved install directory: a file's path is present after
/// extraction exactly when the selection rule kept it, and it holds the
/// original contents.
pub proof fn lemma_archive_round_trip(
    entries: Seq<ArchiveEntry>,
    keep: Seq<Seq<char>>,
    exclude: Seq<Seq<char>>,
)
    requires
        forall|i: int, j: int|
            0 <= i < j < entries.len() && !(#[trigger] entries[i]).is_dir && !(#[trigger] entries[j]).is_dir
                ==> entries[i].path@ != entries[j].path@,
    ensures
        forall|j: int|
            0 <= j < entries.len() && !(#[trigger] entries[j]).is_dir ==> (extracted_files(
                selected_seq(entries, keep, exclude),
            ).contains_key(entries[j].path@) <==> selected(entries[j].path@, keep, exclude)),
        forall|j: int|
            0 <= j < entries.len() && !(#[trigger] entries[j]).is_dir && selected(
                entries[j].path@,
                keep,
                exclude,
            ) ==> extracted_files(selected_seq(entries, keep, exclude))[entries[j].path@]
                == entries[j].data@,
    decreases entries.len(),
{
    if entries.len() > 0 {
        let rest = entries.drop_last();
        let e = entries.last();
        let sel = selected_seq(entries, keep, exclude);
        let sel_rest = selected_seq(rest, keep, exclude);
        let m = extracted_files(sel);
        let m_rest = extracted_files(sel_rest);
        lemma_archive_round_trip(rest, keep, exclude);
        lemma_extracted_domain(sel_rest);
        lemma_selected_seq_entries(rest, keep, exclude);
        assert(forall|i: int| 0 <= i < rest.len() ==> rest[i] == entries[i]);
        if selected(e.path@, keep, exclude) {
            assert(sel == sel_rest.push(e));
            assert(sel.drop_last() =~= sel_rest);
            assert(sel.last() == e);
            if e.is_dir {
                assert(m == m_rest);
            } else {
                assert(m == m_rest.insert(e.path@, e.data@));
            }
        } else {
            assert(m == m_rest);
        }
        // whatever extraction of the kept entries produced was itself kept
        assert forall|p: Seq<char>| m_rest.contains_key(p) implies selected(p, keep, exclude) by {
            let k = choose|k: int|
                0 <= k < sel_rest.len() && !(#[trigger] sel_rest[k]).is_dir && sel_rest[k].path@
                    == p;
            assert(selected(sel_rest[k].path@, keep, exclude));
        }
        assert forall|j: int|
            0 <= j < entries.len() && !(#[trigger] entries[j]).is_dir implies (m.contains_key(
            entries[j].path@,
        ) <==> selected(entries[j].path@, keep, exclude)) by {
            let p = entries[j].path@;
            if j == entries.len() - 1 {
                if !selected(p, keep, exclude) {
                    assert(m == m_rest);
                    assert(!m.contains_key(p));
                }
            } else {
                assert(entries[j] == rest[j]);
                if selected(e.path@, keep, exclude) && !e.is_dir {
                    assert(p != e.path@);
                }
            }
        }
        assert forall|j: int|
            0 <= j < entries.len() && !(#[trigger] entries[j]).is_dir && selected(
            entries[j].path@,
            keep,
            exclude,
        ) implies m[entries[j].path@] == entries[j].data@ by {
            if j < entries.len() - 1 {
                assert(entries[j] == rest[j]);
                if selected(e.path@, keep, exclude) && !e.is_dir {
                    assert(entries[j].path@ != e.path@);
                }
            }
        }
    }
}

/// Every entry the selection keeps is an entry of the walk, and every
/// kept file path of the walk appears among the selected entries.
pub proof fn lemma_selected_seq_entries(
    entries: Seq<ArchiveEntry>,
    keep: Seq<Seq<char>>,
    exclude: Seq<Seq<char>>,
)
    ensures
        forall|k: int|
            0 <= k < selected_seq(entries, keep, exclude).len() ==> entries.contains(
                #[trigger] selected_seq(entries, keep, exclude)[k],
            ) && selected(selected_seq(entries, keep, exclude)[k].path@, keep, exclude),
        forall|j: int|
            0 <= j < entries.len() && selected((#[trigger] entries[j]).path@, keep, exclude)
                ==> selected_seq(entries, keep, exclude).contains(entries[j]),
    decreases entries.len(),
{
    if entries.len() > 0 {
        let rest = entries.drop_last();
        let sel = selected_seq(entries, keep, exclude);
        let sel_rest = selected_seq(rest, keep, exclude);
        lemma_selected_seq_entries(rest, keep, exclude);
        assert forall|k: int| 0 <= k < sel.len() implies entries.contains(#[trigger] sel[k])
            && selected(sel[k].path@, keep, exclude) by {
            if k < sel_rest.len() {
                assert(sel[k] == sel_rest[k]);
                let i = choose|i: int| 0 <= i < rest.len() && rest[i] == sel_rest[k];
                assert(entries[i] == sel_rest[k]);
            } else {
                assert(entries[entries.len() - 1] == sel[k]);
            }
        }
        assert forall|j: int|
            0 <= j < entries.len() && selected((#[trigger] entries[j]).path@, keep, exclude) implies sel.contains(
            entries[j],
        ) by {
            if j < entries.len() - 1 {
                assert(rest[j] == entries[j]);
                assert(sel_rest.contains(entries[j]));
                let k = choose|k: int| 0 <= k < sel_rest.len() && sel_rest[k] == entries[j];
                assert(sel[k] == entries[j]);
            } else {
                assert(sel[sel.len() - 1] == entries[j]);
            }
        }
    }
}

/// Where a path already sits in the extracted file list.
fn find_path(out: &Vec<ArchiveEntry>, path: &str) -> (r: Option<usize>)
    ensures
        match r {
            Some(k) => k < out@.len() && out@[k as int].path@ == path@,
            None => forall|j: int| 0 <= j < out@.len() ==> out@[j].path@ != path@,
        },
{
    let len = out.len();
    let mut j: usize = 0;
    while j < len
        invariant
            j <= len,
            len == out@.len(),
            forall|k: int| 0 <= k < j ==> out@[k].path@ != path@,
        decreases len - j,
    {
        if crate::textutil::str_eq(out[j].path.as_str(), path) {
            return Some(j);
        }
        j = j + 1;
    }
    None
}

/// Extracts an archive into an empty directory: the resulting files, one
/// entry per distinct path, each holding what the archive's last file
/// entry for that path carried. Directory entries create no file, and a
/// later duplicate path replaces the earlier file, as on a filesystem.
pub fn extraction_files(entries: Vec<ArchiveEntry>) -> (out: Vec<ArchiveEntry>)
    ensures
        forall|k: int|
            0 <= k < out@.len() ==> !(#[trigger] out@[k]).is_dir && extracted_files(
                entries@,
            ).contains_key(out@[k].path@) && extracted_files(entries@)[out@[k].path@]
                == out@[k].data@,
        forall|p: Seq<char>|
            #[trigger] extracted_files(entries@).contains_key(p) ==> exists|k: int|
                0 <= k < out@.len() && out@[k].path@ == p,
        forall|k1: int, k2: int|
            0 <= k1 < k2 < out@.len() ==> out@[k1].path@ != out@[k2].path@,
{
    let ghost all = entries@;
    let mut entries = entries;
    let total = entries.len();
    proof {
        assert(all.len() == total);
    }
    let mut out: Vec<ArchiveEntry> = Vec::new();
    let mut taken: usize = 0;
    while entries.len() > 0
        invariant
            all.len() <= usize::MAX,
            taken + entries@.len() == all.len(),
            entries@ == all.subrange(taken as int, all.len() as int),
            forall|k: int|
                0 <= k < out@.len() ==> !(#[trigger] out@[k]).is_dir && extracted_files(
                    all.take(taken as int),
                ).contains_key(out@[k].path@) && extracted_files(
                    all.take(taken as int),
                )[out@[k].path@] == out@[k].data@,
            forall|p: Seq<char>|
                #[trigger] extracted_files(all.take(taken as int)).contains_key(p) ==> exists|
                    k: int,
                |
                    0 <= k < out@.len() && out@[k].path@ == p,
            forall|k1: int, k2: int|
                0 <= k1 < k2 < out@.len() ==> out@[k1].path@ != out@[k2].path@,
        decreases entries@.len(),
    {
        let e = entries.remove(0);
        proof {
            assert(e == all[taken as int]);
            assert(entries@ =~= all.subrange(taken + 1, all.len() as int));
            assert(all.take(taken + 1).drop_last() =~= all.take(taken as int));
            assert(all.take(taken + 1).last() == e);
        }
        if !e.is_dir {
            match find_path(&out, e.path.as_str()) {
                Some(k) => {
                    let ghost old_out = out@;
                    out.set(k, ArchiveEntry { path: e.path, data: e.data, is_dir: false });
                    proof {
                        assert(out@[k as int].path@ == old_out[k as int].path@);
                        assert forall|p: Seq<char>|
                            #[trigger] extracted_files(all.take(taken + 1)).contains_key(
                                p,
                            ) implies exists|j: int|
                            0 <= j < out@.len() && out@[j].path@ == p by {
                            if p != e.path@ {
                                assert(extracted_files(all.take(taken as int)).contains_key(p));
                                let j = choose|j: int|
                                    0 <= j < old_out.len() && old_out[j].path@ == p;
                                assert(out@[j].path@ == p);
                            } else {
                                assert(out@[k as int].path@ == p);
                            }
                        }
                    }
                },
                None => {
                    let ghost old_out = out@;
                    out.push(ArchiveEntry { path: e.path, data: e.data, is_dir: false });
                    proof {
                        assert forall|p: Seq<char>|
                            #[trigger] extracted_files(all.take(taken + 1)).contains_key(
                                p,
                            ) implies exists|j: int|
                            0 <= j < out@.len() && out@[j].path@ == p by {
                            if p != e.path@ {
                                assert(extracted_files(all.take(taken as int)).contains_key(p));
                                let j = choose|j: int|
                                    0 <= j < old_out.len() && old_out[j].path@ == p;
                                assert(out@[j].path@ == p);
                            } else {
                                assert(out@[out@.len() - 1].path@ == p);
                            }
                        }
                    }
                },
            }
        } else {
            proof {
                assert(extracted_files(all.take(taken + 1)) == extracted_files(
                    all.take(taken as int),
                ));
            }
        }
        taken = taken + 1;
    }
    proof {
        assert(all.take(taken as int) =~= all);
    }
    out
}

/// The characters with every dot replaced by an underscore.
pub open spec fn dots_to_underscores(s: Seq<char>) -> Seq<char> {
    Seq::new(s.len(), |i: int| if s[i] == '.' { '_' } else { s[i] })
}

/// Replaces every dot of a name with an underscore.
fn replace_dots(s: &str) -> (r: String)
    ensures
        r@ == dots_to_underscores(s@),
{
    let len = s.unicode_len();
    let mut out = String::new();
    let mut i: usize = 0;
    while i < len
        invariant
            i <= len,
            len == s@.len(),
            out@ == dots_to_underscores(s@).subrange(0, i as int),
        decreases len - i,
    {
        if s.get_char(i) == '.' {
            out.append("_");
            proof {
                reveal_strlit("_");
            }
        } else {
            let piece = s.substring_char(i, i + 1);
            out.append(piece);
        }
        proof {
            assert(out@ =~= dots_to_underscores(s@).subrange(0, i + 1));
        }
        i = i + 1;
    }
    proof {
        assert(dots_to_underscores(s@).subrange(0, len as int) =~= dots_to_underscores(s@));
    }
    out
}

/// Adds the fixed archive extension to a package file argument that
/// carries no dot at all.
pub fn pkg_file_arg(path: &str) -> (r: String)
    ensures
        r@ == if contains_sub(path@, "."@) {
            path@
        } else {
            path@ + ".pkg"@
        },
{
    if crate::textutil::str_contains(path, ".") {
        path.to_owned()
    } else {
        let mut s = path.to_owned();
        s.append(".pkg");
        s
    }
}

/// The default directory a package file unpacks into: `./stof/` and the
/// file's stem, with dots turned into underscores.
pub fn unpkg_default_dir(pkg_path: &str) -> (r: String)
    ensures
        exists|c: int|
            #[trigger] crate::paths::is_component_start(pkg_path@, c) && if exists|d: int|
                crate::paths::is_ext_dot(pkg_path@, d) {
                exists|d: int|
                    #[trigger] crate::paths::is_ext_dot(pkg_path@, d) && r@ == "./stof/"@
                        + dots_to_underscores(pkg_path@.subrange(c, d))
            } else {
                r@ == "./stof/"@ + dots_to_underscores(
                    pkg_path@.subrange(c, pkg_path@.len() as int),
                )
            },
{
    let stem = crate::paths::file_stem(pkg_path);
    let replaced = replace_dots(stem.as_str());
    let mut out = String::new();
    out.append("./stof/");
    out.append(replaced.as_str());
    out
}

/// Adds the fixed archive extension when the chosen output path lacks it.
pub fn normalize_archive_path(out: &str) -> (r: String)
    ensures
        r@ == if crate::textutil::has_suffix(out@, ".pkg"@) {
            out@
        } else {
            out@ + ".pkg"@
        },
{
    if crate::textutil::str_ends_with(out, ".pkg") {
        out.to_owned()
    } else {
        let mut s = out.to_owned();
        s.append(".pkg");
        s
    }
}

} // verus!
