//! One step of the directory walk: what a single entry contributes to the
//! list of matches, and whether the walk descends into it.
use vstd::prelude::*;
use vstd::utf8::encode_utf8;
use crate::flags::Flags;
use crate::matcher::{find_spec, search_bytes, searched_form, find_in, lemma_first_match, occurs_at};

verus! {

/// One matched entry: its path, and the byte span of the match within the
/// path's text.
#[derive(Debug)]
pub struct NavigationDataFeild {
    pub path: String,
    pub start: usize,
    pub end: usize,
}

/// What a directory entry is.
#[derive(Clone, Copy, Debug, PartialEq, Eq, Structural)]
pub enum EntryKind {
    File,
    Dir,
    /// Neither a regular file nor a directory.
    Other,
}

/// The UTF-8 bytes of a record's path.
pub open spec fn path_bytes(rec: NavigationDataFeild) -> Seq<u8> {
    encode_utf8(rec.path@)
}

/// `name` is the final component of `path`: its bytes end the path's bytes.
pub open spec fn is_last_component(path: Seq<char>, name: Seq<char>) -> bool {
    let pb = encode_utf8(path);
    let nb = encode_utf8(name);
    nb.len() <= pb.len() && pb.subrange(pb.len() - nb.len(), pb.len() as int) == nb
}

/// Whether `name` is the final component of `path`, compared byte for byte.
pub fn is_final_component(path: &String, name: &String) -> (r: bool)
    ensures
        r == is_last_component(path@, name@),
{
    let pb = path.as_str().as_bytes();
    let nb = name.as_str().as_bytes();
    let p_len: usize = pb.len();
    let n_len: usize = nb.len();
    if n_len > p_len {
        return false;
    }
    let off: usize = p_len - n_len;
    let mut j: usize = 0;
    while j < n_len
        invariant
            pb@ == encode_utf8(path@),
            nb@ == encode_utf8(name@),
            p_len == pb@.len(),
            n_len == nb@.len(),
            off + n_len == p_len,
            j <= n_len,
            forall|k: int| 0 <= k < j ==> pb@[off + k] == nb@[k],
        decreases n_len - j,
    {
        if pb[off + j] != nb[j] {
            assert(pb@.subrange(off as int, p_len as int)[j as int] != nb@[j as int]);
            return false;
        }
        j = j + 1;
    }
    assert(pb@.subrange(off as int, p_len as int) =~= nb@);
    true
}

/// The span that a match of `pattern` in `name` covers in the text of
/// `path`: the offset within the searched name, shifted by the length of
/// the path before the name, and as long as the pattern. None where the
/// pattern does not occur, or where the span would leave the path.
pub open spec fn record_span(path: Seq<char>, name: Seq<char>, pattern: Seq<char>, case_sensitive: bool) -> Option<(int, int)> {
    let path_len = encode_utf8(path).len() as int;
    let name_len = search_bytes(name, case_sensitive).len() as int;
    match find_spec(name, pattern, case_sensitive) {
        Some((i, _)) => {
            let start = path_len - name_len + i;
            let end = start + encode_utf8(pattern).len();
            if name_len <= path_len && end <= path_len {
                Some((start, end))
            } else {
                None
            }
        },
        None => None,
    }
}

/// Whether the filters select an entry of this kind: files with `file`,
/// directories with `dir`, and every entry when neither is set.
pub open spec fn kind_selected(args: Flags, kind: EntryKind) -> bool {
    let neither = !args.file && !args.dir;
    match kind {
        EntryKind::File => args.file || neither,
        EntryKind::Dir => args.dir || neither,
        EntryKind::Other => neither,
    }
}

/// What holds of every record that a walk with these flags emits: its span
/// lies within the path's text, and with case sensitivity that text equals
/// the pattern.
pub open spec fn record_ok(rec: NavigationDataFeild, args: Flags) -> bool {
    &&& rec.start <= rec.end <= path_bytes(rec).len()
    &&& args.case_sensitive ==> path_bytes(rec).subrange(rec.start as int, rec.end as int)
        == encode_utf8(args.sub_str@)
}

/// The record for an entry whose text is `path` and whose final component is
/// `name`, where `sub_str` occurs in the name.
pub fn get_nav_data_feild(sensitivity: bool, path: &String, name: &String, sub_str: &String) -> (r: Option<NavigationDataFeild>)
    ensures
        match (r, record_span(path@, name@, sub_str@, sensitivity)) {
            (Some(rec), Some((s, e))) => rec.path@ == path@ && rec.start == s && rec.end == e,
            (None, None) => true,
            _ => false,
        },
{
    let n = searched_form(name.as_str(), sensitivity);
    let p = searched_form(sub_str.as_str(), sensitivity);
    let path_len: usize = path.as_str().as_bytes().len();
    let name_len: usize = n.as_str().as_bytes().len();
    let pattern_len: usize = sub_str.as_str().as_bytes().len();
    match find_in(n.as_str(), p.as_str()) {
        Some((i, _)) => {
            if name_len > path_len {
                return None;
            }
            let before: usize = path_len - name_len;
            if i > path_len - before || pattern_len > path_len - before - i {
                return None;
            }
            let start: usize = before + i;
            Some(NavigationDataFeild { path: path.clone(), start, end: start + pattern_len })
        },
        None => None,
    }
}

/// With case sensitivity, the span of a record lies in the path's final
/// component and covers the pattern there.
proof fn lemma_span_covers_pattern(path: Seq<char>, name: Seq<char>, pattern: Seq<char>)
    requires
        is_last_component(path, name),
        record_span(path, name, pattern, true) is Some,
    ensures
        ({
            let (s, e) = record_span(path, name, pattern, true)->0;
            encode_utf8(path).subrange(s, e) == encode_utf8(pattern)
        }),
{
    let pb = encode_utf8(path);
    let nb = encode_utf8(name);
    let qb = encode_utf8(pattern);
    lemma_first_match(nb, qb);
    let (i, _) = find_spec(name, pattern, true)->0;
    assert(occurs_at(nb, qb, i));
    let off = pb.len() - nb.len();
    assert(pb.subrange(off + i, off + i + qb.len()) =~= nb.subrange(i, i + qb.len()));
}

/// The step of a walk at one entry. The entry's record, if the filters
/// select the entry and its name holds the pattern, is appended to `nav`;
/// the result says whether the walk descends into the entry.
pub fn visit_entry(args: &Flags, path: &String, name: &String, kind: EntryKind, nav: &mut Vec<NavigationDataFeild>) -> (descend: bool)
    requires
        is_last_component(path@, name@),
    ensures
        descend == (kind == EntryKind::Dir && args.all),
        kind_selected(*args, kind) && record_span(path@, name@, args.sub_str@, args.case_sensitive) is Some ==> ({
            let (s, e) = record_span(path@, name@, args.sub_str@, args.case_sensitive)->0;
            &&& final(nav)@.len() == old(nav)@.len() + 1
            &&& final(nav)@.subrange(0, old(nav)@.len() as int) == old(nav)@
            &&& final(nav)@.last().path@ == path@
            &&& final(nav)@.last().start == s
            &&& final(nav)@.last().end == e
        }),
        !(kind_selected(*args, kind) && record_span(path@, name@, args.sub_str@, args.case_sensitive) is Some)
            ==> final(nav)@ == old(nav)@,
        kind == EntryKind::File && !args.file && args.dir ==> final(nav)@ == old(nav)@,
        (forall|k: int| 0 <= k < old(nav)@.len() ==> record_ok(#[trigger] old(nav)@[k], *args))
            ==> forall|k: int| 0 <= k < final(nav)@.len() ==> record_ok(#[trigger] final(nav)@[k], *args),
{
    let selected = match kind {
        EntryKind::File => args.file || (!args.file && !args.dir),
        EntryKind::Dir => args.dir || (!args.file && !args.dir),
        EntryKind::Other => !args.file && !args.dir,
    };
    if selected {
        match get_nav_data_feild(args.case_sensitive, path, name, &args.sub_str) {
            Some(rec) => {
                proof {
                    if args.case_sensitive {
                        lemma_span_covers_pattern(path@, name@, args.sub_str@);
                    }
                }
                let ghost before = nav@;
                nav.push(rec);
                assert(nav@.subrange(0, before.len() as int) =~= before);
                assert(nav@[before.len() as int] == rec);
            },
            None => {},
        }
    }
    match kind {
        EntryKind::Dir => args.all,
        _ => false,
    }
}

} // verus!
