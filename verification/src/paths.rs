//! File-name logic on display paths: the extension and the stem of the
//! final path component.

use vstd::prelude::*;

verus! {

/// A dot starting a file extension: the last `.` of the final path
/// component, not the component's first character.
pub open spec fn is_ext_dot(s: Seq<char>, d: int) -> bool {
    &&& 0 < d < s.len()
    &&& s[d] == '.'
    &&& s[d - 1] != '/'
    &&& forall|k: int| d < k < s.len() ==> s[k] != '.' && s[k] != '/'
}

/// Where the final path component begins: position zero or right after
/// the last slash.
pub open spec fn is_component_start(s: Seq<char>, c: int) -> bool {
    &&& 0 <= c <= s.len()
    &&& (c == 0 || s[c - 1] == '/')
    &&& forall|k: int| c <= k < s.len() ==> s[k] != '/'
}

/// The extension of a path's file name: the characters after the last
/// dot of the final component, absent when that component has no dot or
/// only starts with one.
pub fn file_extension(path: &str) -> (r: Option<String>)
    ensures
        r is Some <==> exists|d: int| is_ext_dot(path@, d),
        r matches Some(e) ==> exists|d: int|
            #[trigger] is_ext_dot(path@, d) && e@ == path@.subrange(d + 1, path@.len() as int),
{
    let len = path.unicode_len();
    let mut i: usize = len;
    while i > 0
        invariant
            i <= len,
            len == path@.len(),
            forall|k: int| i <= k < len ==> path@[k] != '.' && path@[k] != '/',
        decreases i,
    {
        let c = path.get_char(i - 1);
        if c == '/' {
            proof {
                assert(forall|d: int| is_ext_dot(path@, d) ==> false);
            }
            return None;
        }
        if c == '.' {
            if i >= 2 && path.get_char(i - 2) != '/' {
                proof {
                    assert(is_ext_dot(path@, i - 1));
                }
                return Some(path.substring_char(i, len).to_owned());
            }
            proof {
                assert forall|d: int| !is_ext_dot(path@, d) by {
                    if is_ext_dot(path@, d) {
                        assert(d <= i - 1);
                    }
                }
            }
            return None;
        }
        i = i - 1;
    }
    proof {
        assert(forall|d: int| is_ext_dot(path@, d) ==> false);
    }
    None
}

/// The stem of a path's file name: the final component, minus its
/// extension when it has one.
pub fn file_stem(path: &str) -> (r: String)
    ensures
        exists|c: int|
            #[trigger] is_component_start(path@, c) && if exists|d: int| is_ext_dot(path@, d) {
                exists|d: int| #[trigger] is_ext_dot(path@, d) && r@ == path@.subrange(c, d)
            } else {
                r@ == path@.subrange(c, path@.len() as int)
            },
{
    let len = path.unicode_len();
    let mut start: usize = len;
    while start > 0 && path.get_char(start - 1) != '/'
        invariant
            start <= len,
            len == path@.len(),
            forall|k: int| start <= k < len ==> path@[k] != '/',
        decreases start,
    {
        start = start - 1;
    }
    proof {
        assert(is_component_start(path@, start as int));
    }
    match file_extension(path) {
        Some(_) => {
            let mut dot: usize = len;
            while dot > start && path.get_char(dot - 1) != '.'
                invariant
                    start <= dot <= len,
                    len == path@.len(),
                    forall|k: int| dot <= k < len ==> path@[k] != '.',
                    forall|k: int| start <= k < len ==> path@[k] != '/',
                decreases dot,
            {
                dot = dot - 1;
            }
            proof {
                let d = choose|d: int| is_ext_dot(path@, d);
                assert(start <= d < len);
                assert(dot >= 1 && path@[dot - 1] == '.');
                assert(is_ext_dot(path@, dot - 1));
            }
            path.substring_char(start, dot - 1).to_owned()
        },
        None => path.substring_char(start, len).to_owned(),
    }
}

} // verus!
