//! Package names and the paths derived from them.
//!
//! A package name may carry a leading `@` in its canonical written form
//! (`@acme/tool`). Every transfer path and on-disk directory uses the
//! stripped form, with all leading `@` characters removed.

use vstd::prelude::*;

verus! {

/// The name with its leading `@` characters removed.
pub open spec fn strip_at(s: Seq<char>) -> Seq<char>
    decreases s.len(),
{
    if s.len() > 0 && s[0] == '@' {
        strip_at(s.drop_first())
    } else {
        s
    }
}

/// The stripped name is a suffix of the original: the characters from the
/// first position that does not hold `@` onward.
proof fn lemma_strip_at_subrange(s: Seq<char>, i: int)
    requires
        0 <= i <= s.len(),
        forall|j: int| 0 <= j < i ==> s[j] == '@',
        i == s.len() || s[i] != '@',
    ensures
        strip_at(s) == s.subrange(i, s.len() as int),
    decreases i,
{
    if i == 0 {
        assert(s.subrange(0, s.len() as int) =~= s);
    } else {
        lemma_strip_at_subrange(s.drop_first(), i - 1);
        assert(s.drop_first().subrange(i - 1, s.len() - 1) =~= s.subrange(i, s.len() as int));
    }
}

/// Strips every leading `@` from a package name.
pub fn strip_name(name: &str) -> (r: String)
    ensures
        r@ == strip_at(name@),
{
    let len = name.unicode_len();
    let mut i: usize = 0;
    while i < len && name.get_char(i) == '@'
        invariant
            i <= len,
            len == name@.len(),
            forall|j: int| 0 <= j < i ==> name@[j] == '@',
        decreases len - i,
    {
        i = i + 1;
    }
    proof {
        lemma_strip_at_subrange(name@, i as int);
    }
    let rest = name.substring_char(i, len);
    rest.to_owned()
}

/// The workspace-relative directory that an installed package occupies:
/// the reserved install directory, then the stripped name.
pub open spec fn install_dir_of(name: Seq<char>) -> Seq<char> {
    "__stof__/"@ + strip_at(name)
}

/// Path of the install directory for a package, under the workspace root.
pub fn install_dir_path(name: &str) -> (r: String)
    ensures
        r@ == install_dir_of(name@),
{
    let mut out = String::new();
    out.append("__stof__/");
    let stripped = strip_name(name);
    out.append(stripped.as_str());
    out
}

/// The registry URL under which a package's archive lives:
/// `<base>/registry/<stripped name>`.
pub open spec fn download_url_of(base: Seq<char>, name: Seq<char>) -> Seq<char> {
    base + "/registry/"@ + strip_at(name)
}

/// Builds the registry transfer URL for a package.
pub fn registry_url(base: &str, name: &str) -> (r: String)
    ensures
        r@ == download_url_of(base@, name@),
{
    let mut out = base.to_owned();
    out.append("/registry/");
    let stripped = strip_name(name);
    out.append(stripped.as_str());
    out
}

} // verus!
