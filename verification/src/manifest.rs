//! The package manifest model and registry resolution.
//!
//! A manifest describes one package: its name, its dependencies, the
//! registries it knows, the registries it publishes to, and the patterns
//! that keep or exclude paths when the package is archived. The caller
//! parses the manifest document and hands the fields over as plain values.

use vstd::prelude::*;

use crate::textutil::str_eq;

verus! {

/// A registry definition: an HTTP endpoint serving package archives.
/// The `url` field may be absent from the manifest document.
pub struct Registry {
    pub url: Option<String>,
}

/// One entry of a manifest's registries collection, in declaration order.
/// `is_default` records whether the entry carries the `default` tag.
pub struct RegistryEntry {
    pub name: String,
    pub registry: Registry,
    pub is_default: bool,
}

/// One dependency of a package: a name, with an optional explicit
/// registry name (the object form of a dependency entry).
pub struct Dependency {
    pub name: String,
    pub registry: Option<String>,
}

/// The fields of a package manifest that this protocol consumes.
/// Absent optional fields are empty sequences, never errors.
pub struct Manifest {
    pub name: String,
    pub dependencies: Vec<Dependency>,
    pub registries: Vec<RegistryEntry>,
    pub publish: Vec<Registry>,
    pub included: Vec<String>,
    pub excluded: Vec<String>,
}

/// The index that registry resolution picks when no name is given:
/// the last entry tagged default, or the first entry when none is tagged.
pub open spec fn is_default_choice(entries: Seq<RegistryEntry>, i: int) -> bool {
    &&& 0 <= i < entries.len()
    &&& if exists|d: int| 0 <= d < entries.len() && entries[d].is_default {
        entries[i].is_default && forall|d: int| i < d < entries.len() ==> !entries[d].is_default
    } else {
        i == 0
    }
}

/// The index that registry resolution picks for an explicit name:
/// the first entry carrying that name.
pub open spec fn is_named_choice(entries: Seq<RegistryEntry>, name: Seq<char>, i: int) -> bool {
    &&& 0 <= i < entries.len()
    &&& entries[i].name@ == name
    &&& forall|j: int| 0 <= j < i ==> entries[j].name@ != name
}

/// Finds the registry a package operation should use.
///
/// With a name, the first entry of that name is picked; without one, the
/// scan keeps the first entry as a provisional choice and lets every later
/// `default` tag override it, so the last tagged entry wins. `None` means
/// no registry fits.
pub fn resolve_registry(m: &Manifest, name: Option<&str>) -> (r: Option<usize>)
    ensures
        match name {
            Some(n) => match r {
                Some(i) => is_named_choice(m.registries@, n@, i as int),
                None => forall|j: int| 0 <= j < m.registries@.len() ==> m.registries@[j].name@ != n@,
            },
            None => match r {
                Some(i) => is_default_choice(m.registries@, i as int),
                None => m.registries@.len() == 0,
            },
        },
{
    match name {
        Some(n) => {
            let len = m.registries.len();
            let mut i: usize = 0;
            while i < len
                invariant
                    i <= len,
                    len == m.registries@.len(),
                    forall|j: int| 0 <= j < i ==> m.registries@[j].name@ != n@,
                decreases len - i,
            {
                if str_eq(m.registries[i].name.as_str(), n) {
                    return Some(i);
                }
                i = i + 1;
            }
            None
        },
        None => {
            let len = m.registries.len();
            if len == 0 {
                return None;
            }
            let mut choice: usize = 0;
            let mut i: usize = 1;
            while i < len
                invariant
                    1 <= i <= len,
                    len == m.registries@.len(),
                    choice < i,
                    m.registries@[choice as int].is_default || choice == 0,
                    forall|d: int| choice < d < i ==> !m.registries@[d].is_default,
                    (exists|d: int| 0 <= d < i && m.registries@[d].is_default)
                        ==> m.registries@[choice as int].is_default,
                decreases len - i,
            {
                if m.registries[i].is_default {
                    choice = i;
                }
                i = i + 1;
            }
            Some(choice)
        },
    }
}

/// A package may be published or unpublished only when its manifest names
/// it and lists at least one publish target.
pub open spec fn publishable(m: &Manifest) -> bool {
    m.name@.len() > 0 && m.publish@.len() > 0
}

/// Whether the manifest allows publish and unpublish operations.
pub fn check_publishable(m: &Manifest) -> (r: bool)
    ensures
        r == publishable(m),
{
    let name_len = m.name.as_str().unicode_len();
    name_len > 0 && m.publish.len() > 0
}

} // verus!
