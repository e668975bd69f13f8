//! The dependency installer's decision core.
//!
//! Installation walks a worklist: the requested package first, then every
//! dependency found in an installed package's manifest, in declaration
//! order. A visited set keyed by stripped package name makes a revisit a
//! no-op, so a cyclic dependency graph terminates. The caller performs the
//! downloads and extractions and feeds each installed package's manifest
//! back in.

use vstd::prelude::*;

use crate::auth::{auth_header_opt, auth_header_view};
use crate::manifest::{is_default_choice, is_named_choice, Dependency, Manifest, RegistryEntry};
use crate::pkgname::{download_url_of, install_dir_of, install_dir_path, registry_url, strip_at, strip_name};
use crate::textutil::str_eq;

verus! {

/// Why an install step was abandoned. `ManifestNotFound` is the name for
/// a workspace whose manifest the document engine could not load; the
/// caller reports it, the planning here raises the others.
#[derive(Clone, Copy, Debug, PartialEq, Eq, Structural)]
pub enum InstallError {
    ManifestNotFound,
    RegistryNotFound,
    RegistryUrlMissing,
    DownloadFailed,
    EmptyResponse,
}

/// One pending installation: a package name, with the registry name its
/// dependency entry carried, if any.
pub struct InstallRequest {
    pub name: String,
    pub registry: Option<String>,
}

/// The request stands for a dependency entry: same package name, same
/// optional registry name.
pub open spec fn req_matches_dep(req: InstallRequest, dep: Dependency) -> bool {
    &&& req.name@ == dep.name@
    &&& req.registry.deep_view() == dep.registry.deep_view()
}

/// The installer's worklist state: the queue of pending requests, in
/// order, and the stripped names already begun.
pub struct Installer {
    pub queue: Vec<InstallRequest>,
    pub visited: Vec<String>,
}

/// The registry index an install request settles on: the entry named by
/// the request, or the default-selection choice when it names none.
pub open spec fn chosen_registry(
    entries: Seq<RegistryEntry>,
    reg: Option<Seq<char>>,
    i: int,
) -> bool {
    match reg {
        Some(n) => is_named_choice(entries, n, i),
        None => is_default_choice(entries, i),
    }
}

/// No registry fits the request: the named entry is absent, or nothing is
/// declared at all.
pub open spec fn no_registry_choice(entries: Seq<RegistryEntry>, reg: Option<Seq<char>>) -> bool {
    match reg {
        Some(n) => forall|j: int| 0 <= j < entries.len() ==> entries[j].name@ != n,
        None => entries.len() == 0,
    }
}

/// Everything the caller needs to perform one download: the transfer URL,
/// the workspace-relative directory to extract into, and the optional
/// Basic-Auth header.
#[derive(Debug)]
pub struct DownloadPlan {
    pub url: String,
    pub dest: String,
    pub auth: Option<String>,
}

impl Installer {
    /// A worklist holding just the originally requested package.
    pub fn new(name: &str, registry: Option<String>) -> (s: Self)
        ensures
            s.queue@.len() == 1,
            s.queue@[0].name@ == name@,
            s.queue@[0].registry == registry,
            s.visited@.len() == 0,
    {
        let mut queue: Vec<InstallRequest> = Vec::new();
        queue.push(InstallRequest { name: name.to_owned(), registry });
        Installer { queue, visited: Vec::new() }
    }

    /// Takes the next pending request off the front of the queue.
    pub fn pop_next(&mut self) -> (r: Option<InstallRequest>)
        ensures
            match r {
                Some(req) => {
                    &&& old(self).queue@.len() > 0
                    &&& req == old(self).queue@[0]
                    &&& final(self).queue@ == old(self).queue@.drop_first()
                    &&& final(self).visited == old(self).visited
                },
                None => {
                    &&& old(self).queue@.len() == 0
                    &&& final(self).queue == old(self).queue
                    &&& final(self).visited == old(self).visited
                },
            },
    {
        if self.queue.len() == 0 {
            None
        } else {
            let req = self.queue.remove(0);
            proof {
                assert(self.queue@ =~= old(self).queue@.drop_first());
            }
            Some(req)
        }
    }

    /// Whether a stripped name was already begun.
    fn visited_has(&self, stripped: &str) -> (r: bool)
        ensures
            r == self.visited.deep_view().contains(stripped@),
    {
        let len = self.visited.len();
        let mut i: usize = 0;
        while i < len
            invariant
                i <= len,
                len == self.visited@.len(),
                forall|j: int| 0 <= j < i ==> self.visited.deep_view()[j] != stripped@,
            decreases len - i,
        {
            if str_eq(self.visited[i].as_str(), stripped) {
                proof {
                    assert(self.visited.deep_view()[i as int] == stripped@);
                }
                return true;
            }
            i = i + 1;
        }
        proof {
            assert forall|j: int| 0 <= j < self.visited.deep_view().len() implies self.visited.deep_view()[j]
                != stripped@ by {}
        }
        false
    }

    /// Marks a package as begun. A package whose stripped name was already
    /// begun is not begun again: the revisit is a no-op.
    pub fn begin(&mut self, name: &str) -> (fresh: bool)
        ensures
            fresh == !old(self).visited.deep_view().contains(strip_at(name@)),
            final(self).queue == old(self).queue,
            fresh ==> final(self).visited.deep_view() == old(self).visited.deep_view().push(
                strip_at(name@),
            ),
            !fresh ==> final(self).visited == old(self).visited,
    {
        let stripped = strip_name(name);
        if self.visited_has(stripped.as_str()) {
            false
        } else {
            self.visited.push(stripped);
            proof {
                assert(self.visited.deep_view() =~= old(self).visited.deep_view().push(
                    strip_at(name@),
                ));
            }
            true
        }
    }

    /// Appends one install request per dependency, keeping declaration
    /// order, behind everything already queued.
    pub fn push_dependencies(&mut self, deps: Vec<Dependency>)
        ensures
            final(self).visited == old(self).visited,
            final(self).queue@.len() == old(self).queue@.len() + deps@.len(),
            forall|i: int|
                0 <= i < old(self).queue@.len() ==> final(self).queue@[i] == old(self).queue@[i],
            forall|i: int|
                0 <= i < deps@.len() ==> req_matches_dep(
                    #[trigger] final(self).queue@[old(self).queue@.len() + i],
                    deps@[i],
                ),
    {
        let mut deps = deps;
        let ghost all_deps = deps@;
        let total = deps.len();
        proof {
            assert(all_deps.len() == total);
        }
        let mut taken: usize = 0;
        while deps.len() > 0
            invariant
                all_deps.len() <= usize::MAX,
                taken + deps@.len() == all_deps.len(),
                deps@ == all_deps.subrange(taken as int, all_deps.len() as int),
                self.visited == old(self).visited,
                self.queue@.len() == old(self).queue@.len() + taken,
                forall|i: int|
                    0 <= i < old(self).queue@.len() ==> self.queue@[i] == old(self).queue@[i],
                forall|i: int|
                    0 <= i < taken ==> req_matches_dep(
                        #[trigger] self.queue@[old(self).queue@.len() + i],
                        all_deps[i],
                    ),
            decreases deps@.len(),
        {
            let d = deps.remove(0);
            proof {
                assert(d == all_deps[taken as int]);
                assert(deps@ =~= all_deps.subrange(taken + 1, all_deps.len() as int));
            }
            self.queue.push(InstallRequest { name: d.name, registry: d.registry });
            taken = taken + 1;
        }
    }
}

/// Resolves a request's registry against the workspace manifest and lays
/// out the download: URL, destination directory, optional auth header.
///
/// `RegistryNotFound` comes exactly when no registry fits the request,
/// `RegistryUrlMissing` exactly when the chosen registry has no `url`.
pub fn prepare_download(
    root: &Manifest,
    req: &InstallRequest,
    user: &Option<String>,
    pass: &Option<String>,
) -> (r: Result<DownloadPlan, InstallError>)
    ensures
        (r matches Err(e) ==> e == InstallError::RegistryNotFound || e
            == InstallError::RegistryUrlMissing),
        r == Err::<DownloadPlan, InstallError>(InstallError::RegistryNotFound) <==> no_registry_choice(
            root.registries@,
            req.registry.deep_view(),
        ),
        r == Err::<DownloadPlan, InstallError>(InstallError::RegistryUrlMissing) <==> exists|i: int|
            #[trigger] chosen_registry(root.registries@, req.registry.deep_view(), i)
                && root.registries@[i].registry.url is None,
        r matches Ok(plan) ==> exists|i: int|
            {
                &&& #[trigger] chosen_registry(root.registries@, req.registry.deep_view(), i)
                &&& root.registries@[i].registry.url matches Some(u) && plan.url@
                    == download_url_of(u@, req.name@)
            },
        r matches Ok(plan) ==> plan.dest@ == install_dir_of(req.name@) && plan.auth.deep_view()
            == auth_header_view(user.deep_view(), pass.deep_view()),
{
    let reg_name: Option<&str> = match &req.registry {
        Some(s) => Some(s.as_str()),
        None => None,
    };
    match crate::manifest::resolve_registry(root, reg_name) {
        None => Err(InstallError::RegistryNotFound),
        Some(i) => {
            proof {
                assert(chosen_registry(root.registries@, req.registry.deep_view(), i as int));
            }
            match &root.registries[i].registry.url {
                None => Err(InstallError::RegistryUrlMissing),
                Some(u) => {
                    let url = registry_url(u.as_str(), req.name.as_str());
                    let dest = install_dir_path(req.name.as_str());
                    let auth = auth_header_opt(user, pass);
                    Ok(DownloadPlan { url, dest, auth })
                },
            }
        },
    }
}

/// The workspace after one package install: the package's slot under its
/// stripped name is replaced, wholesale, by what extracting the archive
/// produces; every other slot is untouched.
pub open spec fn workspace_after_install(
    w: Map<Seq<char>, Map<Seq<char>, Seq<u8>>>,
    name: Seq<char>,
    entries: Seq<crate::archive::ArchiveEntry>,
) -> Map<Seq<char>, Map<Seq<char>, Seq<u8>>> {
    w.insert(strip_at(name), crate::archive::extracted_files(entries))
}

/// Installing the same package twice in succession leaves the workspace
/// exactly as one install does: replacement, not accumulation.
pub proof fn lemma_install_idempotent(
    w: Map<Seq<char>, Map<Seq<char>, Seq<u8>>>,
    name: Seq<char>,
    entries: Seq<crate::archive::ArchiveEntry>,
)
    ensures
        workspace_after_install(workspace_after_install(w, name, entries), name, entries)
            == workspace_after_install(w, name, entries),
{
    assert(workspace_after_install(workspace_after_install(w, name, entries), name, entries)
        =~= workspace_after_install(w, name, entries));
}

/// Judges a finished download: a non-success status is `DownloadFailed`,
/// a success with an empty body is `EmptyResponse`.
pub fn accept_download(status: u16, body: &Vec<u8>) -> (r: Result<(), InstallError>)
    ensures
        r is Ok <==> 200 <= status < 300 && body@.len() > 0,
        !(200 <= status < 300) ==> r == Err::<(), InstallError>(InstallError::DownloadFailed),
        200 <= status < 300 && body@.len() == 0 ==> r == Err::<(), InstallError>(
            InstallError::EmptyResponse,
        ),
{
    if status < 200 || status >= 300 {
        Err(InstallError::DownloadFailed)
    } else if body.len() == 0 {
        Err(InstallError::EmptyResponse)
    } else {
        Ok(())
    }
}

} // verus!
