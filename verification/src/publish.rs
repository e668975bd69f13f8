//! Publish and unpublish planning.
//!
//! Publishing uploads the package archive to every registry in the
//! manifest's publish list; unpublishing deletes it there. The plan lays
//! out one transfer per listed registry — a registry reference without a
//! URL still occupies its slot, so it can be reported — and the report
//! pairs every transfer with its outcome, whether or not it succeeded.

use vstd::prelude::*;

use crate::auth::{auth_header_opt, auth_header_view};
use crate::manifest::{publishable, Manifest};
use crate::pkgname::{download_url_of, registry_url};

verus! {

/// Why a publish or unpublish never reached the network. The planning
/// here raises `InvalidManifest`; the caller names a manifest it could
/// not load `ManifestNotFound`, and a zip build that failed
/// `ArchiveError`.
#[derive(Clone, Copy, Debug, PartialEq, Eq, Structural)]
pub enum PublishError {
    ManifestNotFound,
    InvalidManifest,
    ArchiveError,
}

/// One planned transfer: the full URL when the registry reference
/// carries one, and the optional Basic-Auth header.
#[derive(Debug)]
pub struct TransferTarget {
    pub url: Option<String>,
    pub auth: Option<String>,
}

/// How one registry answered: a status and response text, or `None` for
/// a transport error that produced no response.
pub struct TransferOutcome {
    pub status: Option<u16>,
    pub text: String,
}

/// One line of the final report: the target's URL, if it had one, and
/// the outcome of its transfer.
pub struct TransferReport {
    pub url: Option<String>,
    pub status: Option<u16>,
    pub text: String,
}

/// The target planned for one publish-list slot: same URL presence, the
/// transfer URL built from the registry's URL and the stripped package
/// name, and the header for the given credentials.
pub open spec fn target_for_slot(
    m: &Manifest,
    i: int,
    t: TransferTarget,
    user: Option<Seq<char>>,
    pass: Option<Seq<char>>,
) -> bool {
    &&& match m.publish@[i].url {
        Some(u) => t.url matches Some(built) && built@ == download_url_of(u@, m.name@),
        None => t.url is None,
    }
    &&& t.auth.deep_view() == auth_header_view(user, pass)
}

/// Plans the transfers of a publish or unpublish: one per registry in
/// the manifest's publish list, in order. A manifest without a name or
/// without publish targets is `InvalidManifest`.
pub fn transfer_targets(m: &Manifest, user: &Option<String>, pass: &Option<String>) -> (r: Result<
    Vec<TransferTarget>,
    PublishError,
>)
    ensures
        r is Ok <==> publishable(m),
        r matches Ok(v) ==> v@.len() == m.publish@.len() && forall|i: int|
            0 <= i < v@.len() ==> target_for_slot(
                m,
                i,
                #[trigger] v@[i],
                user.deep_view(),
                pass.deep_view(),
            ),
        r is Err ==> r == Err::<Vec<TransferTarget>, PublishError>(PublishError::InvalidManifest),
{
    if !crate::manifest::check_publishable(m) {
        return Err(PublishError::InvalidManifest);
    }
    let len = m.publish.len();
    let mut out: Vec<TransferTarget> = Vec::new();
    let mut i: usize = 0;
    while i < len
        invariant
            i <= len,
            len == m.publish@.len(),
            out@.len() == i,
            forall|j: int|
                0 <= j < i ==> target_for_slot(
                    m,
                    j,
                    #[trigger] out@[j],
                    user.deep_view(),
                    pass.deep_view(),
                ),
        decreases len - i,
    {
        let auth = auth_header_opt(user, pass);
        let url: Option<String> = match &m.publish[i].url {
            Some(u) => Some(registry_url(u.as_str(), m.name.as_str())),
            None => None,
        };
        out.push(TransferTarget { url, auth });
        i = i + 1;
    }
    Ok(out)
}

/// Joins every planned transfer with its outcome. Each target gets
/// exactly one report line, whatever its outcome was: one registry's
/// failure never drops another's result.
pub fn transfer_reports(targets: Vec<TransferTarget>, outcomes: Vec<TransferOutcome>) -> (r: Vec<
    TransferReport,
>)
    requires
        targets@.len() == outcomes@.len(),
    ensures
        r@.len() == targets@.len(),
        forall|i: int|
            0 <= i < r@.len() ==> (#[trigger] r@[i]).url == targets@[i].url && r@[i].status
                == outcomes@[i].status && r@[i].text == outcomes@[i].text,
{
    let ghost all_targets = targets@;
    let ghost all_outcomes = outcomes@;
    let total = targets.len();
    proof {
        assert(all_targets.len() == total);
    }
    let mut targets = targets;
    let mut outcomes = outcomes;
    let mut out: Vec<TransferReport> = Vec::new();
    let mut taken: usize = 0;
    while targets.len() > 0
        invariant
            all_targets.len() <= usize::MAX,
            taken + targets@.len() == all_targets.len(),
            outcomes@.len() == targets@.len(),
            all_outcomes.len() == all_targets.len(),
            targets@ == all_targets.subrange(taken as int, all_targets.len() as int),
            outcomes@ == all_outcomes.subrange(taken as int, all_outcomes.len() as int),
            out@.len() == taken,
            forall|i: int|
                0 <= i < taken ==> (#[trigger] out@[i]).url == all_targets[i].url && out@[i].status
                    == all_outcomes[i].status && out@[i].text == all_outcomes[i].text,
        decreases targets@.len(),
    {
        let t = targets.remove(0);
        let o = outcomes.remove(0);
        proof {
            assert(t == all_targets[taken as int]);
            assert(o == all_outcomes[taken as int]);
            assert(targets@ =~= all_targets.subrange(taken + 1, all_targets.len() as int));
            assert(outcomes@ =~= all_outcomes.subrange(taken + 1, all_outcomes.len() as int));
        }
        out.push(TransferReport { url: t.url, status: o.status, text: o.text });
        taken = taken + 1;
    }
    out
}

} // verus!
