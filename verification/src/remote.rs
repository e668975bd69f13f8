//! Remote execution planning: the request that ships a unit of work to
//! a runner, and what to do with the response document.
//!
//! A directory ships as a package archive tagged `pkg`; a file ships raw,
//! tagged with its extension when it has one. The response body decodes
//! under the content type the server sent, or the binary document form
//! when it sent none; a textual result's `text` field is printed; and
//! every function the remote side tagged `local` is called back locally,
//! in the order the document lists them.

use vstd::prelude::*;

use crate::auth::{auth_header_opt, auth_header_view};
use crate::paths::{file_extension, is_ext_dot};
use crate::textutil::contains_sub;

verus! {

/// The request that carries a unit of work to the runner.
pub struct RunRequest {
    pub url: String,
    pub content_type: Option<String>,
    pub auth: Option<String>,
}

/// The content type a unit of work ships under: a directory is a package
/// archive, a file goes under its extension, an extensionless file under
/// none.
pub fn run_content_type(is_dir: bool, path: &str) -> (r: Option<String>)
    ensures
        is_dir ==> (r matches Some(t) && t@ == "pkg"@),
        !is_dir ==> match r {
            Some(t) => exists|d: int|
                #[trigger] is_ext_dot(path@, d) && t@ == path@.subrange(d + 1, path@.len() as int),
            None => !exists|d: int| is_ext_dot(path@, d),
        },
{
    if is_dir {
        Some("pkg".to_owned())
    } else {
        file_extension(path)
    }
}

/// Lays out the POST that ships a unit of work to `<address>/run`.
pub fn run_request(
    address: &str,
    content_type: Option<String>,
    user: &Option<String>,
    pass: &Option<String>,
) -> (r: RunRequest)
    ensures
        r.url@ == address@ + "/run"@,
        r.content_type == content_type,
        r.auth.deep_view() == auth_header_view(user.deep_view(), pass.deep_view()),
{
    let mut url = address.to_owned();
    url.append("/run");
    RunRequest { url, content_type, auth: auth_header_opt(user, pass) }
}

/// The format a response decodes under: the content type the server
/// sent, or the binary document form when it sent none.
pub fn response_format(content_type: Option<String>) -> (r: String)
    ensures
        r.deep_view() == match content_type.deep_view() {
            Some(t) => t,
            None => "bstof"@,
        },
{
    match content_type {
        Some(t) => t,
        None => "bstof".to_owned(),
    }
}

/// One top-level function of the decoded response document, with whether
/// the remote side tagged it for local execution.
pub struct FunctionTag {
    pub name: String,
    pub local: bool,
}

/// The names of the local-tagged functions, in document order.
pub open spec fn local_names(functions: Seq<FunctionTag>) -> Seq<Seq<char>>
    decreases functions.len(),
{
    if functions.len() == 0 {
        Seq::empty()
    } else {
        let rest = local_names(functions.drop_last());
        if functions.last().local {
            rest.push(functions.last().name@)
        } else {
            rest
        }
    }
}

/// What to do with a decoded response: print its `text` field when the
/// result is textual and the field exists, then call each local-tagged
/// function, in order.
pub struct ResponseActions {
    pub print_text: Option<String>,
    pub calls: Vec<String>,
}

/// Plans the handling of a decoded response document.
pub fn response_actions(
    format: &str,
    text_field: Option<String>,
    functions: Vec<FunctionTag>,
) -> (r: ResponseActions)
    ensures
        r.print_text.deep_view() == if contains_sub(format@, "text"@) {
            text_field.deep_view()
        } else {
            None::<Seq<char>>
        },
        r.calls.deep_view() == local_names(functions@),
{
    let print_text: Option<String> = if crate::textutil::str_contains(format, "text") {
        text_field
    } else {
        None
    };
    let ghost all = functions@;
    let mut functions = functions;
    let total = functions.len();
    proof {
        assert(all.len() == total);
    }
    let mut calls: Vec<String> = Vec::new();
    let mut taken: usize = 0;
    while functions.len() > 0
        invariant
            all.len() <= usize::MAX,
            taken + functions@.len() == all.len(),
            functions@ == all.subrange(taken as int, all.len() as int),
            calls.deep_view() == local_names(all.take(taken as int)),
        decreases functions@.len(),
    {
        let f = functions.remove(0);
        proof {
            assert(f == all[taken as int]);
            assert(functions@ =~= all.subrange(taken + 1, all.len() as int));
            assert(all.take(taken + 1).drop_last() =~= all.take(taken as int));
            assert(all.take(taken + 1).last() == f);
        }
        if f.local {
            calls.push(f.name);
            proof {
                assert(calls.deep_view() =~= local_names(all.take(taken + 1)));
            }
        }
        taken = taken + 1;
    }
    proof {
        assert(all.take(taken as int) =~= all);
    }
    ResponseActions { print_text, calls }
}

} // verus!
