//! Service resolution: the requested service name, with an optional `git-`
//! prefix, and the content types derived from it.

use vstd::prelude::*;

verus! {

/// Whether a request asks for the reference advertisement or an RPC exchange.
#[derive(Clone, Copy, PartialEq, Eq, Structural, Debug)]
pub enum Mode {
    Advertisement,
    Rpc,
}

/// Why a request is refused, and the HTTP status each reason maps to.
#[derive(Clone, Copy, PartialEq, Eq, Structural, Debug)]
pub enum ErrorKind {
    /// Empty or unrecognized service, or a malformed repository name.
    Client,
    /// The repository is absent or lacks its root marker.
    NotFound,
    /// The repository already exists.
    Conflict,
    /// Spawning, piping or running the subprocess failed.
    Subprocess,
}

pub open spec fn status_of(k: ErrorKind) -> u16 {
    match k {
        ErrorKind::Client => 400,
        ErrorKind::NotFound => 404,
        ErrorKind::Conflict => 409,
        ErrorKind::Subprocess => 500,
    }
}

impl ErrorKind {
    /// The HTTP status code for this kind of failure.
    pub fn status(&self) -> (r: u16)
        ensures
            r == status_of(*self),
    {
        match self {
            ErrorKind::Client => 400,
            ErrorKind::NotFound => 404,
            ErrorKind::Conflict => 409,
            ErrorKind::Subprocess => 500,
        }
    }
}

pub open spec fn git_prefix() -> Seq<char> {
    seq!['g', 'i', 't', '-']
}

/// `s` without a leading `git-`, or `s` itself when it has none.
pub open spec fn strip_git_prefix_spec(s: Seq<char>) -> Seq<char> {
    if s.len() >= 4 && s.subrange(0, 4) == git_prefix() {
        s.subrange(4, s.len() as int)
    } else {
        s
    }
}

pub open spec fn upload_pack() -> Seq<char> {
    seq!['u', 'p', 'l', 'o', 'a', 'd', '-', 'p', 'a', 'c', 'k']
}

pub open spec fn receive_pack() -> Seq<char> {
    seq!['r', 'e', 'c', 'e', 'i', 'v', 'e', '-', 'p', 'a', 'c', 'k']
}

/// The services this bridge hands to the external tool.
pub open spec fn is_known_service(name: Seq<char>) -> bool {
    name == upload_pack() || name == receive_pack()
}

/// Strips a leading `git-` from a service name.
pub fn strip_git_prefix(s: &str) -> (r: &str)
    ensures
        r@ == strip_git_prefix_spec(s@),
{
    let n = s.unicode_len();
    if n >= 4 && s.get_char(0) == 'g' && s.get_char(1) == 'i' && s.get_char(2) == 't'
        && s.get_char(3) == '-' {
        assert(s@.subrange(0, 4) =~= git_prefix());
        s.substring_char(4, n)
    } else {
        s
    }
}

/// Whether the characters of `s` are exactly those of `expected`.
fn chars_equal(s: &str, expected: &str) -> (r: bool)
    ensures
        r == (s@ == expected@),
{
    let n = s.unicode_len();
    let m = expected.unicode_len();
    if n != m {
        return false;
    }
    let mut i: usize = 0;
    while i < n
        invariant
            n == s@.len(),
            m == expected@.len(),
            n == m,
            i <= n,
            forall|j: int| 0 <= j < i ==> s@[j] == expected@[j],
        decreases n - i,
    {
        if s.get_char(i) != expected.get_char(i) {
            return false;
        }
        i = i + 1;
    }
    assert(s@ =~= expected@);
    true
}

/// Whether `name` (already without its prefix) is the write-capable service,
/// after which the repository's server info is refreshed.
pub fn is_receive_service(name: &str) -> (r: bool)
    ensures
        r == (name@ == receive_pack()),
{
    proof {
        reveal_strlit("receive-pack");
    }
    assert("receive-pack"@ =~= receive_pack());
    chars_equal(name, "receive-pack")
}

/// Whether `name` (already without its prefix) is a service this bridge runs.
pub fn is_known_service_name(name: &str) -> (r: bool)
    ensures
        r == is_known_service(name@),
{
    proof {
        reveal_strlit("upload-pack");
    }
    assert("upload-pack"@ =~= upload_pack());
    chars_equal(name, "upload-pack") || is_receive_service(name)
}

/// A resolved service: the string as requested, the bare service name handed
/// to the external tool, and whether it is an advertisement or an RPC.
#[derive(Debug)]
pub struct ServiceRequest {
    pub requested: String,
    pub command: String,
    pub mode: Mode,
}

impl ServiceRequest {
    pub open spec fn wf(&self) -> bool {
        &&& self.command@ == strip_git_prefix_spec(self.requested@)
        &&& is_known_service(self.command@)
    }
}

/// Resolves a requested service string. Fails with `ErrorKind::Client` exactly
/// when the name without its `git-` prefix is not a known service (in
/// particular when it is empty).
pub fn resolve_service(raw: &str, mode: Mode) -> (r: Result<ServiceRequest, ErrorKind>)
    ensures
        is_known_service(strip_git_prefix_spec(raw@)) ==> (r matches Ok(req) && req.wf()
            && req.requested@ == raw@ && req.mode == mode),
        !is_known_service(strip_git_prefix_spec(raw@)) ==> r == Err::<ServiceRequest, ErrorKind>(
            ErrorKind::Client,
        ),
{
    let bare = strip_git_prefix(raw);
    if !is_known_service_name(bare) {
        return Err(ErrorKind::Client);
    }
    Ok(ServiceRequest { requested: raw.to_owned(), command: bare.to_owned(), mode })
}

/// `application/x-<requested>-advertisement`.
pub open spec fn advertisement_type_spec(requested: Seq<char>) -> Seq<char> {
    "application/x-"@ + requested + "-advertisement"@
}

/// `application/x-git-<command>-result`.
pub open spec fn result_type_spec(command: Seq<char>) -> Seq<char> {
    "application/x-git-"@ + command + "-result"@
}

/// The content type of a reference advertisement, echoing the requested
/// service string verbatim.
pub fn advertisement_content_type(requested: &str) -> (r: String)
    ensures
        r@ == advertisement_type_spec(requested@),
{
    let mut t = String::from_str("application/x-");
    t.append(requested);
    t.append("-advertisement");
    t
}

/// The content type of an RPC result. It is built from the bare service
/// name, so a request for `git-upload-pack` is answered with
/// `application/x-git-upload-pack-result`, the type git clients check for;
/// echoing the prefixed name would yield `application/x-git-git-...`.
pub fn result_content_type(command: &str) -> (r: String)
    ensures
        r@ == result_type_spec(command@),
{
    let mut t = String::from_str("application/x-git-");
    t.append(command);
    t.append("-result");
    t
}

} // verus!
