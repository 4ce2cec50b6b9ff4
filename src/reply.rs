//! What the bridge answers: a status with a short static message, or content
//! with its type.

use vstd::prelude::*;
use vstd::string::StringSliceAdditionalSpecFns;
use vstd::utf8::{encode_utf8, is_ascii_chars, is_ascii_chars_encode_utf8};
use crate::pktline::{encode_text_frame, flush_pkt, text_frame, MAX_PKT_PAYLOAD};
use crate::service::{
    advertisement_content_type, advertisement_type_spec, git_prefix, is_known_service,
    receive_pack, status_of, strip_git_prefix_spec, upload_pack, ErrorKind,
};

verus! {

/// The model of a reply.
pub enum ReplyView {
    Plain { status: u16, message: Seq<char> },
    Content { content_type: Seq<char>, body: Seq<u8> },
}

/// A reply: a status with a short fixed message, or content served with
/// status 200. A failure never carries subprocess diagnostics.
#[derive(Debug)]
pub enum Reply {
    Plain { status: u16, message: String },
    Content { content_type: String, body: Vec<u8> },
}

impl View for Reply {
    type V = ReplyView;

    open spec fn view(&self) -> ReplyView {
        match self {
            Reply::Plain { status, message } => ReplyView::Plain {
                status: *status,
                message: message@,
            },
            Reply::Content { content_type, body } => ReplyView::Content {
                content_type: content_type@,
                body: body@,
            },
        }
    }
}

/// The fixed message for each kind of failure.
pub open spec fn message_of(kind: ErrorKind) -> Seq<char> {
    match kind {
        ErrorKind::Client => "Invalid request"@,
        ErrorKind::NotFound => "Repository not found"@,
        ErrorKind::Conflict => "Repository already exists"@,
        ErrorKind::Subprocess => "Internal Server Error"@,
    }
}

/// The plain reply to a repository creation: 201 when the tool succeeded.
pub open spec fn created_view(success: bool) -> ReplyView {
    if success {
        ReplyView::Plain { status: 201, message: "Repository created successfully"@ }
    } else {
        ReplyView::Plain { status: 500, message: "Failed to create repository"@ }
    }
}

/// The plain reply to a repository deletion: 200 when the removal succeeded.
pub open spec fn deleted_view(success: bool) -> ReplyView {
    if success {
        ReplyView::Plain { status: 200, message: "Repository deleted successfully"@ }
    } else {
        ReplyView::Plain { status: 500, message: "Failed to delete repository"@ }
    }
}

/// The reply once the repository-creation command has run.
pub fn created_reply(success: bool) -> (r: Reply)
    ensures
        r@ == created_view(success),
{
    if success {
        Reply::Plain { status: 201, message: String::from_str("Repository created successfully") }
    } else {
        Reply::Plain { status: 500, message: String::from_str("Failed to create repository") }
    }
}

/// The reply once the repository directory has been removed, or not.
pub fn deleted_reply(success: bool) -> (r: Reply)
    ensures
        r@ == deleted_view(success),
{
    if success {
        Reply::Plain { status: 200, message: String::from_str("Repository deleted successfully") }
    } else {
        Reply::Plain { status: 500, message: String::from_str("Failed to delete repository") }
    }
}

pub open spec fn failure_view(kind: ErrorKind) -> ReplyView {
    ReplyView::Plain { status: status_of(kind), message: message_of(kind) }
}

/// The failure reply for `kind`.
pub fn failure(kind: ErrorKind) -> (r: Reply)
    ensures
        r@ == failure_view(kind),
{
    let message = match kind {
        ErrorKind::Client => String::from_str("Invalid request"),
        ErrorKind::NotFound => String::from_str("Repository not found"),
        ErrorKind::Conflict => String::from_str("Repository already exists"),
        ErrorKind::Subprocess => String::from_str("Internal Server Error"),
    };
    Reply::Plain { status: kind.status(), message }
}

/// The text announced before a reference advertisement: `# service=<s>\n`.
pub open spec fn service_line(requested: Seq<char>) -> Seq<char> {
    "# service="@ + requested + "\n"@
}

/// The advertisement body: the service line as one text frame, a flush
/// packet, then the tool's output unchanged.
pub open spec fn advertisement_body_spec(requested: Seq<char>, output: Seq<u8>) -> Seq<u8> {
    text_frame(encode_utf8(service_line(requested))) + flush_pkt() + output
}

/// Whether the service line of `requested` fits in one text frame.
pub open spec fn service_line_fits(requested: Seq<char>) -> bool {
    encode_utf8(service_line(requested)).len() <= MAX_PKT_PAYLOAD
}

/// The service line of every service this bridge runs fits in one frame.
pub proof fn lemma_known_service_line_fits(requested: Seq<char>)
    requires
        is_known_service(strip_git_prefix_spec(requested)),
    ensures
        service_line_fits(requested),
{
    reveal_strlit("# service=");
    reveal_strlit("\n");
    let bare = strip_git_prefix_spec(requested);
    assert(is_ascii_chars(upload_pack()));
    assert(is_ascii_chars(receive_pack()));
    assert(is_ascii_chars(git_prefix()));
    assert(is_ascii_chars(bare));
    if requested.len() >= 4 && requested.subrange(0, 4) == git_prefix() {
        assert(requested =~= git_prefix() + bare);
    }
    assert(is_ascii_chars(requested));
    assert(requested.len() <= 16);
    let line = service_line(requested);
    assert(is_ascii_chars(line));
    is_ascii_chars_encode_utf8(line);
}

/// The reply to a reference advertisement whose tool run succeeded with
/// `output`.
pub open spec fn advertisement_reply_spec(requested: Seq<char>, output: Seq<u8>) -> ReplyView {
    if service_line_fits(requested) {
        ReplyView::Content {
            content_type: advertisement_type_spec(requested),
            body: advertisement_body_spec(requested, output),
        }
    } else {
        failure_view(ErrorKind::Subprocess)
    }
}

/// Builds the advertisement body for `requested` around the tool's output.
/// Returns `None` exactly when the service line does not fit in one frame.
pub fn advertisement_body(requested: &str, output: &[u8]) -> (r: Option<Vec<u8>>)
    ensures
        service_line_fits(requested@) ==> (r matches Some(b) && b@ == advertisement_body_spec(
            requested@,
            output@,
        )),
        !service_line_fits(requested@) ==> r is None,
{
    let mut line = String::from_str("# service=");
    line.append(requested);
    line.append("\n");
    let framed = encode_text_frame(line.as_str());
    let mut body = match framed {
        Some(b) => b,
        None => {
            return None;
        },
    };
    let ghost start = body@;
    body.push(48u8);
    body.push(48u8);
    body.push(48u8);
    body.push(48u8);
    assert(body@ =~= start + flush_pkt());
    let ghost head = body@;
    let mut i: usize = 0;
    while i < output.len()
        invariant
            i <= output@.len(),
            body@ =~= head + output@.subrange(0, i as int),
        decreases output@.len() - i,
    {
        body.push(output[i]);
        i = i + 1;
    }
    assert(output@.subrange(0, output@.len() as int) =~= output@);
    Some(body)
}

/// The reply to a reference advertisement whose tool run succeeded.
pub fn advertisement_reply(requested: &str, output: &[u8]) -> (r: Reply)
    ensures
        r@ == advertisement_reply_spec(requested@, output@),
{
    match advertisement_body(requested, output) {
        Some(body) => Reply::Content { content_type: advertisement_content_type(requested), body },
        None => failure(ErrorKind::Subprocess),
    }
}

} // verus!
