//! The pipeline orchestrator.
//!
//! A request moves strictly forward through the stages parse → fetch →
//! decode → resize → encode → respond; any stage failure maps to exactly one
//! HTTP status and an empty body. This module holds the verified
//! composition (`transcode`), the router (`route`), the reply builders, and
//! a specification-level model of the whole service
//! ([`service_reply`]) over which the service's laws are stated and proved.

use vstd::prelude::*;

use crate::codec::{decode_of, decode_rgba, encode_buffer, encode_of, resize_exact_nearest,
    resize_of};
use crate::errors::TranscodeError;
use crate::fetch::head_check_spec;
use crate::format::Format;
use crate::parse::{bytes_eq, extract, extract_spec, TranscodeRequest};

verus! {

// ---------------------------------------------------------------------------
// Transcoding: decode, resize, encode
// ---------------------------------------------------------------------------

/// The raster a successful transcode resizes the source to: `None` when the
/// body does not decode (or decodes to an empty raster no codec produces).
pub open spec fn transcode_pixels(src_fmt: Format, body: Seq<u8>, w: u32, h: u32) -> Option<
    Seq<u8>,
> {
    match decode_of(src_fmt, body) {
        None => None,
        Some(d) => if d.0 >= 1 && d.1 >= 1 {
            Some(resize_of(d.0, d.1, d.2, w, h))
        } else {
            None
        },
    }
}

/// The bytes a successful transcode responds with.
pub open spec fn transcode_spec(
    out_fmt: Format,
    src_fmt: Format,
    body: Seq<u8>,
    w: u32,
    h: u32,
) -> Option<Seq<u8>> {
    match transcode_pixels(src_fmt, body, w, h) {
        None => None,
        Some(p) => Some(encode_of(out_fmt, w, h, p)),
    }
}

/// Decodes the fetched body, resizes it to exactly `width` by `height`, and
/// re-encodes it in the requested output format. Succeeds exactly when the
/// body decodes.
///
/// A body that does not decode is a decode failure; a raster with a zero
/// dimension (which no real codec produces, but which no wrapper contract
/// rules out) is rejected the same way rather than handed to the resampler.
pub fn transcode(body: &[u8], src_fmt: Format, out_fmt: Format, width: u32, height: u32) -> (r:
    Result<Vec<u8>, TranscodeError>)
    requires
        out_fmt.is_output(),
        1 <= width <= 9999,
        1 <= height <= 9999,
    ensures
        match transcode_spec(out_fmt, src_fmt, body@, width, height) {
            None => r matches Err(e) && e is PistonImageLoadError,
            Some(b) => r matches Ok(v) && v@ == b,
        },
{
    let raster = match decode_rgba(src_fmt, body) {
        Ok(p) => p,
        Err(e) => {
            return Err(e);
        },
    };
    if raster.width == 0 || raster.height == 0 {
        return Err(TranscodeError::PistonImageLoadError);
    }
    let resized = resize_exact_nearest(&raster, width, height);
    encode_buffer(&resized, out_fmt)
}

// ---------------------------------------------------------------------------
// Routing
// ---------------------------------------------------------------------------

/// The bytes of the liveness-probe path `/health-check`.
pub open spec fn health_path() -> Seq<u8> {
    seq![47u8, 104u8, 101u8, 97u8, 108u8, 116u8, 104u8, 45u8, 99u8, 104u8, 101u8, 99u8, 107u8]
}

/// Where an inbound request goes: the liveness probe, the transcode
/// pipeline, or straight to a 404.
pub enum Route {
    /// `GET /health-check`: answered 200 with an empty body, no pipeline.
    Health,
    /// Anything malformed or non-GET: answered 404 with an empty body.
    NotFound,
    /// A well-formed GET transcode request.
    Transcode(TranscodeRequest),
}

/// Routes a request by method and path.
pub fn route(is_get: bool, path: &[u8]) -> (r: Route)
    ensures
        !is_get ==> r is NotFound,
        is_get && path@ == health_path() ==> r is Health,
        is_get && path@ != health_path() ==> match extract_spec(path@) {
            Some(m) => r matches Route::Transcode(req) && req.format == m.0 && req.width as int
                == m.1 && req.height as int == m.2 && req.src_url@ == m.3 && req.wf(),
            None => r is NotFound,
        },
{
    if !is_get {
        return Route::NotFound;
    }
    let hp: [u8; 13] = [47, 104, 101, 97, 108, 116, 104, 45, 99, 104, 101, 99, 107];
    assert(hp@ =~= health_path());
    if bytes_eq(path, hp.as_slice()) {
        return Route::Health;
    }
    match extract(path) {
        Ok(req) => Route::Transcode(req),
        Err(_) => Route::NotFound,
    }
}

// ---------------------------------------------------------------------------
// Replies
// ---------------------------------------------------------------------------

/// An HTTP reply, ready for an unverified server to write out.
pub struct HttpReply {
    /// The status code.
    pub status: u16,
    /// The `Content-Type` header, when one is owed.
    pub content_type: Option<&'static str>,
    /// The body bytes.
    pub body: Vec<u8>,
}

/// A reply, abstractly.
pub struct ReplyModel {
    /// The status code.
    pub status: int,
    /// The `Content-Type` header value.
    pub content_type: Option<Seq<char>>,
    /// The body bytes.
    pub body: Seq<u8>,
}

/// The abstraction of a concrete reply.
pub open spec fn reply_model(r: HttpReply) -> ReplyModel {
    ReplyModel {
        status: r.status as int,
        content_type: match r.content_type {
            Some(s) => Some(s@),
            None => None,
        },
        body: r.body@,
    }
}

/// The content-type string owed for an output format.
pub open spec fn mime_of(f: Format) -> Seq<char>
    recommends
        f.is_output(),
{
    if f is Png {
        "image/png"@
    } else {
        "image/jpeg"@
    }
}

/// The reply owed for a pipeline failure: its mapped status, no
/// content-type, an empty body.
pub open spec fn error_model(e: TranscodeError) -> ReplyModel {
    ReplyModel { status: e.spec_http_status() as int, content_type: None, body: Seq::empty() }
}

/// The reply owed to the liveness probe.
pub open spec fn health_model() -> ReplyModel {
    ReplyModel { status: 200, content_type: None, body: Seq::empty() }
}

/// The reply owed to any unrouted request.
pub open spec fn not_found_model() -> ReplyModel {
    ReplyModel { status: 404, content_type: None, body: Seq::empty() }
}

/// The 200 answering the liveness probe.
pub fn health_reply() -> (r: HttpReply)
    ensures
        reply_model(r) == health_model(),
{
    let r = HttpReply { status: 200, content_type: None, body: Vec::new() };
    assert(reply_model(r) =~= health_model());
    r
}

/// The 404 answering any unrouted request.
pub fn not_found_reply() -> (r: HttpReply)
    ensures
        reply_model(r) == not_found_model(),
{
    let r = HttpReply { status: 404, content_type: None, body: Vec::new() };
    assert(reply_model(r) =~= not_found_model());
    r
}

/// The reply for a pipeline failure.
pub fn error_reply(e: TranscodeError) -> (r: HttpReply)
    ensures
        reply_model(r) == error_model(e),
{
    let r = HttpReply { status: e.http_status(), content_type: None, body: Vec::new() };
    assert(reply_model(r) =~= error_model(e));
    r
}

/// The 200 carrying a transcoded image, with the content type of the
/// requested output format.
pub fn success_reply(fmt: Format, body: Vec<u8>) -> (r: HttpReply)
    requires
        fmt.is_output(),
    ensures
        reply_model(r) == (ReplyModel {
            status: 200,
            content_type: Some(mime_of(fmt)),
            body: body@,
        }),
{
    let ct = fmt.mime_str();
    let r = HttpReply { status: 200, content_type: Some(ct), body };
    assert(reply_model(r) =~= ReplyModel {
        status: 200,
        content_type: Some(mime_of(fmt)),
        body: r.body@,
    });
    r
}

// ---------------------------------------------------------------------------
// The service, abstractly
// ---------------------------------------------------------------------------

/// How the source URL behaved, as the fetch stage sees it.
pub enum SourceBehavior {
    /// The host could not be resolved or connected.
    Unreachable,
    /// A response head arrived; `body` is what reading the body yielded
    /// afterwards (`None`: a read failure).
    Responded { status: u16, content_type: Seq<u8>, body: Option<Seq<u8>> },
}

/// The reply the pipeline owes for an extracted request, given the source's
/// behavior.
pub open spec fn pipeline_reply(fmt: Format, w: u32, h: u32, src: SourceBehavior) -> ReplyModel {
    match src {
        SourceBehavior::Unreachable => error_model(TranscodeError::RemoteServerUnreachable),
        SourceBehavior::Responded { status, content_type, body } => match head_check_spec(
            status,
            content_type,
        ) {
            Err(e) => error_model(e),
            Ok(src_fmt) => match body {
                None => error_model(TranscodeError::HttpBodyError),
                Some(bytes) => match transcode_spec(fmt, src_fmt, bytes, w, h) {
                    None => error_model(TranscodeError::PistonImageLoadError),
                    Some(out) => ReplyModel {
                        status: 200,
                        content_type: Some(mime_of(fmt)),
                        body: out,
                    },
                },
            },
        },
    }
}

/// The reply the whole service owes for one request: routing, then the
/// pipeline, each stage visited once, strictly forward.
pub open spec fn service_reply(is_get: bool, path: Seq<u8>, src: SourceBehavior) -> ReplyModel {
    if !is_get {
        not_found_model()
    } else if path == health_path() {
        health_model()
    } else {
        match extract_spec(path) {
            None => not_found_model(),
            Some(m) => pipeline_reply(m.0, m.1 as u32, m.2 as u32, src),
        }
    }
}

// ---------------------------------------------------------------------------
// Laws
// ---------------------------------------------------------------------------

/// Routing: every non-GET request, and every GET whose path neither is the
/// health-check path nor parses as a transcode request, is answered 404
/// with an empty body, whatever the source would have done.
pub proof fn lemma_routing_404(is_get: bool, path: Seq<u8>, src: SourceBehavior)
    requires
        !is_get || (path != health_path() && extract_spec(path) is None),
    ensures
        service_reply(is_get, path, src) == not_found_model(),
        service_reply(is_get, path, src).status == 404,
{
}

/// Routing, grammar side: a GET path that does not match the
/// `/{png|jpg}/{width}/{height}/` prefix grammar is answered 404, whatever
/// its query string says.
pub proof fn lemma_grammar_mismatch_404(path: Seq<u8>, src: SourceBehavior)
    requires
        crate::parse::parse_path_spec(path) is None,
        path != health_path(),
    ensures
        service_reply(true, path, src) == not_found_model(),
        service_reply(true, path, src).status == 404,
{
}

/// Health check: `GET /health-check` is answered 200 with an empty body,
/// independent of the source.
pub proof fn lemma_health_check(src: SourceBehavior)
    ensures
        service_reply(true, health_path(), src) == health_model(),
        service_reply(true, health_path(), src).status == 200,
        service_reply(true, health_path(), src).body.len() == 0,
{
}

/// Success owed: a well-formed request whose source is reachable, answers
/// with a success status and a supported image content type, and hands over
/// a decodable body, is answered 200 with the requested content type and
/// the transcoded bytes.
pub proof fn lemma_success_owed(
    path: Seq<u8>,
    m: (Format, int, int, Seq<u8>),
    status: u16,
    ct: Seq<u8>,
    src_fmt: Format,
    bytes: Seq<u8>,
)
    requires
        path != health_path(),
        extract_spec(path) == Some(m),
        200 <= status < 300,
        crate::fetch::content_type_format(ct) == Some(src_fmt),
        transcode_pixels(src_fmt, bytes, m.1 as u32, m.2 as u32) is Some,
    ensures
        ({
            let r = service_reply(
                true,
                path,
                SourceBehavior::Responded { status, content_type: ct, body: Some(bytes) },
            );
            &&& r.status == 200
            &&& r.content_type == Some(mime_of(m.0))
            &&& Some(r.body) == transcode_spec(m.0, src_fmt, bytes, m.1 as u32, m.2 as u32)
        }),
{
}

/// Dimension exactness: every 200 reply of the pipeline carries the
/// encoding of a raster with exactly the requested width and height.
pub proof fn lemma_dimension_exactness(
    path: Seq<u8>,
    m: (Format, int, int, Seq<u8>),
    src: SourceBehavior,
)
    requires
        path != health_path(),
        extract_spec(path) == Some(m),
        service_reply(true, path, src).status == 200,
    ensures
        exists|p: Seq<u8>|
            service_reply(true, path, src).body == #[trigger] encode_of(
                m.0,
                m.1 as u32,
                m.2 as u32,
                p,
            ),
{
    match src {
        SourceBehavior::Unreachable => {
            assert(false);
        },
        SourceBehavior::Responded { status, content_type, body } => {
            match head_check_spec(status, content_type) {
                Err(_) => {
                    assert(false);
                },
                Ok(src_fmt) => match body {
                    None => {
                        assert(false);
                    },
                    Some(bytes) => match transcode_pixels(src_fmt, bytes, m.1 as u32, m.2 as u32) {
                        None => {
                            assert(false);
                        },
                        Some(p) => {
                            assert(service_reply(true, path, src).body == encode_of(
                                m.0,
                                m.1 as u32,
                                m.2 as u32,
                                p,
                            ));
                        },
                    },
                },
            }
        },
    }
}

/// Format fidelity: every 200 reply of the pipeline declares the content
/// type of the requested output format, and its body is the encoding in
/// exactly that format.
pub proof fn lemma_format_fidelity(
    path: Seq<u8>,
    m: (Format, int, int, Seq<u8>),
    src: SourceBehavior,
)
    requires
        path != health_path(),
        extract_spec(path) == Some(m),
        service_reply(true, path, src).status == 200,
    ensures
        service_reply(true, path, src).content_type == Some(mime_of(m.0)),
        m.0 is Png ==> service_reply(true, path, src).content_type == Some("image/png"@),
        m.0 is Jpeg ==> service_reply(true, path, src).content_type == Some("image/jpeg"@),
        exists|p: Seq<u8>|
            service_reply(true, path, src).body == #[trigger] encode_of(
                m.0,
                m.1 as u32,
                m.2 as u32,
                p,
            ),
{
    lemma_dimension_exactness(path, m, src);
}

/// Content-type gate: a source response whose content type is not a
/// supported image type is answered 404, and the reply does not depend on
/// the response body in any way — nothing obliges the fetcher to download
/// it.
pub proof fn lemma_content_type_gate(
    path: Seq<u8>,
    status: u16,
    ct: Seq<u8>,
    body: Option<Seq<u8>>,
)
    requires
        200 <= status < 300,
        crate::fetch::content_type_format(ct) is None,
    ensures
        path != health_path() && extract_spec(path) is Some ==> service_reply(
            true,
            path,
            SourceBehavior::Responded { status, content_type: ct, body },
        ) == error_model(TranscodeError::UnsupportedContentType),
        forall|other: Option<Seq<u8>>|
            #[trigger] service_reply(
                true,
                path,
                SourceBehavior::Responded { status, content_type: ct, body: other },
            ) == service_reply(
                true,
                path,
                SourceBehavior::Responded { status, content_type: ct, body },
            ),
{
}

/// Unreachable source: when the source host cannot be resolved or
/// connected, any request short of the health probe is answered 404.
pub proof fn lemma_unreachable_404(is_get: bool, path: Seq<u8>)
    requires
        !(is_get && path == health_path()),
    ensures
        service_reply(is_get, path, SourceBehavior::Unreachable).status == 404,
        service_reply(is_get, path, SourceBehavior::Unreachable).body.len() == 0,
{
}

/// Idempotence: the reply is a function of the request and of the source's
/// behavior alone, so repeating a request against an unchanged source
/// yields the same status, content type, and body. (The executable
/// pipeline's contracts tie every run to this function.)
pub proof fn lemma_idempotence(
    is_get1: bool,
    path1: Seq<u8>,
    src1: SourceBehavior,
    is_get2: bool,
    path2: Seq<u8>,
    src2: SourceBehavior,
)
    requires
        is_get1 == is_get2,
        path1 == path2,
        src1 == src2,
    ensures
        service_reply(is_get1, path1, src1) == service_reply(is_get2, path2, src2),
{
}

} // verus!
