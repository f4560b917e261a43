//! Response assembly: the value a handler turns into an HTTP response —
//! status, the two headers a download carries, and the body.

use vstd::prelude::*;
use vstd::string::*;

verus! {

/// A response body: plain text for errors and the banner, raw bytes for a
/// converted artifact.
pub enum ReplyBody {
    Text(String),
    Bytes(Vec<u8>),
}

/// Everything the HTTP layer needs to emit one response.
pub struct HttpReply {
    pub status: u16,
    pub content_type: Option<String>,
    pub content_disposition: Option<String>,
    pub body: ReplyBody,
}

/// A plain-text reply with the given status and message and no explicit
/// headers.
pub open spec fn is_error_reply(rep: HttpReply, status: u16, message: Seq<char>) -> bool {
    &&& rep.status == status
    &&& rep.content_type is None
    &&& rep.content_disposition is None
    &&& rep.body matches ReplyBody::Text(t) && t@ == message
}

/// A successful download: status 200, binary content type, an attachment
/// disposition naming `filename` (the generated output name, never the
/// caller-supplied one), and exactly `data` as body.
pub open spec fn is_download_reply(rep: HttpReply, filename: Seq<char>, data: Seq<u8>) -> bool {
    &&& rep.status == 200
    &&& rep.content_type matches Some(ct) && ct@ == "application/octet-stream"@
    &&& rep.content_disposition matches Some(cd) && cd@ == "attachment; filename=\""@ + filename
        + "\""@
    &&& rep.body matches ReplyBody::Bytes(b) && b@ == data
}

/// Builds the download response for converted bytes, naming the generated
/// output file in the disposition header.
pub fn download_reply(filename: &str, data: Vec<u8>) -> (r: HttpReply)
    ensures
        is_download_reply(r, filename@, data@),
{
    let cd = String::from_str("attachment; filename=\"").concat(filename).concat("\"");
    HttpReply {
        status: 200,
        content_type: Some(String::from_str("application/octet-stream")),
        content_disposition: Some(cd),
        body: ReplyBody::Bytes(data),
    }
}

/// The capability banner served at the root path.
pub fn home_banner() -> (r: String)
    ensures
        r@ == "DWG to DXF Converter API\n\nEndpoints:\n- POST /convert - Upload DWG file to convert to DXF"@,
{
    String::from_str(
        "DWG to DXF Converter API\n\nEndpoints:\n- POST /convert - Upload DWG file to convert to DXF",
    )
}

} // verus!
