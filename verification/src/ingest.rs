//! The upload ingestor's decision logic: which multipart part carries the
//! upload, and whether its filename is acceptable. The multipart framing
//! itself is parsed by the HTTP layer, which hands each part's name and
//! filename here.

use crate::text::is_dwg_name;
use vstd::prelude::*;
use vstd::string::*;

verus! {

/// What to do with one multipart part.
#[derive(Clone, Copy, Debug, PartialEq, Eq, Structural)]
pub enum FieldDecision {
    /// Not the `file` part: keep scanning.
    Skip,
    /// The `file` part, but it carries no filename: reject the request.
    MissingFilename,
    /// The `file` part, but its filename lacks the `.dwg` extension:
    /// reject the request.
    WrongExtension,
    /// The `file` part with an acceptable filename: take its body.
    AcceptFile,
}

/// The part's name is exactly `file`.
pub open spec fn names_file(name: Option<String>) -> bool {
    name matches Some(n) && n@ == "file"@
}

/// The part carries a filename with the `.dwg` extension.
pub open spec fn dwg_named(filename: Option<String>) -> bool {
    filename matches Some(f) && is_dwg_name(f@)
}

/// Decides what one multipart part means for the request: only a part
/// named `file` is considered, and it must carry a filename ending in
/// `.dwg` (case-insensitively).
pub fn examine_field(name: &Option<String>, filename: &Option<String>) -> (d: FieldDecision)
    ensures
        (d == FieldDecision::Skip <==> !names_file(*name)),
        (d == FieldDecision::MissingFilename <==> names_file(*name) && *filename is None),
        (d == FieldDecision::WrongExtension <==> names_file(*name) && *filename is Some
            && !dwg_named(*filename)),
        (d == FieldDecision::AcceptFile <==> names_file(*name) && dwg_named(*filename)),
{
    let key = String::from_str("file");
    let is_file = match name {
        Some(n) => n.eq(&key),
        None => false,
    };
    if !is_file {
        return FieldDecision::Skip;
    }
    match filename {
        None => FieldDecision::MissingFilename,
        Some(f) => {
            if crate::text::has_dwg_extension(f.as_str()) {
                FieldDecision::AcceptFile
            } else {
                FieldDecision::WrongExtension
            }
        },
    }
}

} // verus!
