//! The temp artifact store: allocation of uniquely named temporary files for
//! one conversion request. A `TempFile` pairs a freshly generated random
//! identifier with the file name derived from it; the actual directory is
//! chosen by the caller that performs the I/O.

use vstd::prelude::*;
use vstd::string::*;

verus! {

/// The role a temporary file plays in one conversion request.
#[derive(Clone, Copy, Debug, PartialEq, Eq, Structural)]
pub enum Role {
    Input,
    Output,
}

/// The file extension that belongs to each role: the uploaded drawing is
/// stored as `.dwg`, the converted artifact as `.dxf`.
pub open spec fn extension_of(role: Role) -> Seq<char> {
    match role {
        Role::Input => ".dwg"@,
        Role::Output => ".dxf"@,
    }
}

/// A temporary file of one request: a random identifier, the file name
/// `<id><extension>` built from it, and the file's role.
pub struct TempFile {
    pub id: String,
    pub name: String,
    pub role: Role,
}

/// The characters an identifier may consist of: lowercase hexadecimal
/// digits and hyphens.
pub open spec fn is_id_char(c: char) -> bool {
    c == '-' || ('0' <= c && c <= '9') || ('a' <= c && c <= 'f')
}

impl TempFile {
    /// Well-formedness: the identifier has the fixed generated length and
    /// character set, and the file name is the identifier followed by the
    /// role's extension.
    pub open spec fn wf(self) -> bool {
        &&& self.id@.len() == 36
        &&& forall|i: int| 0 <= i < self.id@.len() ==> is_id_char(#[trigger] self.id@[i])
        &&& self.name@ == self.id@ + extension_of(self.role)
    }
}

/// Relies on `uuid::Uuid::new_v4` and uuid's `Display` impl: the hyphenated
/// lowercase form, 36 characters of hexadecimal digits and hyphens. The
/// value is random, so nothing relates two calls.
#[verifier::external_body]
fn fresh_id() -> (r: String)
    ensures
        r@.len() == 36,
        forall|i: int| 0 <= i < r@.len() ==> is_id_char(#[trigger] r@[i]),
{
    uuid::Uuid::new_v4().to_string()
}

/// Allocates a temporary file for `role`: a fresh random identifier with
/// the role's extension appended. The file itself is not touched; the
/// caller that owns the I/O creates and deletes it under the name.
pub fn allocate(role: Role) -> (t: TempFile)
    ensures
        t.wf(),
        t.role == role,
{
    let id = fresh_id();
    let name = match role {
        Role::Input => id.clone().concat(".dwg"),
        Role::Output => id.clone().concat(".dxf"),
    };
    TempFile { id, name, role }
}

/// Two well-formed temp files that differ in identifier or in role have
/// different file names: a fresh identifier (or a different extension) can
/// never collide with another file's name.
pub proof fn lemma_distinct_names(a: TempFile, b: TempFile)
    requires
        a.wf(),
        b.wf(),
        a.id@ != b.id@ || a.role != b.role,
    ensures
        a.name@ != b.name@,
{
    reveal_strlit(".dwg");
    reveal_strlit(".dxf");
    if a.role == b.role {
        assert(a.id@ != b.id@);
        if a.name@ == b.name@ {
            assert forall|i: int| 0 <= i < 36 implies a.id@[i] == b.id@[i] by {
                assert(a.name@[i] == a.id@[i]);
                assert(b.name@[i] == b.id@[i]);
            }
            assert(a.id@ =~= b.id@);
        }
    } else {
        assert(extension_of(a.role).len() == 4);
        assert(extension_of(b.role).len() == 4);
        assert(a.name@.len() == 40);
        assert(b.name@.len() == 40);
        assert(a.name@[39] == extension_of(a.role)[3]);
        assert(b.name@[39] == extension_of(b.role)[3]);
        assert(extension_of(a.role)[3] != extension_of(b.role)[3]);
    }
}

} // verus!
