//! The request pipeline: one conversion request as a machine that the I/O
//! layer drives. Each phase is a value; feeding it what the I/O layer
//! observed consumes it and yields the next phase or the finished request.
//! Every way to reach `Finished` guarantees that the cleanup list names
//! exactly the temporary files allocated so far, so a driver that deletes
//! what `cleanup` names leaves nothing of the request on disk, on the
//! success path and on every error path alike.

use crate::error::{ApiError, failure_to_error, map_multipart_error};
use crate::ingest::{FieldDecision, dwg_named, examine_field, names_file};
use crate::invoke::{ConversionOutcome, RunReport, classify_run};
use crate::respond::{HttpReply, download_reply, is_download_reply, is_error_reply};
use crate::store::{Role, TempFile, allocate};
use crate::text::contains_chars;
use vstd::prelude::*;
use vstd::string::*;

verus! {

/// A finished request: the reply to send, and the names of every temporary
/// file the request allocated, each to be deleted (best effort) by the
/// driver before the response is considered complete.
pub struct Finished {
    pub reply: HttpReply,
    pub cleanup: Vec<String>,
}

/// The file names a finished request asks the driver to delete.
pub open spec fn release_names(f: Finished) -> Seq<Seq<char>> {
    f.cleanup@.map_values(|s: String| s@)
}

/// Scanning multipart parts for the upload; nothing allocated yet.
pub struct Scanning {}

impl Scanning {
    /// The temp file names this phase has allocated: none yet.
    pub open spec fn allocated_names(self) -> Seq<Seq<char>> {
        Seq::empty()
    }
}

/// The `file` part was accepted; its body is being read. Nothing allocated
/// yet.
pub struct PendingBody {}

impl PendingBody {
    /// The temp file names this phase has allocated: none yet.
    pub open spec fn allocated_names(self) -> Seq<Seq<char>> {
        Seq::empty()
    }
}

/// The upload's bytes are in hand and the input temp file is allocated;
/// the driver is to write `data` under the input's name.
pub struct SaveInput {
    pub input: TempFile,
    pub data: Vec<u8>,
}

impl SaveInput {
    /// The temp file names this phase has allocated: the input file.
    pub open spec fn allocated_names(self) -> Seq<Seq<char>> {
        seq![self.input.name@]
    }
}

/// Input written and output allocated; the driver is to run the external
/// tool with the output flag, the output name, then the input name.
pub struct RunTool {
    pub input: TempFile,
    pub output: TempFile,
}

impl RunTool {
    /// The temp file names this phase has allocated: input and output.
    pub open spec fn allocated_names(self) -> Seq<Seq<char>> {
        seq![self.input.name@, self.output.name@]
    }
}

/// The tool succeeded; the driver is to read the output file back.
pub struct ReadBack {
    pub input: TempFile,
    pub output: TempFile,
}

impl ReadBack {
    /// The temp file names this phase has allocated: input and output.
    pub open spec fn allocated_names(self) -> Seq<Seq<char>> {
        seq![self.input.name@, self.output.name@]
    }
}

/// What one multipart part led to.
pub enum FieldStep {
    /// Not the upload: pull the next part.
    Skip(Scanning),
    /// The upload was accepted: read its body.
    Accept(PendingBody),
    /// The part was the upload but invalid: the request is over.
    Reject(Finished),
}

/// What the tool's run led to.
pub enum RunStep {
    /// Conversion succeeded: read the output back.
    Read(ReadBack),
    /// Conversion failed: the request is over.
    Fail(Finished),
}

/// Builds the cleanup list for the one allocated input file.
fn one_name(a: &String) -> (v: Vec<String>)
    ensures
        v@.map_values(|s: String| s@) =~= seq![a@],
{
    let mut v: Vec<String> = Vec::new();
    v.push(a.clone());
    v
}

/// Builds the cleanup list for the input and output files.
fn two_names(a: &String, b: &String) -> (v: Vec<String>)
    ensures
        v@.map_values(|s: String| s@) =~= seq![a@, b@],
{
    let mut v: Vec<String> = Vec::new();
    v.push(a.clone());
    v.push(b.clone());
    v
}

/// A finished request that rejects the client's input before anything was
/// allocated: status 400, nothing to delete.
fn reject_clean(e: ApiError) -> (f: Finished)
    requires
        e is BadRequest,
    ensures
        is_error_reply(f.reply, 400, e.spec_message()),
        release_names(f) =~= Seq::<Seq<char>>::empty(),
{
    Finished { reply: e.into_response(), cleanup: Vec::new() }
}

impl Scanning {
    /// Starts a request: scanning for the upload part.
    pub fn start() -> (s: Scanning) {
        Scanning {}
    }

    /// Feeds one multipart part's name and filename. Parts not named
    /// `file` are skipped; the first part named `file` either passes
    /// validation or ends the request with 400.
    pub fn on_field(self, name: Option<String>, filename: Option<String>) -> (r: FieldStep)
        ensures
            !names_file(name) ==> r is Skip,
            names_file(name) && filename is None ==> (r matches FieldStep::Reject(f)
                && is_error_reply(f.reply, 400, "No filename provided"@) && release_names(f)
                =~= self.allocated_names()),
            names_file(name) && filename is Some && !dwg_named(filename) ==> (r matches
                FieldStep::Reject(f) && is_error_reply(f.reply, 400, "File must be a .dwg file"@)
                && release_names(f) =~= self.allocated_names()),
            names_file(name) && dwg_named(filename) ==> r is Accept,
    {
        match examine_field(&name, &filename) {
            FieldDecision::Skip => FieldStep::Skip(Scanning {}),
            FieldDecision::MissingFilename => FieldStep::Reject(
                reject_clean(ApiError::BadRequest(String::from_str("No filename provided"))),
            ),
            FieldDecision::WrongExtension => FieldStep::Reject(
                reject_clean(ApiError::BadRequest(String::from_str("File must be a .dwg file"))),
            ),
            FieldDecision::AcceptFile => FieldStep::Accept(PendingBody {}),
        }
    }

    /// The part stream ended without an upload part: 400, nothing to
    /// delete.
    pub fn on_end_of_parts(self) -> (f: Finished)
        ensures
            is_error_reply(f.reply, 400, "No DWG file provided"@),
            release_names(f) =~= self.allocated_names(),
    {
        reject_clean(ApiError::BadRequest(String::from_str("No DWG file provided")))
    }

    /// The multipart stream itself failed to parse: 400, with the
    /// missing-boundary case recognized and given its clearer message.
    pub fn on_multipart_error(self, message: String) -> (f: Finished)
        ensures
            contains_chars(message@, "No boundary found"@) ==> is_error_reply(
                f.reply,
                400,
                "multipart/form-data request requires a boundary"@,
            ),
            !contains_chars(message@, "No boundary found"@) ==> is_error_reply(
                f.reply,
                400,
                message@,
            ),
            release_names(f) =~= self.allocated_names(),
    {
        reject_clean(map_multipart_error(message))
    }
}

impl PendingBody {
    /// The upload's bytes arrived: allocate the input temp file and hand
    /// the driver the write to perform.
    pub fn on_body(self, data: Vec<u8>) -> (s: SaveInput)
        ensures
            s.input.wf(),
            s.input.role == Role::Input,
            s.data == data,
    {
        SaveInput { input: allocate(Role::Input), data }
    }

    /// Reading the part's body failed: 400 with the parser's message,
    /// nothing to delete.
    pub fn on_body_error(self, message: String) -> (f: Finished)
        ensures
            is_error_reply(f.reply, 400, message@),
            release_names(f) =~= self.allocated_names(),
    {
        reject_clean(ApiError::BadRequest(message))
    }
}

impl SaveInput {
    /// The input file was written: allocate the output temp file and hand
    /// the driver the tool invocation.
    pub fn on_saved(self) -> (r: RunTool)
        ensures
            r.input == self.input,
            r.output.wf(),
            r.output.role == Role::Output,
    {
        RunTool { input: self.input, output: allocate(Role::Output) }
    }

    /// Creating the input file failed: 500; the allocated input name is
    /// still released.
    pub fn on_create_error(self, message: String) -> (f: Finished)
        ensures
            is_error_reply(f.reply, 500, "Failed to create temp file: "@ + message@),
            release_names(f) =~= self.allocated_names(),
    {
        let cleanup = one_name(&self.input.name);
        let e = ApiError::InternalServerError(
            String::from_str("Failed to create temp file: ").concat(message.as_str()),
        );
        Finished { reply: e.into_response(), cleanup }
    }

    /// Writing the upload's bytes failed: 500; the allocated input name is
    /// still released.
    pub fn on_write_error(self, message: String) -> (f: Finished)
        ensures
            is_error_reply(f.reply, 500, "Failed to write file: "@ + message@),
            release_names(f) =~= self.allocated_names(),
    {
        let cleanup = one_name(&self.input.name);
        let e = ApiError::InternalServerError(
            String::from_str("Failed to write file: ").concat(message.as_str()),
        );
        Finished { reply: e.into_response(), cleanup }
    }
}

impl RunTool {
    /// Feeds what the driver observed of the tool's run. A launch failure,
    /// a nonzero exit and a missing output each end the request with 500
    /// and release both allocated names; otherwise the output is read
    /// back.
    pub fn on_report(self, report: RunReport, output_exists: bool) -> (r: RunStep)
        ensures
            (match report {
                RunReport::LaunchFailed(m) => r matches RunStep::Fail(f) && is_error_reply(
                    f.reply,
                    500,
                    "Failed to execute dwg2dxf: "@ + m@,
                ) && release_names(f) =~= self.allocated_names(),
                RunReport::Exited { success, stderr } => {
                    if !success {
                        r matches RunStep::Fail(f) && is_error_reply(
                            f.reply,
                            500,
                            "Conversion failed: "@ + stderr@,
                        ) && release_names(f) =~= self.allocated_names()
                    } else if !output_exists {
                        r matches RunStep::Fail(f) && is_error_reply(
                            f.reply,
                            500,
                            "output not produced"@,
                        ) && release_names(f) =~= self.allocated_names()
                    } else {
                        r matches RunStep::Read(rb) && rb.input == self.input && rb.output
                            == self.output
                    }
                },
            }),
    {
        let cleanup = two_names(&self.input.name, &self.output.name);
        match classify_run(self.output, report, output_exists) {
            ConversionOutcome::Success(t) => RunStep::Read(ReadBack { input: self.input, output: t }),
            ConversionOutcome::Failure { origin, message } => {
                let e = failure_to_error(origin, message);
                RunStep::Fail(Finished { reply: e.into_response(), cleanup })
            },
        }
    }
}

impl ReadBack {
    /// The converted bytes are in memory: the request finishes with the
    /// download reply, and both temp names are released only now that the
    /// content is captured.
    pub fn on_read(self, data: Vec<u8>) -> (f: Finished)
        ensures
            is_download_reply(f.reply, self.output.name@, data@),
            release_names(f) =~= self.allocated_names(),
    {
        let cleanup = two_names(&self.input.name, &self.output.name);
        Finished { reply: download_reply(self.output.name.as_str(), data), cleanup }
    }

    /// Reading the output file back failed: 500; both names are still
    /// released.
    pub fn on_read_error(self, message: String) -> (f: Finished)
        ensures
            is_error_reply(f.reply, 500, "Failed to read DXF file: "@ + message@),
            release_names(f) =~= self.allocated_names(),
    {
        let cleanup = two_names(&self.input.name, &self.output.name);
        let e = ApiError::InternalServerError(
            String::from_str("Failed to read DXF file: ").concat(message.as_str()),
        );
        Finished { reply: e.into_response(), cleanup }
    }
}

} // verus!
