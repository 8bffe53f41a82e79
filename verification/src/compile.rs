//! The compile executor: it builds one target, finds in the build tool's
//! output the file that was produced, and answers with its bytes or with
//! the reason there are none.

use vstd::prelude::*;
use vstd::slice::slice_subrange;
use vstd::string::StringSliceAdditionalSpecFns;
use vstd::utf8::{decode_utf8, valid_utf8};
use crate::command::{launch, Command, CommandView};
use crate::effect::{Artifact, ArtifactView, BuildOutcome, BuildOutcomeView};
use crate::messages::{CompileResponse, CompileResponseView};

verus! {

pub const NEWLINE: u8 = 10;

pub const CARRIAGE_RETURN: u8 = 13;

pub const SPACE: u8 = 32;

/// The verbose build of one target.
pub open spec fn build_command(target: Seq<char>) -> CommandView {
    launch("make"@, seq!["VERBOSE=1"@, target], None)
}

/// Describes the verbose build of `target`.
pub fn make_command(target: &str) -> (command: Command)
    ensures
        command@ == build_command(target@),
{
    let mut args: Vec<String> = Vec::new();
    args.push("VERBOSE=1".to_owned());
    args.push(target.to_owned());
    proof {
        assert(args.deep_view() =~= seq!["VERBOSE=1"@, target@]);
    }
    Command::through_launcher("make", args, None)
}

/// The first line of `output` without its line ending, which is a
/// newline or a carriage return and a newline. Empty output has no line.
pub open spec fn first_line(output: Seq<u8>) -> Option<Seq<u8>> {
    if output.len() == 0 {
        None
    } else {
        match output.index_of_first(NEWLINE) {
            Some(end) => {
                let line = output.take(end);
                if line.len() > 0 && line.last() == CARRIAGE_RETURN {
                    Some(line.drop_last())
                } else {
                    Some(line)
                }
            },
            None => Some(output),
        }
    }
}

/// The path that a build's output names: what follows the last space on
/// its first line. Output without a first line, or without a space on it,
/// names none.
pub open spec fn output_path_of(output: Seq<u8>) -> Option<Seq<u8>> {
    match first_line(output) {
        Some(line) => match line.index_of_last(SPACE) {
            Some(space) => Some(line.skip(space + 1)),
            None => None,
        },
        None => None,
    }
}

/// Where the first line of `output` ends, given where its first newline
/// stands (`newline`, the length of the output if it has none): before
/// the newline, or before the carriage return in front of it.
pub open spec fn line_end(output: Seq<u8>, newline: int) -> int {
    if 0 < newline < output.len() && output[newline - 1] == CARRIAGE_RETURN {
        newline - 1
    } else {
        newline
    }
}

/// With the first newline of the output at `newline` (its length, if it
/// has none) and the last space of the first line at `space`, the path
/// is what stands between that space and the end of the line.
pub proof fn law_output_path(output: Seq<u8>, newline: int, space: int)
    requires
        0 <= newline <= output.len(),
        forall|k: int| 0 <= k < newline ==> output[k] != NEWLINE,
        newline < output.len() ==> output[newline] == NEWLINE,
        0 <= space < line_end(output, newline),
        output[space] == SPACE,
        forall|k: int| space < k < line_end(output, newline) ==> output[k] != SPACE,
    ensures
        output_path_of(output) == Some(output.subrange(space + 1, line_end(output, newline))),
{
    output.index_of_first_ensures(NEWLINE);
    let end = line_end(output, newline);
    let line = output.subrange(0, end);
    if newline < output.len() {
        assert(output.index_of_first(NEWLINE) == Some(newline));
        if newline > 0 {
            assert(output.take(newline).drop_last() =~= output.subrange(0, newline - 1));
        }
    }
    assert(first_line(output) == Some(line));
    line.index_of_last_ensures(SPACE);
    assert(line[space] == SPACE);
    assert(line.skip(space + 1) =~= output.subrange(space + 1, end));
}

/// Where in `output` the path stands: from `.0` up to `.1`.
fn locate_output_path(output: &Vec<u8>) -> (span: Option<(usize, usize)>)
    ensures
        span is Some <==> output_path_of(output@) is Some,
        span matches Some((from, to)) ==> from <= to <= output.len() && output_path_of(output@)
            == Some(output@.subrange(from as int, to as int)),
{
    let n = output.len();
    if n == 0 {
        return None;
    }
    let mut end: usize = 0;
    while end < n && output[end] != NEWLINE
        invariant
            end <= n,
            n == output.len(),
            forall|k: int| 0 <= k < end ==> output@[k] != NEWLINE,
        decreases n - end,
    {
        end += 1;
    }
    proof {
        output@.index_of_first_ensures(NEWLINE);
    }
    let to = if end < n && end > 0 && output[end - 1] == CARRIAGE_RETURN {
        end - 1
    } else {
        end
    };
    let ghost line = output@.subrange(0, to as int);
    proof {
        if end < n && end > 0 {
            assert(output@.take(end as int).drop_last() =~= output@.subrange(0, end - 1));
        }
        assert(first_line(output@) == Some(line));
    }
    let mut from: usize = to;
    while from > 0 && output[from - 1] != SPACE
        invariant
            from <= to <= n,
            n == output.len(),
            line == output@.subrange(0, to as int),
            forall|k: int| from <= k < to ==> line[k] != SPACE,
        decreases from,
    {
        from -= 1;
    }
    proof {
        line.index_of_last_ensures(SPACE);
    }
    if from == 0 {
        return None;
    }
    proof {
        assert(line[from - 1] == SPACE);
        assert(line.skip(from as int) =~= output@.subrange(from as int, to as int));
    }
    Some((from, to))
}

/// The path of the artifact in the output of a verbose build that
/// succeeded. The output must name one.
pub fn get_output_path_after_compile_(output: &Vec<u8>) -> (path: &[u8])
    requires
        output_path_of(output@) is Some,
    ensures
        Some(path@) == output_path_of(output@),
{
    let (from, to) = locate_output_path(output).unwrap();
    slice_subrange(output.as_slice(), from, to)
}

/// The path of the artifact in the output of a verbose build, if the
/// output names one.
pub fn find_output_path(output: &Vec<u8>) -> (path: Option<&[u8]>)
    ensures
        match path {
            Some(bytes) => output_path_of(output@) == Some(bytes@),
            None => output_path_of(output@) is None,
        },
{
    match locate_output_path(output) {
        Some(_) => Some(get_output_path_after_compile_(output)),
        None => None,
    }
}

/// `std::str::from_utf8`: the text that `bytes` hold, which there is
/// exactly when they are valid UTF-8. The text has these very bytes.
#[verifier::external_body]
fn utf8_text<'a>(bytes: &'a [u8]) -> (text: Option<&'a str>)
    ensures
        text is Some <==> valid_utf8(bytes@),
        text matches Some(s) ==> s.spec_bytes() == bytes@,
{
    match std::str::from_utf8(bytes) {
        Ok(text) => Some(text),
        Err(_) => None,
    }
}

/// Why a compile has no artifact to return.
#[derive(Clone, Copy, Debug, PartialEq, Eq, Structural)]
pub enum CompileError {
    /// The build tool could not be started.
    NotStarted,
    /// The build tool exited with a nonzero status.
    BuildFailed,
    /// The build's output names no artifact that can be read as text.
    NoOutputPath,
    /// The artifact could not be opened.
    OpenFailed,
    /// The artifact could not be read to its end.
    ReadFailed,
}

impl CompileError {
    /// The description that goes into the response.
    pub open spec fn message(self) -> Seq<char> {
        match self {
            CompileError::NotStarted => "failed to start build tool"@,
            CompileError::BuildFailed => "compilation failed"@,
            CompileError::NoOutputPath => "Failed ... path"@,
            CompileError::OpenFailed => "Failed to open just compiled file"@,
            CompileError::ReadFailed => "Failed to read just opened file."@,
        }
    }

    /// No description is empty, so an error always shows in a response.
    pub proof fn law_message_not_empty(self)
        ensures
            self.message().len() > 0,
    {
        reveal_strlit("failed to start build tool");
        reveal_strlit("compilation failed");
        reveal_strlit("Failed ... path");
        reveal_strlit("Failed to open just compiled file");
        reveal_strlit("Failed to read just opened file.");
    }

    /// The description of this error.
    pub fn describe(&self) -> (text: String)
        ensures
            text@ == self.message(),
            text@.len() > 0,
    {
        proof {
            self.law_message_not_empty();
        }
        match self {
            CompileError::NotStarted => "failed to start build tool".to_owned(),
            CompileError::BuildFailed => "compilation failed".to_owned(),
            CompileError::NoOutputPath => "Failed ... path".to_owned(),
            CompileError::OpenFailed => "Failed to open just compiled file".to_owned(),
            CompileError::ReadFailed => "Failed to read just opened file.".to_owned(),
        }
    }
}

/// The artifact's path as text: the path that the output names, when it
/// names one in valid UTF-8.
pub open spec fn artifact_path_of(output: Seq<u8>) -> Option<Seq<char>> {
    match output_path_of(output) {
        Some(bytes) => if valid_utf8(bytes) {
            Some(decode_utf8(bytes))
        } else {
            None
        },
        None => None,
    }
}

/// What follows a run of the build tool: the path of the artifact to
/// read, or the reason the compile is over.
pub open spec fn after_build(outcome: BuildOutcomeView) -> Result<Seq<char>, CompileError> {
    match outcome {
        BuildOutcomeView::NotStarted => Err(CompileError::NotStarted),
        BuildOutcomeView::Failed => Err(CompileError::BuildFailed),
        BuildOutcomeView::Succeeded(output) => match artifact_path_of(output) {
            Some(path) => Ok(path),
            None => Err(CompileError::NoOutputPath),
        },
    }
}

/// What follows the reading of the artifact: its bytes, or the reason
/// there are none.
pub open spec fn after_load(artifact: ArtifactView) -> Result<Seq<u8>, CompileError> {
    match artifact {
        ArtifactView::OpenFailed => Err(CompileError::OpenFailed),
        ArtifactView::ReadFailed => Err(CompileError::ReadFailed),
        ArtifactView::Loaded(bytes) => Ok(bytes),
    }
}

/// The response for `file`: the artifact's bytes and no error, or no
/// bytes and the error's description.
pub open spec fn response_of(file: Seq<char>, status: Result<Seq<u8>, CompileError>)
    -> CompileResponseView {
    match status {
        Ok(data) => CompileResponseView { file, data, error: Seq::empty() },
        Err(error) => CompileResponseView { file, data: Seq::empty(), error: error.message() },
    }
}

/// The response to a compile of `file` in which the build tool ended with
/// `build` and reading the artifact, where it came to that, gave
/// `artifact`.
pub open spec fn compile_of(file: Seq<char>, build: BuildOutcomeView, artifact: ArtifactView)
    -> CompileResponseView {
    match after_build(build) {
        Ok(_) => response_of(file, after_load(artifact)),
        Err(error) => response_of(file, Err(error)),
    }
}

/// The text of a path given as bytes, if they are valid UTF-8.
fn path_text(bytes: &[u8]) -> (path: Option<String>)
    ensures
        path is Some <==> valid_utf8(bytes@),
        path matches Some(p) ==> p@ == decode_utf8(bytes@),
{
    match utf8_text(bytes) {
        Some(text) => {
            proof {
                vstd::utf8::encode_utf8_decode_utf8(text@);
            }
            Some(text.to_owned())
        },
        None => None,
    }
}

/// Decides what follows a run of the build tool.
pub fn check_build(outcome: &BuildOutcome) -> (next: Result<String, CompileError>)
    ensures
        match next {
            Ok(path) => after_build(outcome@) == Ok::<Seq<char>, CompileError>(path@),
            Err(error) => after_build(outcome@) == Err::<Seq<char>, CompileError>(error),
        },
{
    match outcome {
        BuildOutcome::NotStarted => Err(CompileError::NotStarted),
        BuildOutcome::Failed => Err(CompileError::BuildFailed),
        BuildOutcome::Succeeded(output) => {
            match find_output_path(output) {
                Some(bytes) => match path_text(bytes) {
                    Some(path) => Ok(path),
                    None => Err(CompileError::NoOutputPath),
                },
                None => Err(CompileError::NoOutputPath),
            }
        },
    }
}

/// Decides what follows the reading of the artifact.
pub fn check_load(artifact: Artifact) -> (status: Result<Vec<u8>, CompileError>)
    ensures
        match status {
            Ok(data) => after_load(artifact@) == Ok::<Seq<u8>, CompileError>(data@),
            Err(error) => after_load(artifact@) == Err::<Seq<u8>, CompileError>(error),
        },
{
    match artifact {
        Artifact::OpenFailed => Err(CompileError::OpenFailed),
        Artifact::ReadFailed => Err(CompileError::ReadFailed),
        Artifact::Loaded(bytes) => Ok(bytes),
    }
}

impl CompileResponse {
    /// The response that returns an artifact.
    pub fn success(file: String, data: Vec<u8>) -> (response: CompileResponse)
        ensures
            response@ == response_of(file@, Ok(data@)),
    {
        CompileResponse { file, data, error: String::new() }
    }

    /// The response that reports an error.
    pub fn failure(file: String, error: CompileError) -> (response: CompileResponse)
        ensures
            response@ == response_of(file@, Err(error)),
    {
        CompileResponse { file, data: Vec::new(), error: error.describe() }
    }
}

/// A build that exits with a nonzero status is answered with no data and
/// with an error, whatever file the artifact would have been.
pub proof fn law_failed_build(file: Seq<char>, artifact: ArtifactView)
    ensures
        compile_of(file, BuildOutcomeView::Failed, artifact).data.len() == 0,
        compile_of(file, BuildOutcomeView::Failed, artifact).error.len() > 0,
        compile_of(file, BuildOutcomeView::Failed, artifact) == response_of(
            file,
            Err(CompileError::BuildFailed),
        ),
{
    CompileError::BuildFailed.law_message_not_empty();
}

/// A build that succeeds, names its artifact and leaves it readable is
/// answered with exactly the artifact's bytes and an empty error.
pub proof fn law_artifact_returned(file: Seq<char>, output: Seq<u8>, bytes: Seq<u8>)
    requires
        artifact_path_of(output) is Some,
    ensures
        compile_of(file, BuildOutcomeView::Succeeded(output), ArtifactView::Loaded(bytes))
            == (CompileResponseView { file, data: bytes, error: Seq::empty() }),
{
}

/// Every response names the file that was asked for and is well formed:
/// it carries data only without an error, and it carries an error unless
/// the artifact was read.
pub proof fn law_response_well_formed(
    file: Seq<char>,
    build: BuildOutcomeView,
    artifact: ArtifactView,
)
    ensures
        compile_of(file, build, artifact).file == file,
        compile_of(file, build, artifact).well_formed(),
        compile_of(file, build, artifact).is_success() <==> after_build(build) is Ok
            && artifact is Loaded,
{
    match after_build(build) {
        Ok(_) => match after_load(artifact) {
            Ok(_) => {},
            Err(error) => error.law_message_not_empty(),
        },
        Err(error) => error.law_message_not_empty(),
    }
}

} // verus!
