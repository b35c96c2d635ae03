//! Formats, format resolution, and the conversion strategies.
//!
//! A conversion strategy does not touch the filesystem or spawn processes
//! itself: its `convert` method returns a [`ConversionJob`], a state
//! machine that names each filesystem or process action in turn and
//! interprets the observed outcomes, ending in a typed result.

use vstd::prelude::*;
use crate::error::{ConverterError, ErrorModel};
use crate::text::{concat2, concat3, concat4};

verus! {

/// The closed set of document formats the crate understands.
#[derive(Debug, Clone, Copy, PartialEq, Eq, Structural)]
pub enum FileFormat {
    Markdown,
    Word,
}

/// ASCII lowercasing of one character; everything outside `A`..`Z` is kept.
pub open spec fn lower_char(c: char) -> char {
    if 65 <= c as u32 && c as u32 <= 90 {
        ((c as u32 + 32) as u8) as char
    } else {
        c
    }
}

/// ASCII lowercasing of a whole token.
pub open spec fn lower_ascii(s: Seq<char>) -> Seq<char> {
    s.map_values(|c: char| lower_char(c))
}

/// The format a token resolves to: `md` and `markdown` name Markdown,
/// `docx` names Word, in any letter case; nothing else resolves.
pub open spec fn token_format(token: Seq<char>) -> Option<FileFormat> {
    if lower_ascii(token) == "md"@ || lower_ascii(token) == "markdown"@ {
        Some(FileFormat::Markdown)
    } else if lower_ascii(token) == "docx"@ {
        Some(FileFormat::Word)
    } else {
        None
    }
}

/// How one side of a request resolves to a format: a supported format,
/// an unsupported token, or a path with no extension to read a token from.
pub enum ResolutionModel {
    Resolved(FileFormat),
    Unsupported(Seq<char>),
    NoExtension,
}

/// The resolution of one explicit format token.
pub open spec fn spec_resolve_token(token: Seq<char>) -> ResolutionModel {
    match token_format(token) {
        Some(f) => ResolutionModel::Resolved(f),
        None => ResolutionModel::Unsupported(token),
    }
}

/// The canonical extension of each format.
pub open spec fn canonical_extension(f: FileFormat) -> Seq<char> {
    match f {
        FileFormat::Markdown => "md"@,
        FileFormat::Word => "docx"@,
    }
}

/// The name of each format as it appears in messages.
pub open spec fn format_name(f: FileFormat) -> Seq<char> {
    match f {
        FileFormat::Markdown => "Markdown"@,
        FileFormat::Word => "Word"@,
    }
}

fn lower(c: char) -> (r: char)
    ensures
        r == lower_char(c),
{
    let u = c as u32;
    if 65 <= u && u <= 90 {
        ((u + 32) as u8) as char
    } else {
        c
    }
}

/// Whether `s`, lowercased as ASCII, is exactly `t`.
fn matches_ci(s: &str, t: &str) -> (b: bool)
    ensures
        b == (lower_ascii(s@) == t@),
{
    let sn = s.unicode_len();
    let tn = t.unicode_len();
    if sn != tn {
        return false;
    }
    let mut i: usize = 0;
    while i < sn
        invariant
            sn == s@.len(),
            tn == t@.len(),
            sn == tn,
            i <= sn,
            forall|j: int| 0 <= j < i ==> lower_char(s@[j]) == t@[j],
        decreases sn - i,
    {
        let c = lower(s.get_char(i));
        let d = t.get_char(i);
        if c != d {
            proof {
                assert(lower_ascii(s@)[i as int] != t@[i as int]);
            }
            return false;
        }
        i += 1;
    }
    proof {
        assert(lower_ascii(s@) =~= t@);
    }
    true
}

impl FileFormat {
    /// Resolves a format token or file extension, in any letter case.
    pub fn from_extension(ext: &str) -> (r: Result<FileFormat, ConverterError>)
        ensures
            token_format(ext@) matches Some(f) ==> r == Ok::<FileFormat, ConverterError>(f),
            token_format(ext@) is None ==> (r matches Err(e) && e@
                == ErrorModel::UnsupportedFormat(ext@)),
    {
        if matches_ci(ext, "md") || matches_ci(ext, "markdown") {
            Ok(FileFormat::Markdown)
        } else if matches_ci(ext, "docx") {
            Ok(FileFormat::Word)
        } else {
            Err(ConverterError::UnsupportedFormat { format: ext.to_owned() })
        }
    }

    /// The canonical filename extension of this format.
    pub fn to_extension(&self) -> (r: &'static str)
        ensures
            r@ == canonical_extension(*self),
    {
        match self {
            FileFormat::Markdown => "md",
            FileFormat::Word => "docx",
        }
    }
}

/// The name of a format, as interpolated into messages.
fn name_str(f: FileFormat) -> (r: &'static str)
    ensures
        r@ == format_name(f),
{
    match f {
        FileFormat::Markdown => "Markdown",
        FileFormat::Word => "Word",
    }
}

/// The value the tool's `--format` flag is given for a target format:
/// `docx` when producing Word, `markdown` when producing Markdown.
pub open spec fn format_flag(target: FileFormat) -> Seq<char> {
    match target {
        FileFormat::Markdown => "markdown"@,
        FileFormat::Word => "docx"@,
    }
}

fn flag_str(target: FileFormat) -> (r: &'static str)
    ensures
        r@ == format_flag(target),
{
    match target {
        FileFormat::Markdown => "markdown",
        FileFormat::Word => "docx",
    }
}

/// An observation the driver hands back after performing an [`Action`].
pub enum Event {
    /// Whether the input path exists on the filesystem.
    InputExists(bool),
    /// `None` when the output directory exists now; otherwise the
    /// text of the underlying creation failure.
    DirEnsured(Option<String>),
    /// The external tool could not be started; carries the spawn failure text.
    ToolFailed(String),
    /// The external tool ran to completion with the captured streams.
    ToolExited { success: bool, stdout: String, stderr: String },
    /// Whether the output path exists on the filesystem.
    OutputExists(bool),
}

/// The mathematical shape of an [`Event`].
pub enum EventModel {
    InputExists(bool),
    DirEnsured(Option<Seq<char>>),
    ToolFailed(Seq<char>),
    ToolExited { success: bool, stdout: Seq<char>, stderr: Seq<char> },
    OutputExists(bool),
}

impl View for Event {
    type V = EventModel;

    open spec fn view(&self) -> EventModel {
        match self {
            Event::InputExists(present) => EventModel::InputExists(*present),
            Event::DirEnsured(r) => EventModel::DirEnsured(
                match r {
                    Some(msg) => Some(msg@),
                    None => None,
                },
            ),
            Event::ToolFailed(msg) => EventModel::ToolFailed(msg@),
            Event::ToolExited { success, stdout, stderr } => EventModel::ToolExited {
                success: *success,
                stdout: stdout@,
                stderr: stderr@,
            },
            Event::OutputExists(present) => EventModel::OutputExists(*present),
        }
    }
}

/// The next effect a driver must perform for a machine.
pub enum Action {
    /// Report whether this path exists.
    CheckInput { path: String },
    /// Create this path's parent directory and all missing ancestors;
    /// succeed if they already exist.
    EnsureParentDir { path: String },
    /// Run the external tool with these arguments and capture its
    /// exit status and streams.
    RunTool { program: String, args: Vec<String> },
    /// Report whether this path exists.
    CheckOutput { path: String },
}

/// The mathematical shape of an [`Action`].
pub enum ActionModel {
    CheckInput(Seq<char>),
    EnsureParentDir(Seq<char>),
    RunTool { program: Seq<char>, args: Seq<Seq<char>> },
    CheckOutput(Seq<char>),
}

impl View for Action {
    type V = ActionModel;

    open spec fn view(&self) -> ActionModel {
        match self {
            Action::CheckInput { path } => ActionModel::CheckInput(path@),
            Action::EnsureParentDir { path } => ActionModel::EnsureParentDir(path@),
            Action::RunTool { program, args } => ActionModel::RunTool {
                program: program@,
                args: args.deep_view(),
            },
            Action::CheckOutput { path } => ActionModel::CheckOutput(path@),
        }
    }
}

/// Where a conversion job stands.
pub enum JobPhase {
    /// Checking that the input file exists.
    CheckingInput,
    /// Ensuring the output path's parent directory exists.
    MakingDir,
    /// Running the external tool.
    RunningTool,
    /// Checking that the tool in fact produced the output file.
    CheckingOutput,
    /// Finished, successfully or not.
    Done { result: Result<(), ConverterError> },
}

/// The mathematical shape of a [`JobPhase`].
pub enum JobPhaseModel {
    CheckingInput,
    MakingDir,
    RunningTool,
    CheckingOutput,
    Done(Result<(), ErrorModel>),
}

impl View for JobPhase {
    type V = JobPhaseModel;

    open spec fn view(&self) -> JobPhaseModel {
        match self {
            JobPhase::CheckingInput => JobPhaseModel::CheckingInput,
            JobPhase::MakingDir => JobPhaseModel::MakingDir,
            JobPhase::RunningTool => JobPhaseModel::RunningTool,
            JobPhase::CheckingOutput => JobPhaseModel::CheckingOutput,
            JobPhase::Done { result } => JobPhaseModel::Done(
                match result {
                    Ok(_) => Ok(()),
                    Err(e) => Err(e@),
                },
            ),
        }
    }
}

/// One conversion of one input file, run as a state machine: the job
/// names the next action, the driver performs it and hands the observed
/// [`Event`] back to [`ConversionJob::step`].
pub struct ConversionJob {
    pub input_path: String,
    pub output_path: String,
    pub target: FileFormat,
    pub phase: JobPhase,
}

/// The mathematical shape of a [`ConversionJob`].
pub struct JobModel {
    pub input: Seq<char>,
    pub output: Seq<char>,
    pub target: FileFormat,
    pub phase: JobPhaseModel,
}

impl View for ConversionJob {
    type V = JobModel;

    open spec fn view(&self) -> JobModel {
        JobModel {
            input: self.input_path@,
            output: self.output_path@,
            target: self.target,
            phase: self.phase@,
        }
    }
}

/// Text of the error when the output directory cannot be created.
pub open spec fn dir_failure_text(io_msg: Seq<char>) -> Seq<char> {
    "Failed to create output directory: "@ + io_msg
}

/// Text of the error when the external tool cannot be started.
pub open spec fn spawn_failure_text(io_msg: Seq<char>) -> Seq<char> {
    "Failed to execute markitdown: "@ + io_msg
        + ". Make sure markitdown is installed and available in PATH."@
}

/// Text of the error when the tool exits with a non-success status.
pub open spec fn tool_failure_text(stdout: Seq<char>, stderr: Seq<char>) -> Seq<char> {
    "Markitdown conversion failed.\nStderr: "@ + stderr + "\nStdout: "@ + stdout
}

/// Text of the error when the tool reports success but no output file exists.
pub open spec fn missing_output_text() -> Seq<char> {
    "Output file was not created successfully"@
}

/// Which events a job in this state can consume: exactly the answer to
/// the action it last asked for.
pub open spec fn job_accepts(m: JobModel, e: EventModel) -> bool {
    match m.phase {
        JobPhaseModel::CheckingInput => e is InputExists,
        JobPhaseModel::MakingDir => e is DirEnsured,
        JobPhaseModel::RunningTool => e is ToolFailed || e is ToolExited,
        JobPhaseModel::CheckingOutput => e is OutputExists,
        JobPhaseModel::Done(_) => false,
    }
}

/// The action a job demands in each non-final state.
pub open spec fn job_action(m: JobModel) -> ActionModel {
    match m.phase {
        JobPhaseModel::CheckingInput => ActionModel::CheckInput(m.input),
        JobPhaseModel::MakingDir => ActionModel::EnsureParentDir(m.output),
        JobPhaseModel::RunningTool => ActionModel::RunTool {
            program: "markitdown"@,
            args: seq![m.input, "--format"@, format_flag(m.target), "-o"@, m.output],
        },
        JobPhaseModel::CheckingOutput => ActionModel::CheckOutput(m.output),
        JobPhaseModel::Done(_) => vstd::pervasive::arbitrary(),
    }
}

/// The transition relation of a job. An event a state does not expect
/// changes nothing; [`ConversionJob::step`] refuses such events anyway.
pub open spec fn job_step(m: JobModel, e: EventModel) -> JobModel {
    let phase = match (m.phase, e) {
        (JobPhaseModel::CheckingInput, EventModel::InputExists(present)) => if present {
            JobPhaseModel::MakingDir
        } else {
            JobPhaseModel::Done(Err(ErrorModel::FileNotFound(m.input)))
        },
        (JobPhaseModel::MakingDir, EventModel::DirEnsured(r)) => match r {
            None => JobPhaseModel::RunningTool,
            Some(io_msg) => JobPhaseModel::Done(Err(ErrorModel::IoError(dir_failure_text(io_msg)))),
        },
        (JobPhaseModel::RunningTool, EventModel::ToolFailed(io_msg)) => JobPhaseModel::Done(
            Err(ErrorModel::MarkitdownError(spawn_failure_text(io_msg))),
        ),
        (JobPhaseModel::RunningTool, EventModel::ToolExited { success, stdout, stderr }) => {
            if success {
                JobPhaseModel::CheckingOutput
            } else {
                JobPhaseModel::Done(Err(ErrorModel::ConversionFailed(tool_failure_text(stdout, stderr))))
            }
        },
        (JobPhaseModel::CheckingOutput, EventModel::OutputExists(present)) => if present {
            JobPhaseModel::Done(Ok(()))
        } else {
            JobPhaseModel::Done(Err(ErrorModel::ConversionFailed(missing_output_text())))
        },
        (phase, _) => phase,
    };
    JobModel { input: m.input, output: m.output, target: m.target, phase }
}

/// The view of an owned job result.
pub open spec fn result_view(r: Result<(), ConverterError>) -> Result<(), ErrorModel> {
    match r {
        Ok(_) => Ok(()),
        Err(e) => Err(e@),
    }
}

fn clone_error(e: &ConverterError) -> (r: ConverterError)
    ensures
        r@ == e@,
{
    match e {
        ConverterError::FileNotFound { path } => ConverterError::FileNotFound {
            path: path.clone(),
        },
        ConverterError::UnsupportedFormat { format } => ConverterError::UnsupportedFormat {
            format: format.clone(),
        },
        ConverterError::ConversionFailed { message } => ConverterError::ConversionFailed {
            message: message.clone(),
        },
        ConverterError::IoError { message } => ConverterError::IoError { message: message.clone() },
        ConverterError::MarkitdownError { message } => ConverterError::MarkitdownError {
            message: message.clone(),
        },
        ConverterError::InvalidPath { path } => ConverterError::InvalidPath { path: path.clone() },
    }
}

impl ConversionJob {
    /// A fresh job for one conversion: it will check the input, ensure
    /// the output directory, run the tool, and verify the output.
    pub(crate) fn new(input_path: String, output_path: String, target: FileFormat) -> (job: Self)
        ensures
            job@ == (JobModel {
                input: input_path@,
                output: output_path@,
                target,
                phase: JobPhaseModel::CheckingInput,
            }),
    {
        ConversionJob { input_path, output_path, target, phase: JobPhase::CheckingInput }
    }

    /// Whether the job has finished.
    pub fn is_done(&self) -> (b: bool)
        ensures
            b == (self@.phase is Done),
    {
        matches!(self.phase, JobPhase::Done { .. })
    }

    /// The result of a finished job.
    pub fn outcome(&self) -> (r: Result<(), ConverterError>)
        requires
            self@.phase is Done,
        ensures
            self@.phase matches JobPhaseModel::Done(res) && result_view(r) == res,
    {
        match &self.phase {
            JobPhase::Done { result } => match result {
                Ok(_) => Ok(()),
                Err(e) => Err(clone_error(e)),
            },
            _ => vstd::pervasive::unreached(),
        }
    }

    /// The action the driver must perform next.
    pub fn action(&self) -> (a: Action)
        requires
            !(self@.phase is Done),
        ensures
            a@ == job_action(self@),
    {
        match &self.phase {
            JobPhase::CheckingInput => Action::CheckInput { path: self.input_path.clone() },
            JobPhase::MakingDir => Action::EnsureParentDir { path: self.output_path.clone() },
            JobPhase::RunningTool => {
                let mut args: Vec<String> = Vec::new();
                args.push(self.input_path.clone());
                args.push("--format".to_owned());
                args.push(flag_str(self.target).to_owned());
                args.push("-o".to_owned());
                args.push(self.output_path.clone());
                proof {
                    assert(args.deep_view() =~= seq![
                        self.input_path@,
                        "--format"@,
                        format_flag(self.target),
                        "-o"@,
                        self.output_path@,
                    ]);
                }
                Action::RunTool { program: "markitdown".to_owned(), args }
            },
            JobPhase::CheckingOutput => Action::CheckOutput { path: self.output_path.clone() },
            JobPhase::Done { .. } => vstd::pervasive::unreached(),
        }
    }

    /// Consumes the driver's answer to the pending action.
    pub fn step(&mut self, event: Event)
        requires
            job_accepts(old(self)@, event@),
        ensures
            final(self)@ == job_step(old(self)@, event@),
    {
        let next: JobPhase = match (&self.phase, event) {
            (JobPhase::CheckingInput, Event::InputExists(present)) => {
                if present {
                    JobPhase::MakingDir
                } else {
                    JobPhase::Done {
                        result: Err(
                            ConverterError::FileNotFound { path: self.input_path.clone() },
                        ),
                    }
                }
            },
            (JobPhase::MakingDir, Event::DirEnsured(r)) => match r {
                None => JobPhase::RunningTool,
                Some(io_msg) => JobPhase::Done {
                    result: Err(
                        ConverterError::IoError {
                            message: concat2(
                                "Failed to create output directory: ",
                                io_msg.as_str(),
                            ),
                        },
                    ),
                },
            },
            (JobPhase::RunningTool, Event::ToolFailed(io_msg)) => JobPhase::Done {
                result: Err(
                    ConverterError::MarkitdownError {
                        message: concat3(
                            "Failed to execute markitdown: ",
                            io_msg.as_str(),
                            ". Make sure markitdown is installed and available in PATH.",
                        ),
                    },
                ),
            },
            (JobPhase::RunningTool, Event::ToolExited { success, stdout, stderr }) => {
                if success {
                    JobPhase::CheckingOutput
                } else {
                    JobPhase::Done {
                        result: Err(
                            ConverterError::ConversionFailed {
                                message: concat4(
                                    "Markitdown conversion failed.\nStderr: ",
                                    stderr.as_str(),
                                    "\nStdout: ",
                                    stdout.as_str(),
                                ),
                            },
                        ),
                    }
                }
            },
            (JobPhase::CheckingOutput, Event::OutputExists(present)) => {
                if present {
                    JobPhase::Done { result: Ok(()) }
                } else {
                    JobPhase::Done {
                        result: Err(
                            ConverterError::ConversionFailed {
                                message: "Output file was not created successfully".to_owned(),
                            },
                        ),
                    }
                }
            },
            _ => vstd::pervasive::unreached(),
        };
        self.phase = next;
    }
}

/// Strategy trait: one implementation per supported ordered format pair.
/// A strategy is stateless; `convert` hands back the job that performs
/// the conversion under the driver.
pub trait Converter {
    /// The format this strategy consumes.
    spec fn spec_input_format(&self) -> FileFormat;

    /// The format this strategy produces.
    spec fn spec_output_format(&self) -> FileFormat;

    /// Begins a conversion of `input_path` into `output_path`: the
    /// returned job names, in order, the input check, the directory
    /// creation, the tool invocation and the output check to perform.
    fn convert(&self, input_path: &str, output_path: &str) -> (job: ConversionJob)
        ensures
            job@ == (JobModel {
                input: input_path@,
                output: output_path@,
                target: self.spec_output_format(),
                phase: JobPhaseModel::CheckingInput,
            }),
    ;

    /// The format this strategy consumes.
    fn supported_input_format(&self) -> (f: FileFormat)
        ensures
            f == self.spec_input_format(),
    ;

    /// The format this strategy produces.
    fn supported_output_format(&self) -> (f: FileFormat)
        ensures
            f == self.spec_output_format(),
    ;
}

/// Converts Markdown input to a Word document.
pub struct MarkdownToWordConverter;

impl Converter for MarkdownToWordConverter {
    open spec fn spec_input_format(&self) -> FileFormat {
        FileFormat::Markdown
    }

    open spec fn spec_output_format(&self) -> FileFormat {
        FileFormat::Word
    }

    fn convert(&self, input_path: &str, output_path: &str) -> ConversionJob {
        ConversionJob::new(input_path.to_owned(), output_path.to_owned(), FileFormat::Word)
    }

    fn supported_input_format(&self) -> FileFormat {
        FileFormat::Markdown
    }

    fn supported_output_format(&self) -> FileFormat {
        FileFormat::Word
    }
}

/// Converts a Word document to Markdown.
pub struct WordToMarkdownConverter;

impl Converter for WordToMarkdownConverter {
    open spec fn spec_input_format(&self) -> FileFormat {
        FileFormat::Word
    }

    open spec fn spec_output_format(&self) -> FileFormat {
        FileFormat::Markdown
    }

    fn convert(&self, input_path: &str, output_path: &str) -> ConversionJob {
        ConversionJob::new(input_path.to_owned(), output_path.to_owned(), FileFormat::Markdown)
    }

    fn supported_input_format(&self) -> FileFormat {
        FileFormat::Word
    }

    fn supported_output_format(&self) -> FileFormat {
        FileFormat::Markdown
    }
}

/// Whether a strategy exists for this ordered format pair.
pub open spec fn supported_pair(input_format: FileFormat, output_format: FileFormat) -> bool {
    (input_format == FileFormat::Markdown && output_format == FileFormat::Word)
        || (input_format == FileFormat::Word && output_format == FileFormat::Markdown)
}

/// Text naming an unsupported pair, as carried by the selection error.
pub open spec fn pair_text(input_format: FileFormat, output_format: FileFormat) -> Seq<char> {
    format_name(input_format) + " to "@ + format_name(output_format)
}

/// Selects the strategy for an ordered format pair.
pub struct ConverterFactory;

impl ConverterFactory {
    /// The strategy for this pair, or an error naming both formats when
    /// no strategy exists — identity pairs included.
    pub fn create_converter(input_format: FileFormat, output_format: FileFormat) -> (r: Result<
        Box<dyn Converter>,
        ConverterError,
    >)
        ensures
            supported_pair(input_format, output_format) ==> (r matches Ok(c)
                && c.spec_input_format() == input_format && c.spec_output_format()
                == output_format),
            !supported_pair(input_format, output_format) ==> (r matches Err(e) && e@
                == ErrorModel::UnsupportedFormat(pair_text(input_format, output_format))),
    {
        match (input_format, output_format) {
            (FileFormat::Markdown, FileFormat::Word) => Ok(Box::new(MarkdownToWordConverter)),
            (FileFormat::Word, FileFormat::Markdown) => Ok(Box::new(WordToMarkdownConverter)),
            _ => Err(
                ConverterError::UnsupportedFormat {
                    format: concat3(name_str(input_format), " to ", name_str(output_format)),
                },
            ),
        }
    }

    /// The supported conversion pairs, in a fixed order.
    pub fn get_supported_conversions() -> (r: Vec<(FileFormat, FileFormat)>)
        ensures
            r@.len() == 2,
            r@[0] == (FileFormat::Markdown, FileFormat::Word),
            r@[1] == (FileFormat::Word, FileFormat::Markdown),
    {
        let mut v: Vec<(FileFormat, FileFormat)> = Vec::new();
        v.push((FileFormat::Markdown, FileFormat::Word));
        v.push((FileFormat::Word, FileFormat::Markdown));
        v
    }
}

/// A conversion job demands that the external tool be run only
/// immediately after the driver has answered that the output directory
/// exists: directory creation always precedes tool invocation.
pub proof fn lemma_tool_run_follows_dir_ensured(m: JobModel, e: EventModel)
    requires
        job_accepts(m, e),
        job_step(m, e).phase is RunningTool,
    ensures
        m.phase is MakingDir,
        e == EventModel::DirEnsured(None::<Seq<char>>),
{
}

/// A successful tool exit alone is not success: a job whose output
/// file is absent after the tool ran ends as a failed conversion.
pub proof fn lemma_absent_output_fails(m: JobModel)
    requires
        m.phase is CheckingOutput,
    ensures
        job_step(m, EventModel::OutputExists(false)).phase == JobPhaseModel::Done(
            Err::<(), ErrorModel>(ErrorModel::ConversionFailed(missing_output_text())),
        ),
{
}

} // verus!
