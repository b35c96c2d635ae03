//! The conversion entry point: the request and outcome types a caller
//! exchanges with the crate, and the orchestration machine that turns a
//! request into an outcome.
//!
//! The orchestrator first checks that the input file exists at all,
//! then resolves both formats (from explicit hints, else from the
//! paths' extensions), selects a strategy, ensures the output directory
//! exists, and runs the strategy's job. Every failure, at any step,
//! becomes a [`ConversionResult`] value; nothing is raised to a caller.

use vstd::prelude::*;
use crate::converter::{
    job_accepts, job_action, job_step, pair_text, spec_resolve_token, supported_pair, Action,
    ActionModel, ConversionJob, ConverterFactory, Event, EventModel, FileFormat, JobModel,
    JobPhaseModel, ResolutionModel,
};
use crate::error::{error_text, ConverterError, ErrorModel};
use crate::text::{concat2, concat3, concat4};

verus! {

/// A caller's request: two paths, and an optional explicit format
/// token for either side.
pub struct ConversionRequest {
    pub input_path: String,
    pub output_path: String,
    pub input_format: Option<String>,
    pub output_format: Option<String>,
}

/// The mathematical shape of a [`ConversionRequest`].
pub struct RequestModel {
    pub input: Seq<char>,
    pub output: Seq<char>,
    pub input_hint: Option<Seq<char>>,
    pub output_hint: Option<Seq<char>>,
}

/// The view of an optional string.
pub open spec fn opt_view(o: Option<String>) -> Option<Seq<char>> {
    match o {
        Some(s) => Some(s@),
        None => None,
    }
}

impl View for ConversionRequest {
    type V = RequestModel;

    open spec fn view(&self) -> RequestModel {
        RequestModel {
            input: self.input_path@,
            output: self.output_path@,
            input_hint: opt_view(self.input_format),
            output_hint: opt_view(self.output_format),
        }
    }
}

/// A file handed over for staging: its name and its bytes.
pub struct FileUploadRequest {
    pub file_name: String,
    pub file_data: Vec<u8>,
}

/// The structured outcome of a conversion request. `success` tells
/// which half of the remaining fields is meaningful; `message` is
/// always human-readable.
pub struct ConversionResult {
    pub success: bool,
    pub output_path: Option<String>,
    pub error: Option<String>,
    pub message: String,
}

/// The mathematical shape of a [`ConversionResult`].
pub struct OutcomeModel {
    pub success: bool,
    pub output_path: Option<Seq<char>>,
    pub error: Option<Seq<char>>,
    pub message: Seq<char>,
}

impl View for ConversionResult {
    type V = OutcomeModel;

    open spec fn view(&self) -> OutcomeModel {
        OutcomeModel {
            success: self.success,
            output_path: opt_view(self.output_path),
            error: opt_view(self.error),
            message: self.message@,
        }
    }
}

/// One entry of the display listing of supported formats.
pub struct SupportedFormat {
    pub name: String,
    pub extension: String,
    pub description: String,
}

/// The static listing of supported formats, for display only: the
/// resolver and the selector do not consult it.
pub fn get_supported_formats() -> (r: Vec<SupportedFormat>)
    ensures
        r@.len() == 2,
        r@[0].name@ == "Markdown"@,
        r@[0].extension@ == "md"@,
        r@[0].description@ == "Markdown text files"@,
        r@[1].name@ == "Word Document"@,
        r@[1].extension@ == "docx"@,
        r@[1].description@ == "Microsoft Word documents"@,
{
    let mut v: Vec<SupportedFormat> = Vec::new();
    v.push(
        SupportedFormat {
            name: "Markdown".to_owned(),
            extension: "md".to_owned(),
            description: "Markdown text files".to_owned(),
        },
    );
    v.push(
        SupportedFormat {
            name: "Word Document".to_owned(),
            extension: "docx".to_owned(),
            description: "Microsoft Word documents".to_owned(),
        },
    );
    v
}

/// The filename extension the platform's path API reads out of a path
/// string, if any.
pub uninterp spec fn extension_of(path: Seq<char>) -> Option<Seq<char>>;

/// Relies on std::path::Path::extension to take the extension from the
/// path string: the part of the final component after its last dot,
/// when that dot is not the component's first character. The result is
/// a function of the path string alone.
#[verifier::external_body]
fn path_extension(path: &str) -> (r: Option<String>)
    ensures
        r is Some <==> extension_of(path@) is Some,
        r matches Some(e) ==> extension_of(path@) == Some(e@),
{
    std::path::Path::new(path).extension().and_then(|s| s.to_str()).map(|s| s.to_string())
}

/// How one side of a request resolves: from the explicit hint when one
/// was given, else from the path's extension; a path with neither is
/// its own kind of failure.
pub open spec fn spec_resolve(hint: Option<Seq<char>>, path: Seq<char>) -> ResolutionModel {
    match hint {
        Some(token) => spec_resolve_token(token),
        None => match extension_of(path) {
            Some(ext) => spec_resolve_token(ext),
            None => ResolutionModel::NoExtension,
        },
    }
}

fn resolve_side(hint: &Option<String>, path: &String) -> (r: Result<FileFormat, ConverterError>)
    ensures
        match spec_resolve(opt_view(*hint), path@) {
            ResolutionModel::Resolved(f) => r == Ok::<FileFormat, ConverterError>(f),
            ResolutionModel::Unsupported(token) => r matches Err(e) && e@
                == ErrorModel::UnsupportedFormat(token),
            ResolutionModel::NoExtension => r matches Err(e) && e@ == ErrorModel::InvalidPath(
                path@,
            ),
        },
{
    match hint {
        Some(token) => FileFormat::from_extension(token.as_str()),
        None => match path_extension(path.as_str()) {
            Some(ext) => FileFormat::from_extension(ext.as_str()),
            None => Err(ConverterError::InvalidPath { path: path.clone() }),
        },
    }
}

/// Where the orchestration of one request stands.
pub enum FlowPhase {
    /// Checking up front that the input file exists at all.
    Checking,
    /// Formats resolved and a strategy selected; ensuring the output
    /// directory exists.
    MakingDir { input_format: FileFormat, output_format: FileFormat },
    /// The selected strategy's job is running.
    Running { job: ConversionJob },
    /// Finished; the outcome is ready for the caller.
    Done { result: ConversionResult },
}

/// The mathematical shape of a [`FlowPhase`].
pub enum FlowPhaseModel {
    Checking,
    MakingDir { input_format: FileFormat, output_format: FileFormat },
    Running(JobModel),
    Done(OutcomeModel),
}

impl View for FlowPhase {
    type V = FlowPhaseModel;

    open spec fn view(&self) -> FlowPhaseModel {
        match self {
            FlowPhase::Checking => FlowPhaseModel::Checking,
            FlowPhase::MakingDir { input_format, output_format } => FlowPhaseModel::MakingDir {
                input_format: *input_format,
                output_format: *output_format,
            },
            FlowPhase::Running { job } => FlowPhaseModel::Running(job@),
            FlowPhase::Done { result } => FlowPhaseModel::Done(result@),
        }
    }
}

/// The orchestration of one request, run as a state machine under a
/// driver, exactly as a [`ConversionJob`] is.
pub struct ConversionFlow {
    pub request: ConversionRequest,
    pub phase: FlowPhase,
}

/// The mathematical shape of a [`ConversionFlow`].
pub struct FlowModel {
    pub request: RequestModel,
    pub phase: FlowPhaseModel,
}

impl View for ConversionFlow {
    type V = FlowModel;

    open spec fn view(&self) -> FlowModel {
        FlowModel { request: self.request@, phase: self.phase@ }
    }
}

/// The outcome reported when the input file is missing up front,
/// before any resolution is attempted.
pub open spec fn missing_input_outcome(input: Seq<char>) -> OutcomeModel {
    OutcomeModel {
        success: false,
        output_path: None,
        error: Some("Input file not found"@),
        message: "The file '"@ + input + "' does not exist"@,
    }
}

/// The outcome reporting an error from any later step.
pub open spec fn failure_outcome(e: ErrorModel) -> OutcomeModel {
    OutcomeModel {
        success: false,
        output_path: None,
        error: Some(error_text(e)),
        message: "Conversion failed: "@ + error_text(e),
    }
}

/// The outcome of a conversion that ran to the end.
pub open spec fn success_outcome(input: Seq<char>, output: Seq<char>) -> OutcomeModel {
    OutcomeModel {
        success: true,
        output_path: Some(output),
        error: None,
        message: "Successfully converted "@ + input + " to "@ + output,
    }
}

/// The phase that follows once the input is known to exist: both sides
/// resolved and the pair checked, or the failure that stops the request.
pub open spec fn resolved_phase(req: RequestModel) -> FlowPhaseModel {
    match spec_resolve(req.input_hint, req.input) {
        ResolutionModel::Unsupported(token) => FlowPhaseModel::Done(
            failure_outcome(ErrorModel::UnsupportedFormat(token)),
        ),
        ResolutionModel::NoExtension => FlowPhaseModel::Done(
            failure_outcome(ErrorModel::InvalidPath(req.input)),
        ),
        ResolutionModel::Resolved(input_format) => match spec_resolve(
            req.output_hint,
            req.output,
        ) {
            ResolutionModel::Unsupported(token) => FlowPhaseModel::Done(
                failure_outcome(ErrorModel::UnsupportedFormat(token)),
            ),
            ResolutionModel::NoExtension => FlowPhaseModel::Done(
                failure_outcome(ErrorModel::InvalidPath(req.output)),
            ),
            ResolutionModel::Resolved(output_format) => if supported_pair(
                input_format,
                output_format,
            ) {
                FlowPhaseModel::MakingDir { input_format, output_format }
            } else {
                FlowPhaseModel::Done(
                    failure_outcome(
                        ErrorModel::UnsupportedFormat(pair_text(input_format, output_format)),
                    ),
                )
            },
        },
    }
}

/// A running job is never itself finished: the step that finishes the
/// job also finishes the whole orchestration. Fresh orchestrations are
/// well formed and every step keeps them so.
pub open spec fn flow_wf(m: FlowModel) -> bool {
    m.phase matches FlowPhaseModel::Running(job) ==> !(job.phase is Done)
}

/// Which events the orchestration in this state can consume.
pub open spec fn flow_accepts(m: FlowModel, e: EventModel) -> bool {
    match m.phase {
        FlowPhaseModel::Checking => e is InputExists,
        FlowPhaseModel::MakingDir { .. } => e is DirEnsured,
        FlowPhaseModel::Running(job) => job_accepts(job, e),
        FlowPhaseModel::Done(_) => false,
    }
}

/// The action the orchestration demands in each non-final state.
pub open spec fn flow_action(m: FlowModel) -> ActionModel {
    match m.phase {
        FlowPhaseModel::Checking => ActionModel::CheckInput(m.request.input),
        FlowPhaseModel::MakingDir { .. } => ActionModel::EnsureParentDir(m.request.output),
        FlowPhaseModel::Running(job) => job_action(job),
        FlowPhaseModel::Done(_) => vstd::pervasive::arbitrary(),
    }
}

/// The transition relation of the orchestration. An event a state does
/// not expect changes nothing; [`ConversionFlow::step`] refuses such
/// events anyway.
pub open spec fn flow_step(m: FlowModel, e: EventModel) -> FlowModel {
    let phase = match (m.phase, e) {
        (FlowPhaseModel::Checking, EventModel::InputExists(present)) => if present {
            resolved_phase(m.request)
        } else {
            FlowPhaseModel::Done(missing_input_outcome(m.request.input))
        },
        (FlowPhaseModel::MakingDir { input_format: _, output_format }, EventModel::DirEnsured(r)) => match r {
            Some(io_msg) => FlowPhaseModel::Done(failure_outcome(ErrorModel::IoError(io_msg))),
            None => FlowPhaseModel::Running(
                JobModel {
                    input: m.request.input,
                    output: m.request.output,
                    target: output_format,
                    phase: JobPhaseModel::CheckingInput,
                },
            ),
        },
        (FlowPhaseModel::Running(job), ev) => {
            let stepped = job_step(job, ev);
            match stepped.phase {
                JobPhaseModel::Done(Ok(_)) => FlowPhaseModel::Done(
                    success_outcome(m.request.input, m.request.output),
                ),
                JobPhaseModel::Done(Err(err)) => FlowPhaseModel::Done(failure_outcome(err)),
                _ => FlowPhaseModel::Running(stepped),
            }
        },
        (phase, _) => phase,
    };
    FlowModel { request: m.request, phase }
}

fn failure_result(e: &ConverterError) -> (r: ConversionResult)
    ensures
        r@ == failure_outcome(e@),
{
    let text = e.message();
    let message = concat2("Conversion failed: ", text.as_str());
    ConversionResult { success: false, output_path: None, error: Some(text), message }
}

impl ConversionFlow {
    /// Begins orchestrating one request.
    pub fn new(request: ConversionRequest) -> (f: Self)
        ensures
            f@ == (FlowModel { request: request@, phase: FlowPhaseModel::Checking }),
    {
        ConversionFlow { request, phase: FlowPhase::Checking }
    }

    /// Whether the orchestration has finished.
    pub fn is_done(&self) -> (b: bool)
        ensures
            b == (self@.phase is Done),
    {
        matches!(self.phase, FlowPhase::Done { .. })
    }

    /// The outcome of a finished orchestration.
    pub fn outcome(&self) -> (r: ConversionResult)
        requires
            self@.phase is Done,
        ensures
            self@.phase matches FlowPhaseModel::Done(o) && r@ == o,
    {
        match &self.phase {
            FlowPhase::Done { result } => ConversionResult {
                success: result.success,
                output_path: match &result.output_path {
                    Some(p) => Some(p.clone()),
                    None => None,
                },
                error: match &result.error {
                    Some(e) => Some(e.clone()),
                    None => None,
                },
                message: result.message.clone(),
            },
            _ => vstd::pervasive::unreached(),
        }
    }

    /// The action the driver must perform next.
    pub fn action(&self) -> (a: Action)
        requires
            flow_wf(self@),
            !(self@.phase is Done),
        ensures
            a@ == flow_action(self@),
    {
        match &self.phase {
            FlowPhase::Checking => Action::CheckInput { path: self.request.input_path.clone() },
            FlowPhase::MakingDir { .. } => Action::EnsureParentDir {
                path: self.request.output_path.clone(),
            },
            FlowPhase::Running { job } => job.action(),
            FlowPhase::Done { .. } => vstd::pervasive::unreached(),
        }
    }

    /// Consumes the driver's answer to the pending action.
    pub fn step(&mut self, event: Event)
        requires
            flow_accepts(old(self)@, event@),
        ensures
            final(self)@ == flow_step(old(self)@, event@),
            flow_wf(final(self)@),
    {
        let mut phase = FlowPhase::Checking;
        core::mem::swap(&mut phase, &mut self.phase);
        let next: FlowPhase = match (phase, event) {
            (FlowPhase::Checking, Event::InputExists(present)) => {
                if present {
                    self.resolve_and_select()
                } else {
                    ConversionFlow::missing_input_phase(&self.request.input_path)
                }
            },
            (FlowPhase::MakingDir { input_format: _, output_format }, Event::DirEnsured(r)) => {
                match r {
                    Some(io_msg) => FlowPhase::Done {
                        result: failure_result(&ConverterError::IoError { message: io_msg }),
                    },
                    None => FlowPhase::Running {
                        job: ConversionJob::new(
                            self.request.input_path.clone(),
                            self.request.output_path.clone(),
                            output_format,
                        ),
                    },
                }
            },
            (FlowPhase::Running { mut job }, ev) => {
                job.step(ev);
                if job.is_done() {
                    match job.outcome() {
                        Ok(_) => {
                            let message = concat4(
                                "Successfully converted ",
                                self.request.input_path.as_str(),
                                " to ",
                                self.request.output_path.as_str(),
                            );
                            FlowPhase::Done {
                                result: ConversionResult {
                                    success: true,
                                    output_path: Some(self.request.output_path.clone()),
                                    error: None,
                                    message,
                                },
                            }
                        },
                        Err(err) => FlowPhase::Done { result: failure_result(&err) },
                    }
                } else {
                    FlowPhase::Running { job }
                }
            },
            _ => vstd::pervasive::unreached(),
        };
        self.phase = next;
    }

    fn missing_input_phase(input_path: &String) -> (p: FlowPhase)
        ensures
            p@ == FlowPhaseModel::Done(missing_input_outcome(input_path@)),
    {
        let message = concat3("The file '", input_path.as_str(), "' does not exist");
        FlowPhase::Done {
            result: ConversionResult {
                success: false,
                output_path: None,
                error: Some("Input file not found".to_owned()),
                message,
            },
        }
    }

    fn resolve_and_select(&self) -> (p: FlowPhase)
        ensures
            p@ == resolved_phase(self.request@),
    {
        let input_format = match resolve_side(&self.request.input_format, &self.request.input_path) {
            Ok(f) => f,
            Err(e) => {
                return FlowPhase::Done { result: failure_result(&e) };
            },
        };
        let output_format = match resolve_side(
            &self.request.output_format,
            &self.request.output_path,
        ) {
            Ok(f) => f,
            Err(e) => {
                return FlowPhase::Done { result: failure_result(&e) };
            },
        };
        match ConverterFactory::create_converter(input_format, output_format) {
            Ok(_) => FlowPhase::MakingDir { input_format, output_format },
            Err(e) => FlowPhase::Done { result: failure_result(&e) },
        }
    }
}

/// A request whose input file is missing fails at once: the outcome
/// names that exact path, and the orchestration is finished, so it
/// demands no directory creation and no tool invocation.
pub proof fn lemma_missing_input_short_circuits(m: FlowModel)
    requires
        m.phase is Checking,
    ensures
        ({
            let stepped = flow_step(m, EventModel::InputExists(false));
            &&& stepped.phase == FlowPhaseModel::Done(missing_input_outcome(m.request.input))
            &&& !missing_input_outcome(m.request.input).success
            &&& missing_input_outcome(m.request.input).message == "The file '"@ + m.request.input
                + "' does not exist"@
        }),
{
}

/// The orchestration, too, demands the external tool only immediately
/// after the driver has ensured the output directory: a freshly
/// selected job starts by checking the input, never by running the tool.
pub proof fn lemma_flow_tool_run_follows_dir_ensured(m: FlowModel, e: EventModel)
    requires
        flow_accepts(m, e),
        flow_step(m, e).phase matches FlowPhaseModel::Running(job) && job.phase is RunningTool,
    ensures
        m.phase matches FlowPhaseModel::Running(pre) && pre.phase is MakingDir,
        e == EventModel::DirEnsured(None::<Seq<char>>),
{
}

/// If the tool reported success but the output file is absent, the
/// request's outcome is a failure carrying the failed-conversion text,
/// never a success.
pub proof fn lemma_flow_absent_output_fails(m: FlowModel, job: JobModel)
    requires
        m.phase == FlowPhaseModel::Running(job),
        job.phase is CheckingOutput,
    ensures
        flow_step(m, EventModel::OutputExists(false)).phase == FlowPhaseModel::Done(
            failure_outcome(ErrorModel::ConversionFailed(crate::converter::missing_output_text())),
        ),
        !failure_outcome(
            ErrorModel::ConversionFailed(crate::converter::missing_output_text()),
        ).success,
{
}

} // verus!
