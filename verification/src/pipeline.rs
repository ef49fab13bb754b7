use crate::compose::{Overlay, OverlayView};
use crate::credentials::CredentialsError;
use crate::exec::variables_view;
use crate::text::{joined_text, texts};
use vstd::string::*;
use vstd::prelude::*;

verus! {

/// One side effect of a pipeline, for the caller to perform.
#[derive(Debug, PartialEq, Eq)]
pub enum Step {
    /// Make sure a local directory exists, with its parents.
    CreateDir { path: String },
    /// Write a text to a local file.
    WriteText { path: String, content: String },
    /// Write a manifest overlay to a local file.
    WriteOverlay { path: String, overlay: Overlay },
    /// Run a program with arguments and added environment variables, and wait
    /// for it to end.
    Run { program: String, args: Vec<String>, env: Vec<(String, String)>, required: bool },
}

/// The content of a `Step`.
pub enum StepView {
    CreateDir { path: Seq<char> },
    WriteText { path: Seq<char>, content: Seq<char> },
    WriteOverlay { path: Seq<char>, overlay: OverlayView },
    Run {
        program: Seq<char>,
        args: Seq<Seq<char>>,
        env: Seq<(Seq<char>, Seq<char>)>,
        required: bool,
    },
}

impl View for Step {
    type V = StepView;

    open spec fn view(&self) -> StepView {
        match self {
            Step::CreateDir { path } => StepView::CreateDir { path: path@ },
            Step::WriteText { path, content } => StepView::WriteText {
                path: path@,
                content: content@,
            },
            Step::WriteOverlay { path, overlay } => StepView::WriteOverlay {
                path: path@,
                overlay: overlay@,
            },
            Step::Run { program, args, env, required } => StepView::Run {
                program: program@,
                args: texts(args@),
                env: variables_view(env@),
                required: *required,
            },
        }
    }
}

impl StepView {
    /// Whether the failure of this step ends the pipeline: a file that cannot
    /// be written and a required command do; a directory that cannot be made
    /// and any other command do not.
    pub open spec fn decisive(self) -> bool {
        match self {
            StepView::CreateDir { .. } => false,
            StepView::WriteText { .. } => true,
            StepView::WriteOverlay { .. } => true,
            StepView::Run { required, .. } => required,
        }
    }
}

/// The content of each step of a sequence.
pub open spec fn steps_view(steps: Seq<Step>) -> Seq<StepView> {
    Seq::new(steps.len(), |i: int| steps[i]@)
}

/// Why a pipeline is not run, or not run to its end.
#[derive(Debug, PartialEq, Eq)]
pub enum FlowError {
    /// The configuration does not hold the number of environments that the
    /// verb works on.
    EnvironmentCount { found: usize },
    /// The environment does not name exactly one host.
    HostCount { found: usize },
    /// A build argument does not hold exactly one `=`.
    BuildArgument { entry: String },
    /// The manifest at this path could not be read.
    Manifest { path: String },
    /// Neither a credentials file nor a user name is given.
    UsernameRequired,
    /// Beside the user name, neither or both of a password and the request to
    /// read one are given.
    PasswordRequired,
    /// A user name is given beside a credentials file.
    UsernameConflict,
    /// A password, or the request to read one, is given beside a credentials
    /// file.
    PasswordConflict,
    /// No credentials document could be made.
    Credentials { reason: CredentialsError },
    /// The step at this position failed, and the pipeline ended there.
    StepFailed { position: usize },
}

/// The content of a `FlowError`.
pub enum FlowFault {
    EnvironmentCount { found: nat },
    HostCount { found: nat },
    BuildArgument { entry: Seq<char> },
    Manifest { path: Seq<char> },
    UsernameRequired,
    PasswordRequired,
    UsernameConflict,
    PasswordConflict,
    Credentials { reason: CredentialsError },
    StepFailed { position: nat },
}

impl View for FlowError {
    type V = FlowFault;

    open spec fn view(&self) -> FlowFault {
        match self {
            FlowError::EnvironmentCount { found } => FlowFault::EnvironmentCount {
                found: *found as nat,
            },
            FlowError::HostCount { found } => FlowFault::HostCount { found: *found as nat },
            FlowError::BuildArgument { entry } => FlowFault::BuildArgument { entry: entry@ },
            FlowError::Manifest { path } => FlowFault::Manifest { path: path@ },
            FlowError::UsernameRequired => FlowFault::UsernameRequired,
            FlowError::PasswordRequired => FlowFault::PasswordRequired,
            FlowError::UsernameConflict => FlowFault::UsernameConflict,
            FlowError::PasswordConflict => FlowFault::PasswordConflict,
            FlowError::Credentials { reason } => FlowFault::Credentials { reason: *reason },
            FlowError::StepFailed { position } => FlowFault::StepFailed {
                position: *position as nat,
            },
        }
    }
}

impl FlowError {
    /// The text of the error for a reader.
    pub open spec fn message_text(self) -> Seq<char> {
        match self {
            FlowError::EnvironmentCount { .. } => "Only one environment is supported for now."@,
            FlowError::HostCount { .. } => "Only one host is supported for now."@,
            FlowError::BuildArgument { entry } => "Invalid build-arg without exactly one `=`: `"@
                + entry@ + "`"@,
            FlowError::Manifest { path } => "Could not open file "@ + path@ + "."@,
            FlowError::UsernameRequired => "Username is required for login."@,
            FlowError::PasswordRequired =>
                "Password is required from `password` or `password-stdin` options."@,
            FlowError::UsernameConflict => "Username is conflicting with -f option."@,
            FlowError::PasswordConflict => "Password is conflicting with -f option."@,
            FlowError::Credentials { reason } => match reason {
                CredentialsError::TooLong => "Username and password are too long to encode."@,
                CredentialsError::Encoding => "Could not encode the credentials."@,
            },
            FlowError::StepFailed { .. } => "A step of the pipeline failed."@,
        }
    }

    /// Words the error for a reader.
    pub fn message(&self) -> (text: String)
        ensures
            text@ == self.message_text(),
    {
        match self {
            FlowError::EnvironmentCount { .. } =>
                "Only one environment is supported for now.".to_owned(),
            FlowError::HostCount { .. } => "Only one host is supported for now.".to_owned(),
            FlowError::BuildArgument { entry } => {
                let mut text = joined_text(
                    "Invalid build-arg without exactly one `=`: `",
                    entry.as_str(),
                );
                text.append("`");
                text
            },
            FlowError::Manifest { path } => {
                let mut text = joined_text("Could not open file ", path.as_str());
                text.append(".");
                text
            },
            FlowError::UsernameRequired => "Username is required for login.".to_owned(),
            FlowError::PasswordRequired =>
                "Password is required from `password` or `password-stdin` options.".to_owned(),
            FlowError::UsernameConflict => "Username is conflicting with -f option.".to_owned(),
            FlowError::PasswordConflict => "Password is conflicting with -f option.".to_owned(),
            FlowError::Credentials { reason } => match reason {
                CredentialsError::TooLong =>
                    "Username and password are too long to encode.".to_owned(),
                CredentialsError::Encoding => "Could not encode the credentials.".to_owned(),
            },
            FlowError::StepFailed { .. } => "A step of the pipeline failed.".to_owned(),
        }
    }
}

/// The content of a planned pipeline: its steps in their order, or the fault
/// for which nothing is planned.
pub type PlanView = Result<Seq<StepView>, FlowFault>;

/// The content of what planning a pipeline returns.
pub open spec fn plan_view(plan: Result<Vec<Step>, FlowError>) -> PlanView {
    match plan {
        Ok(steps) => Ok(steps_view(steps@)),
        Err(error) => Err(error@),
    }
}

/// Where a pipeline stands.
#[derive(Debug, PartialEq, Eq)]
pub enum Progress {
    /// The step at this position is to be performed next.
    Next { position: usize },
    /// Every step has been performed.
    Finished,
    /// A decisive step failed, and nothing more is performed.
    Aborted { error: FlowError },
}

/// The content of a `Progress`.
pub enum ProgressView {
    Next { position: nat },
    Finished,
    Aborted { error: FlowFault },
}

impl View for Progress {
    type V = ProgressView;

    open spec fn view(&self) -> ProgressView {
        match self {
            Progress::Next { position } => ProgressView::Next { position: *position as nat },
            Progress::Finished => ProgressView::Finished,
            Progress::Aborted { error } => ProgressView::Aborted { error: error@ },
        }
    }
}

/// Where a pipeline goes from `position`: to that step where there is one,
/// to its end where there is none.
pub open spec fn stand_at(steps: Seq<StepView>, position: nat) -> ProgressView {
    if position < steps.len() {
        ProgressView::Next { position }
    } else {
        ProgressView::Finished
    }
}

/// Where a pipeline stands once the step at `position` has been performed:
/// it ends there where a decisive step failed, and goes on to the following
/// step otherwise.
pub open spec fn progress_after(
    steps: Seq<StepView>,
    position: nat,
    succeeded: bool,
) -> ProgressView {
    if position >= steps.len() {
        ProgressView::Finished
    } else if !succeeded && steps[position as int].decisive() {
        ProgressView::Aborted { error: FlowFault::StepFailed { position } }
    } else {
        stand_at(steps, position + 1)
    }
}

/// Whether the failure of a step ends the pipeline.
pub fn is_decisive(step: &Step) -> (decisive: bool)
    ensures
        decisive == step@.decisive(),
{
    match step {
        Step::CreateDir { .. } => false,
        Step::WriteText { .. } => true,
        Step::WriteOverlay { .. } => true,
        Step::Run { required, .. } => *required,
    }
}

/// Where a pipeline starts.
pub fn begin(steps: &Vec<Step>) -> (progress: Progress)
    ensures
        progress@ == stand_at(steps_view(steps@), 0),
{
    if steps.len() > 0 {
        Progress::Next { position: 0 }
    } else {
        Progress::Finished
    }
}

/// Decides how a pipeline goes on once the caller has performed the step at
/// `position` and reports whether it succeeded.
pub fn after_step(steps: &Vec<Step>, position: usize, succeeded: bool) -> (progress: Progress)
    ensures
        progress@ == progress_after(steps_view(steps@), position as nat, succeeded),
{
    if position >= steps.len() {
        Progress::Finished
    } else if !succeeded && is_decisive(&steps[position]) {
        Progress::Aborted { error: FlowError::StepFailed { position } }
    } else if position + 1 < steps.len() {
        Progress::Next { position: position + 1 }
    } else {
        Progress::Finished
    }
}

/// Where a pipeline ends that stands before the step at `position`, when
/// each step that is performed succeeds as `outcomes` says at its position.
pub open spec fn end_from(steps: Seq<StepView>, outcomes: Seq<bool>, position: nat) -> ProgressView
    decreases steps.len() - position,
{
    if position >= steps.len() {
        ProgressView::Finished
    } else {
        match progress_after(steps, position, outcomes[position as int]) {
            ProgressView::Next { position: next } => end_from(steps, outcomes, next),
            ended => ended,
        }
    }
}

/// Whether the failure of no step from `from` up to `to` ends the pipeline.
pub open spec fn passes(steps: Seq<StepView>, outcomes: Seq<bool>, from: nat, to: nat) -> bool {
    forall|j: int| from <= j < to ==> outcomes[j] || !(#[trigger] steps[j]).decisive()
}

/// A pipeline performs its steps in their order and ends at the first
/// decisive step that fails, with that step's position; where there is no
/// such step it performs every step and finishes.
pub proof fn law_pipeline_ends_at_first_decisive_failure(
    steps: Seq<StepView>,
    outcomes: Seq<bool>,
    position: nat,
)
    requires
        outcomes.len() == steps.len(),
        position <= steps.len(),
    ensures
        match end_from(steps, outcomes, position) {
            ProgressView::Finished => passes(steps, outcomes, position, steps.len()),
            ProgressView::Aborted { error } => {
                &&& error matches FlowFault::StepFailed { position: at }
                &&& position <= at < steps.len()
                &&& !outcomes[at as int]
                &&& steps[at as int].decisive()
                &&& passes(steps, outcomes, position, at)
            },
            ProgressView::Next { .. } => false,
        },
    decreases steps.len() - position,
{
    if position < steps.len() && (outcomes[position as int] || !steps[position as int].decisive()) {
        law_pipeline_ends_at_first_decisive_failure(steps, outcomes, position + 1);
    }
}

} // verus!
