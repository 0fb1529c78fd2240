//! The screenshot command: which command line is run, and what is reported
//! of the run.
//!
//! The caller starts the command and waits for it. It then hands over either
//! what the run left behind or the reason why the command could not be
//! started, and gets the answer for the front end.

use vstd::prelude::*;

verus! {

/// The capture tool, looked up on the search path.
pub const CAPTURE_PROGRAM: &'static str = "import";

/// The option that selects the window to capture.
pub const WINDOW_OPTION: &'static str = "-window";

/// The window that is captured: the whole screen.
pub const ROOT_WINDOW: &'static str = "root";

/// The option that keeps the tool quiet.
pub const SILENT_OPTION: &'static str = "-silent";

/// The file that the tool is told to write, the same one at every call.
pub const OUTPUT_PATH: &'static str = "/tmp/screenshot.png";

/// The words in front of the reason in a failure message.
pub const FAILURE_LEAD: &'static str = "Failed to capture screenshot: ";

/// The start of every failure message, without the blank that ends the lead.
pub const FAILURE_MARK: &'static str = "Failed to capture screenshot:";

/// A command line: a program and its arguments in order.
#[derive(Clone, Debug)]
pub struct Invocation {
    pub program: String,
    pub args: Vec<String>,
}

/// A command line as text.
pub struct InvocationView {
    pub program: Seq<char>,
    pub args: Seq<Seq<char>>,
}

impl View for Invocation {
    type V = InvocationView;

    open spec fn view(&self) -> InvocationView {
        InvocationView { program: self.program@, args: self.args.deep_view() }
    }
}

/// What a run of the tool left behind, once it was started and has ended.
#[derive(Clone, Debug)]
pub struct ProcessOutput {
    /// The exit code, where the tool ended by itself.
    pub exit_code: Option<i32>,
    pub stdout: Vec<u8>,
    pub stderr: Vec<u8>,
}

/// The command line that takes the screenshot: the tool with four arguments,
/// the last of them the output file.
pub open spec fn capture_command() -> InvocationView {
    InvocationView {
        program: CAPTURE_PROGRAM@,
        args: seq![WINDOW_OPTION@, ROOT_WINDOW@, SILENT_OPTION@, OUTPUT_PATH@],
    }
}

/// The message for a command that could not be started for `reason`.
pub open spec fn failure_message(reason: Seq<char>) -> Seq<char> {
    FAILURE_LEAD@ + reason
}

/// Whether `result` is the answer owed for `outcome`.
///
/// A command that was started and has ended counts as a success, whatever its
/// exit code and whatever it wrote: the answer is the output file's path.
/// Only a command that could not be started is a failure.
pub open spec fn reports(outcome: Result<ProcessOutput, String>, result: Result<String, String>) -> bool {
    match outcome {
        Ok(_) => result matches Ok(path) && path@ == OUTPUT_PATH@,
        Err(reason) => result matches Err(message) && message@ == failure_message(reason@),
    }
}

/// Builds the command line that takes the screenshot.
pub fn capture_invocation() -> (invocation: Invocation)
    ensures
        invocation@ == capture_command(),
{
    let mut args: Vec<String> = Vec::new();
    args.push(String::from_str(WINDOW_OPTION));
    args.push(String::from_str(ROOT_WINDOW));
    args.push(String::from_str(SILENT_OPTION));
    args.push(String::from_str(OUTPUT_PATH));
    let invocation = Invocation { program: String::from_str(CAPTURE_PROGRAM), args };
    assert(invocation@.args =~= capture_command().args);
    invocation
}

/// Turns the outcome of running the command into the answer for the front
/// end. `Err` holds the system's words for why the command did not start.
pub fn capture_result(outcome: Result<ProcessOutput, String>) -> (result: Result<String, String>)
    ensures
        reports(outcome, result),
{
    match outcome {
        Ok(_) => Ok(String::from_str(OUTPUT_PATH)),
        Err(reason) => Err(String::from_str(FAILURE_LEAD).concat(reason.as_str())),
    }
}

/// A command that ran to its end is a success, and what the run left behind
/// makes no difference: the answer owed for one run is the answer owed for
/// any other, and it is the output file's path.
pub proof fn lemma_success_ignores_the_run(
    first: ProcessOutput,
    second: ProcessOutput,
    result: Result<String, String>,
)
    ensures
        reports(Ok(first), result) == reports(Ok(second), result),
        reports(Ok(first), result) <==> (result matches Ok(path) && path@ == OUTPUT_PATH@),
{
}

/// A command that could not be started is a failure, whatever the reason.
/// The message begins with the mark, and the reason follows the lead
/// unchanged.
pub proof fn lemma_failure_is_marked(reason: String, result: Result<String, String>)
    requires
        reports(Err(reason), result),
    ensures
        result is Err,
        FAILURE_MARK@.is_prefix_of(result->Err_0@),
        result->Err_0@.len() == 30 + reason@.len(),
        result->Err_0@.subrange(30, 30 + reason@.len() as int) == reason@,
{
    reveal_strlit("Failed to capture screenshot: ");
    reveal_strlit("Failed to capture screenshot:");
}

/// The path reported on success is the file that the command line names last.
pub proof fn lemma_success_names_the_written_file(output: ProcessOutput, result: Result<String, String>)
    requires
        reports(Ok(output), result),
    ensures
        result is Ok,
        result->Ok_0@ == capture_command().args.last(),
{
}

/// An outcome has one answer: two results owed for it are both `Ok` or both
/// `Err`, with the same text.
pub proof fn lemma_one_answer(
    outcome: Result<ProcessOutput, String>,
    first: Result<String, String>,
    second: Result<String, String>,
)
    requires
        reports(outcome, first),
        reports(outcome, second),
    ensures
        first is Ok <==> outcome is Ok,
        first matches Ok(a) ==> second matches Ok(b) && a@ == b@,
        first matches Err(a) ==> second matches Err(b) && a@ == b@,
{
}

} // verus!
