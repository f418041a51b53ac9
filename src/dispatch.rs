use vstd::prelude::*;
use vstd::string::*;
use crate::args::{build_args, command_args, ProcessOptions};
use crate::error::{localized_spec, ErrorView, process_error_to_localized_string, ProcessError};
use crate::messages::{get_message, message_for, message_spec, message_text};
use crate::text::{opt_text, texts};
use crate::tool::{tool_named, Tool};

verus! {

/// The record of what became of one input file.
pub struct ProcessResult {
    pub success: bool,
    /// A localized summary.
    pub message: String,
    /// The localized detail of a failure.
    pub error: Option<String>,
    /// The input file, absent only when a task could not be run at all.
    pub file_path: Option<String>,
}

/// A record as plain values.
pub struct ResultView {
    pub success: bool,
    pub message: Seq<char>,
    pub error: Option<Seq<char>>,
    pub file_path: Option<Seq<char>>,
}

impl View for ProcessResult {
    type V = ResultView;

    open spec fn view(&self) -> ResultView {
        ResultView {
            success: self.success,
            message: self.message@,
            error: opt_text(self.error),
            file_path: opt_text(self.file_path),
        }
    }
}

/// What happened to one input file.
pub enum FileOutcome {
    /// The file did not exist, so no command was run.
    Missing,
    /// The command ran and reported success.
    Succeeded,
    /// The command ran and failed; `stderr` is what it wrote to its error stream.
    Failed { stderr: String },
    /// The command could not be started; `error` is the system's text.
    LaunchFailed { error: String },
}

/// One input file, with the parts of its path that the command line and the
/// messages use.
pub struct FileTask {
    pub file_path: String,
    /// The directory that holds the file, as the platform's path rules give it.
    pub parent: Option<String>,
    /// The last component of the path, as the platform's path rules give it.
    pub file_name: Option<String>,
}

/// A command to run for one file.
pub struct Invocation {
    pub args: Vec<String>,
    pub working_dir: String,
}

/// The first step for one file: report it at once, or run a command.
pub enum FileStep {
    Report(FileOutcome),
    Run(Invocation),
}

/// The directory to run the command in: the file's parent, or the current
/// directory when the path names none.
pub open spec fn working_dir_spec(parent: Option<Seq<char>>) -> Seq<char> {
    match parent {
        Some(p) => if p.len() > 0 {
            p
        } else {
            "."@
        },
        None => "."@,
    }
}

/// The name that messages give a file: its last component, or the whole path
/// when it has none.
pub open spec fn display_name_spec(file: Seq<char>, name: Option<Seq<char>>) -> Seq<char> {
    match name {
        Some(n) => n,
        None => file,
    }
}

/// The record for a file with the given path and display name.
pub open spec fn file_record(file: Seq<char>, name: Seq<char>, outcome: FileOutcome, lang: Seq<char>) -> ResultView {
    match outcome {
        FileOutcome::Missing => ResultView {
            success: false,
            message: message_spec("file_not_found"@, lang, Some(file)),
            error: Some(
                localized_spec(
                    ErrorView::FileProcessing(file, message_text("file_not_found_error"@, lang)),
                    lang,
                ),
            ),
            file_path: Some(file),
        },
        FileOutcome::Succeeded => ResultView {
            success: true,
            message: message_spec("process_success"@, lang, Some(name)),
            error: None,
            file_path: Some(file),
        },
        FileOutcome::Failed { stderr } => ResultView {
            success: false,
            message: message_spec("process_failed"@, lang, Some(name)),
            error: Some(
                localized_spec(ErrorView::CommandFailed(stderr@), lang),
            ),
            file_path: Some(file),
        },
        FileOutcome::LaunchFailed { error } => ResultView {
            success: false,
            message: message_spec("execute_failed"@, lang, Some(name)),
            error: Some(
                localized_spec(ErrorView::CommandFailed(error@), lang),
            ),
            file_path: Some(file),
        },
    }
}

/// The record for a task that could not be run at all, with the scheduler's
/// text as its detail.
pub open spec fn scheduling_record(error: Seq<char>, lang: Seq<char>) -> ResultView {
    ResultView {
        success: false,
        message: message_text("task_execution_failed"@, lang),
        error: Some(error),
        file_path: None,
    }
}

/// What a task hands back once joined: its file and outcome, or the text of
/// the scheduler's failure.
pub type Joined = Result<(FileTask, FileOutcome), String>;

/// The record for one joined task.
pub open spec fn joined_record(j: Joined, lang: Seq<char>) -> ResultView {
    match j {
        Ok((task, outcome)) => task.record_spec(outcome, lang),
        Err(e) => scheduling_record(e@, lang),
    }
}

/// The records of a batch, one for each joined task, in the same order.
pub open spec fn batch_records(joined: Seq<Joined>, lang: Seq<char>) -> Seq<ResultView> {
    Seq::new(joined.len(), |i: int| joined_record(joined[i], lang))
}

/// The directory part of a path, as `Path::parent` gives it.
pub uninterp spec fn parent_of(path: Seq<char>) -> Option<Seq<char>>;

/// The last component of a path, as `Path::file_name` gives it.
pub uninterp spec fn file_name_of(path: Seq<char>) -> Option<Seq<char>>;

/// Relies on std's `Path::parent`: the directory part of a path, which depends
/// on the path alone.
#[verifier::external_body]
fn path_parent(path: &str) -> (r: Option<String>)
    ensures
        opt_text(r) == parent_of(path@),
{
    std::path::Path::new(path).parent().map(|p| p.to_string_lossy().into_owned())
}

/// Relies on std's `Path::file_name`: the last component of a path, which
/// depends on the path alone and, when present, is a normal component and so
/// not empty.
#[verifier::external_body]
fn path_file_name(path: &str) -> (r: Option<String>)
    ensures
        opt_text(r) == file_name_of(path@),
        r matches Some(n) ==> n@.len() > 0,
{
    std::path::Path::new(path).file_name().map(|n| n.to_string_lossy().into_owned())
}

impl FileTask {
    /// The record for this file after `outcome`.
    pub open spec fn record_spec(self, outcome: FileOutcome, lang: Seq<char>) -> ResultView {
        file_record(
            self.file_path@,
            display_name_spec(self.file_path@, opt_text(self.file_name)),
            outcome,
            lang,
        )
    }

    /// Splits `file_path` into the parts that the command line and the
    /// messages use.
    pub fn new(file_path: &str) -> (r: FileTask)
        ensures
            r.file_path@ == file_path@,
            opt_text(r.parent) == parent_of(file_path@),
            opt_text(r.file_name) == file_name_of(file_path@),
    {
        FileTask {
            file_path: String::from_str(file_path),
            parent: path_parent(file_path),
            file_name: path_file_name(file_path),
        }
    }

    /// The directory to run the command in.
    pub fn working_dir(&self) -> (r: String)
        ensures
            r@ == working_dir_spec(opt_text(self.parent)),
    {
        match &self.parent {
            Some(p) => {
                if p.as_str().unicode_len() > 0 {
                    p.clone()
                } else {
                    String::from_str(".")
                }
            },
            None => String::from_str("."),
        }
    }

    /// The name that messages give the file.
    pub fn display_name(&self) -> (r: &str)
        ensures
            r@ == display_name_spec(self.file_path@, opt_text(self.file_name)),
    {
        match &self.file_name {
            Some(n) => n.as_str(),
            None => self.file_path.as_str(),
        }
    }

    /// The first step for this file: a missing file is reported without
    /// running anything; for a file that exists, the command to run.
    pub fn step(&self, tool: Tool, options: &ProcessOptions, exists: bool) -> (r: FileStep)
        ensures
            !exists ==> r is Report && r->Report_0 is Missing,
            exists ==> r is Run && texts(r->Run_0.args@) == command_args(
                tool,
                options@,
                self.file_path@,
                opt_text(self.parent),
            ) && r->Run_0.working_dir@ == working_dir_spec(opt_text(self.parent)),
    {
        if !exists {
            FileStep::Report(FileOutcome::Missing)
        } else {
            let parent: Option<&str> = match &self.parent {
                Some(p) => Some(p.as_str()),
                None => None,
            };
            let args = build_args(tool, options, self.file_path.as_str(), parent);
            FileStep::Run(Invocation { args, working_dir: self.working_dir() })
        }
    }

    /// The localized record for this file after `outcome`.
    pub fn record(&self, outcome: FileOutcome, language: &str) -> (r: ProcessResult)
        ensures
            r@ == self.record_spec(outcome, language@),
    {
        let path = self.file_path.as_str();
        match outcome {
            FileOutcome::Missing => {
                let error = ProcessError::FileProcessing {
                    file: String::from_str(path),
                    message: message_for("file_not_found_error", language),
                };
                ProcessResult {
                    success: false,
                    message: get_message("file_not_found", language, Some(path)),
                    error: Some(process_error_to_localized_string(&error, language)),
                    file_path: Some(String::from_str(path)),
                }
            },
            FileOutcome::Succeeded => ProcessResult {
                success: true,
                message: get_message("process_success", language, Some(self.display_name())),
                error: None,
                file_path: Some(String::from_str(path)),
            },
            FileOutcome::Failed { stderr } => {
                let error = ProcessError::CommandFailed { message: stderr };
                ProcessResult {
                    success: false,
                    message: get_message("process_failed", language, Some(self.display_name())),
                    error: Some(process_error_to_localized_string(&error, language)),
                    file_path: Some(String::from_str(path)),
                }
            },
            FileOutcome::LaunchFailed { error } => {
                let error = ProcessError::CommandFailed { message: error };
                ProcessResult {
                    success: false,
                    message: get_message("execute_failed", language, Some(self.display_name())),
                    error: Some(process_error_to_localized_string(&error, language)),
                    file_path: Some(String::from_str(path)),
                }
            },
        }
    }
}

/// One task for each input file, in the same order.
pub fn tasks_for(file_paths: &Vec<String>) -> (r: Vec<FileTask>)
    ensures
        r@.len() == file_paths@.len(),
        forall|i: int|
            0 <= i < r@.len() ==> #[trigger] r@[i].file_path@ == file_paths@[i]@ && opt_text(
                r@[i].parent,
            ) == parent_of(file_paths@[i]@) && opt_text(r@[i].file_name) == file_name_of(
                file_paths@[i]@,
            ),
{
    let mut r: Vec<FileTask> = Vec::new();
    let mut i: usize = 0;
    while i < file_paths.len()
        invariant
            i <= file_paths@.len(),
            r@.len() == i,
            forall|k: int|
                0 <= k < i ==> #[trigger] r@[k].file_path@ == file_paths@[k]@ && opt_text(
                    r@[k].parent,
                ) == parent_of(file_paths@[k]@) && opt_text(r@[k].file_name) == file_name_of(
                    file_paths@[k]@,
                ),
        decreases file_paths@.len() - i,
    {
        r.push(FileTask::new(file_paths[i].as_str()));
        i = i + 1;
    }
    r
}

/// The record for a task that the scheduler could not run.
pub fn scheduling_failure(error: String, language: &str) -> (r: ProcessResult)
    ensures
        r@ == scheduling_record(error@, language@),
{
    ProcessResult {
        success: false,
        message: message_for("task_execution_failed", language),
        error: Some(error),
        file_path: None,
    }
}

/// Turns the joined tasks of a batch into its records, one for each, in the
/// same order.
pub fn collect_results(joined: Vec<Joined>, language: &str) -> (r: Vec<ProcessResult>)
    ensures
        r@.map_values(|p: ProcessResult| p@) == batch_records(joined@, language@),
{
    let ghost all = joined@;
    let mut rest = joined;
    let mut r: Vec<ProcessResult> = Vec::new();
    while rest.len() > 0
        invariant
            r@.len() + rest@.len() == all.len(),
            rest@ == all.subrange(r@.len() as int, all.len() as int),
            forall|k: int| 0 <= k < r@.len() ==> #[trigger] r@[k]@ == joined_record(all[k], language@),
        decreases rest@.len(),
    {
        let ghost k = r@.len();
        let entry = rest.remove(0);
        assert(entry == all[k as int]);
        let record = match entry {
            Ok((task, outcome)) => task.record(outcome, language),
            Err(e) => scheduling_failure(e, language),
        };
        r.push(record);
        assert(rest@ =~= all.subrange(r@.len() as int, all.len() as int));
    }
    assert(r@.map_values(|p: ProcessResult| p@) =~= batch_records(all, language@));
    r
}

/// Every joined task yields exactly one record, and each record of a task that
/// ran names the file of that task.
pub proof fn lemma_one_record_per_task(joined: Seq<Joined>, lang: Seq<char>)
    ensures
        batch_records(joined, lang).len() == joined.len(),
        forall|i: int|
            0 <= i < joined.len() && joined[i] is Ok ==> #[trigger] batch_records(joined, lang)[i].file_path
                == Some(joined[i]->Ok_0.0.file_path@),
{
}

/// The record of one task depends on that task alone: two batches that agree
/// on a task give it the same record, whatever became of the other tasks.
pub proof fn lemma_tasks_independent(a: Seq<Joined>, b: Seq<Joined>, i: int, lang: Seq<char>)
    requires
        0 <= i < a.len(),
        0 <= i < b.len(),
        a[i] == b[i],
    ensures
        batch_records(a, lang)[i] == batch_records(b, lang)[i],
        batch_records(a, lang)[i] == joined_record(a[i], lang),
{
}

/// Resolves the tool of a request. An unknown name fails the whole request,
/// with the localized description of the error.
pub fn resolve_tool(tool_name: &str, language: &str) -> (r: Result<Tool, String>)
    ensures
        tool_named(tool_name@) matches Some(t) ==> r == Ok::<Tool, String>(t),
        tool_named(tool_name@) is None ==> (r matches Err(e) && e@ == localized_spec(
            ErrorView::UnknownTool(tool_name@),
            language@,
        )),
{
    match Tool::from_str(tool_name) {
        Ok(t) => Ok(t),
        Err(e) => Err(process_error_to_localized_string(&e, language)),
    }
}

} // verus!
