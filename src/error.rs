use vstd::prelude::*;
use vstd::string::*;
use crate::messages::{join_labelled, labelled, message_for, message_text};

verus! {

/// What can go wrong while processing a request.
pub enum ProcessError {
    /// The tool name is not one of the supported tools.
    UnknownTool { tool: String },
    /// An input or output operation failed; `message` is the system's text.
    Io { message: String },
    /// A command ran and failed, or could not be started.
    CommandFailed { message: String },
    /// A single input file could not be processed.
    FileProcessing { file: String, message: String },
}

/// An error as plain values.
pub enum ErrorView {
    UnknownTool(Seq<char>),
    Io(Seq<char>),
    CommandFailed(Seq<char>),
    FileProcessing(Seq<char>, Seq<char>),
}

impl View for ProcessError {
    type V = ErrorView;

    open spec fn view(&self) -> ErrorView {
        match self {
            ProcessError::UnknownTool { tool } => ErrorView::UnknownTool(tool@),
            ProcessError::Io { message } => ErrorView::Io(message@),
            ProcessError::CommandFailed { message } => ErrorView::CommandFailed(message@),
            ProcessError::FileProcessing { file, message } => ErrorView::FileProcessing(
                file@,
                message@,
            ),
        }
    }
}

/// The English description of an error.
pub open spec fn describe_spec(e: ErrorView) -> Seq<char> {
    match e {
        ErrorView::UnknownTool(tool) => labelled("Unknown tool name"@, tool),
        ErrorView::Io(message) => labelled("IO error"@, message),
        ErrorView::CommandFailed(message) => labelled("Command execution failed"@, message),
        ErrorView::FileProcessing(file, message) => labelled(
            "File processing error"@,
            file + " - "@ + message,
        ),
    }
}

/// The description of an error in `language`.
pub open spec fn localized_spec(e: ErrorView, language: Seq<char>) -> Seq<char> {
    match e {
        ErrorView::UnknownTool(tool) => labelled(message_text("unknown_tool_error"@, language), tool),
        ErrorView::Io(message) => labelled(message_text("io_error"@, language), message),
        ErrorView::CommandFailed(message) => labelled(
            message_text("command_failed_error"@, language),
            message,
        ),
        ErrorView::FileProcessing(file, message) => labelled(
            message_text("file_processing_error"@, language),
            file + " - "@ + message,
        ),
    }
}

fn file_and_message(file: &str, message: &str) -> (r: String)
    ensures
        r@ == file@ + " - "@ + message@,
{
    let mut r = String::from_str(file);
    r.append(" - ");
    r.append(message);
    r
}

impl ProcessError {
    /// The English description of the error.
    pub fn describe(&self) -> (r: String)
        ensures
            r@ == describe_spec(self@),
    {
        match self {
            ProcessError::UnknownTool { tool } => join_labelled(
                String::from_str("Unknown tool name"),
                tool.as_str(),
            ),
            ProcessError::Io { message } => join_labelled(
                String::from_str("IO error"),
                message.as_str(),
            ),
            ProcessError::CommandFailed { message } => join_labelled(
                String::from_str("Command execution failed"),
                message.as_str(),
            ),
            ProcessError::FileProcessing { file, message } => {
                let detail = file_and_message(file.as_str(), message.as_str());
                join_labelled(String::from_str("File processing error"), detail.as_str())
            },
        }
    }
}

/// The description of `error` in `language`, for showing to the user.
pub fn process_error_to_localized_string(error: &ProcessError, language: &str) -> (r: String)
    ensures
        r@ == localized_spec(error@, language@),
{
    match error {
        ProcessError::UnknownTool { tool } => join_labelled(
            message_for("unknown_tool_error", language),
            tool.as_str(),
        ),
        ProcessError::Io { message } => join_labelled(
            message_for("io_error", language),
            message.as_str(),
        ),
        ProcessError::CommandFailed { message } => join_labelled(
            message_for("command_failed_error", language),
            message.as_str(),
        ),
        ProcessError::FileProcessing { file, message } => {
            let detail = file_and_message(file.as_str(), message.as_str());
            join_labelled(message_for("file_processing_error", language), detail.as_str())
        },
    }
}

} // verus!
