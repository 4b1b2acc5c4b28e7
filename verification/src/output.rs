//! Where the configuration goes, and the status that the process ends
//! with.

use vstd::prelude::*;

verus! {

/// What is to be done with a configuration.
#[derive(Debug, PartialEq, Eq)]
pub enum OutputAction {
    /// Create the file at `path`, or empty it if it exists, and write
    /// `contents` to it.
    WriteFile { path: String, contents: String },
    /// Write `text` to standard output, and nothing after it.
    Print { text: String },
}

/// An `OutputAction` with its texts as sequences of characters.
pub ghost enum OutputActionView {
    WriteFile { path: Seq<char>, contents: Seq<char> },
    Print { text: Seq<char> },
}

impl View for OutputAction {
    type V = OutputActionView;

    open spec fn view(&self) -> OutputActionView {
        match self {
            OutputAction::WriteFile { path, contents } => OutputActionView::WriteFile {
                path: path@,
                contents: contents@,
            },
            OutputAction::Print { text } => OutputActionView::Print { text: text@ },
        }
    }
}

/// With an output path the configuration goes to that file as it is;
/// without one it goes to standard output, followed by one line break.
pub open spec fn action_for(content: Seq<char>, output_path: Option<Seq<char>>) -> OutputActionView {
    match output_path {
        Some(path) => OutputActionView::WriteFile { path, contents: content },
        None => OutputActionView::Print { text: content + "\n"@ },
    }
}

/// Decides what is to be done with the configuration `content`.
pub fn write_content(content: String, output_file_path: Option<String>) -> (action: OutputAction)
    ensures
        action@ == action_for(
            content@,
            match output_file_path {
                Some(path) => Some(path@),
                None => None,
            },
        ),
{
    match output_file_path {
        Some(path) => OutputAction::WriteFile { path, contents: content },
        None => {
            let mut text = content;
            text.append("\n");
            OutputAction::Print { text }
        },
    }
}

/// How a run of the program ended.
#[derive(Clone, Copy, Debug, PartialEq, Eq)]
pub enum Completion {
    /// The usage message was shown.
    UsageShown,
    /// The configuration was written to standard output.
    Printed,
    /// The configuration was written to the output file.
    Written,
    /// The command line stood for no request.
    UsageRefused,
    /// No configuration could be made of the input directory.
    RenderFailed,
    /// The output file could not be created or written.
    WriteFailed,
}

impl Completion {
    /// The run did what it was asked to do.
    pub open spec fn succeeded(self) -> bool {
        self is UsageShown || self is Printed || self is Written
    }

    /// The status for each way of ending: zero for success, and for a
    /// failed write a status of its own.
    pub open spec fn status(self) -> int {
        match self {
            Completion::UsageShown | Completion::Printed | Completion::Written => 0,
            Completion::UsageRefused | Completion::RenderFailed => -1,
            Completion::WriteFailed => -2,
        }
    }

    /// The status that the process ends with.
    pub fn exit_status(&self) -> (status: i32)
        ensures
            status == self.status(),
            status == 0 <==> self.succeeded(),
    {
        match self {
            Completion::UsageShown | Completion::Printed | Completion::Written => 0,
            Completion::UsageRefused | Completion::RenderFailed => -1,
            Completion::WriteFailed => -2,
        }
    }
}

} // verus!
