//! Approval requests: what a user is asked, how risky the request looks,
//! and the compact preview shown before deciding.

pub mod patch_diff;
pub mod preview;
pub mod questions;
pub mod risk;
pub mod shell;

use vstd::prelude::*;

verus! {

/// The kind of decision an approval request asks for.
#[derive(Debug, Clone, Copy, PartialEq, Eq, Structural)]
pub enum ApprovalType {
    Exec,
    Patch,
    Question,
    Permissions,
}

/// How risky a request looks.
#[derive(Debug, Clone, Copy, PartialEq, Eq, Structural)]
pub enum ApprovalRiskLevel {
    Low,
    Normal,
    High,
}

/// What the preview of an approval request shows.
#[derive(Debug, Clone, Copy, PartialEq, Eq, Structural)]
pub enum ApprovalPreviewType {
    ShellCommand,
    Diff,
    FilePath,
    Url,
    SearchQuery,
    Pattern,
    Prompt,
    Value,
    Action,
}

/// One command of a shell command line, with the operator that joins it to
/// the command before it.
#[derive(Debug, Clone)]
pub struct ApprovalPreviewSegment {
    pub command: String,
    pub leading_operator: Option<String>,
}

impl ApprovalPreviewSegment {
    pub open spec fn view_pair(&self) -> (Seq<char>, Option<Seq<char>>) {
        (self.command@, crate::text::opt_string_view(self.leading_operator))
    }
}

/// The views of a sequence of segments.
pub open spec fn segments_view(v: Seq<ApprovalPreviewSegment>) -> Seq<(Seq<char>, Option<Seq<char>>)> {
    v.map_values(|s: ApprovalPreviewSegment| s.view_pair())
}


/// One answer offered by a question.
#[derive(Debug, Clone)]
pub struct ApprovalQuestionOption {
    pub label: String,
    pub description: Option<String>,
}

impl ApprovalQuestionOption {
    pub open spec fn view_pair(&self) -> (Seq<char>, Option<Seq<char>>) {
        (self.label@, crate::text::opt_string_view(self.description))
    }
}

/// A question put to the user, with the answers it offers.
#[derive(Debug, Clone)]
pub struct ApprovalQuestionPrompt {
    pub id: String,
    pub header: Option<String>,
    pub question: String,
    pub options: Vec<ApprovalQuestionOption>,
    pub allows_multiple_selection: bool,
    pub allows_other: bool,
    pub is_secret: bool,
}

/// The view of a question prompt.
pub struct PromptSpec {
    pub id: Seq<char>,
    pub header: Option<Seq<char>>,
    pub question: Seq<char>,
    pub options: Seq<(Seq<char>, Option<Seq<char>>)>,
    pub allows_multiple_selection: bool,
    pub allows_other: bool,
    pub is_secret: bool,
}

/// The views of a sequence of options.
pub open spec fn options_view(v: Seq<ApprovalQuestionOption>) -> Seq<(Seq<char>, Option<Seq<char>>)> {
    v.map_values(|o: ApprovalQuestionOption| o.view_pair())
}

impl ApprovalQuestionPrompt {
    pub open spec fn prompt_view(&self) -> PromptSpec {
        PromptSpec {
            id: self.id@,
            header: crate::text::opt_string_view(self.header),
            question: self.question@,
            options: options_view(self.options@),
            allows_multiple_selection: self.allows_multiple_selection,
            allows_other: self.allows_other,
            is_secret: self.is_secret,
        }
    }
}

/// The views of a sequence of prompts.
pub open spec fn prompts_view(v: Seq<ApprovalQuestionPrompt>) -> Seq<PromptSpec> {
    v.map_values(|p: ApprovalQuestionPrompt| p.prompt_view())
}

} // verus!
