//! What is written out for one generated secret, as text or as keys and
//! values.

use crate::analysis::{
    analysed_chars, is_power_of_ten, structured_form, AnalysisError, SecurityAnalysis,
    StructuredAnalysis, StructuredAnalysisView,
};
use crate::report::is_report;
use term_table::TableStyle;
use vstd::prelude::*;
use vstd::string::StringExecFns;

verus! {

/// The kinds of secret that can be generated.
#[derive(Clone, Copy, Debug, PartialEq, Eq, Structural)]
pub enum PasswordKind {
    Pin,
}

impl PasswordKind {
    /// The name of the kind in the output.
    pub open spec fn label(self) -> Seq<char> {
        match self {
            PasswordKind::Pin => "pin"@,
        }
    }

    /// The name of the kind as an owned string.
    pub fn to_string(&self) -> (text: String)
        ensures
            text@ == self.label(),
    {
        match self {
            PasswordKind::Pin => String::from_str("pin"),
        }
    }
}

/// What is written out for one generated secret: its kind, the secret, and
/// the report on it where one was asked for.
pub struct PasswordOutput {
    pub kind: PasswordKind,
    pub password: String,
    pub analysis: Option<SecurityAnalysis>,
}

/// An output as keys and values, for a structured rendering: the name of the
/// kind, the secret, and the report where there is one.
pub struct StructuredOutput {
    pub kind: String,
    pub password: String,
    pub analysis: Option<StructuredAnalysis>,
}

/// The contents of a [`StructuredOutput`].
pub struct StructuredOutputView {
    pub kind: Seq<char>,
    pub password: Seq<char>,
    pub analysis: Option<StructuredAnalysisView>,
}

impl View for StructuredOutput {
    type V = StructuredOutputView;

    open spec fn view(&self) -> StructuredOutputView {
        StructuredOutputView {
            kind: self.kind@,
            password: self.password@,
            analysis: match self.analysis {
                Some(analysis) => Some(analysis@),
                None => None,
            },
        }
    }
}

impl PasswordOutput {
    /// The output for a secret, with a report if `analyze` asks for one and
    /// with none otherwise. Only the analysis can fail, and only where it was
    /// asked for: on an empty secret, on one that is too long to analyse, or
    /// where the estimator fails.
    pub fn new(kind: PasswordKind, password: &str, analyze: bool) -> (output: Result<
        PasswordOutput,
        AnalysisError,
    >)
        ensures
            !analyze ==> (output matches Ok(made) && made.kind == kind && made.password@
                == password@ && made.analysis is None),
            analyze && password@.len() == 0 ==> output matches Err(AnalysisError::BlankPassword),
            analyze && password@.len() > analysed_chars() ==> output matches Err(
                AnalysisError::TooLong,
            ),
            analyze && 0 < password@.len() <= analysed_chars() ==> match output {
                Ok(made) => made.kind == kind && made.password@ == password@ && (
                made.analysis matches Some(analysis) && analysis@.password == password@
                    && is_power_of_ten(analysis@.guesses)),
                Err(e) => e == AnalysisError::DurationOutOfRange,
            },
    {
        let analysis = if analyze {
            match SecurityAnalysis::new(password) {
                Ok(analysis) => Some(analysis),
                Err(e) => {
                    return Err(e);
                },
            }
        } else {
            None
        };
        Ok(PasswordOutput { kind, password: password.to_owned(), analysis })
    }

    /// The output as keys and values: the kind under its name, the secret as
    /// it is, and the structured form of the report where there is one. An
    /// output without a report has no entry for it.
    pub fn serialize(&self) -> (fields: StructuredOutput)
        ensures
            fields@.kind == self.kind.label(),
            fields@.password == self.password@,
            fields@.analysis == match self.analysis {
                Some(analysis) => Some(structured_form(analysis@)),
                None => None,
            },
    {
        let analysis = match &self.analysis {
            Some(analysis) => Some(analysis.serialize()),
            None => None,
        };
        StructuredOutput { kind: self.kind.to_string(), password: self.password.clone(), analysis }
    }

    /// The output as text for a terminal: the whole report where there is
    /// one, and otherwise the secret alone on a line.
    pub fn text(&self, table_style: TableStyle, max_width: usize) -> (text: String)
        ensures
            match self.analysis {
                Some(analysis) => is_report(text@, analysis@, table_style, max_width),
                None => text@ == self.password@ + seq!['\n'],
            },
    {
        match &self.analysis {
            Some(analysis) => analysis.display_report(table_style, max_width),
            None => {
                proof {
                    reveal_strlit("\n");
                    assert("\n"@ =~= seq!['\n']);
                }
                self.password.clone().concat("\n")
            },
        }
    }
}

} // verus!
