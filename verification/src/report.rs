//! Lines of the final report, each bound for one of two output streams.

use vstd::prelude::*;

verus! {

/// Where a line of the report goes.
#[derive(Debug, Clone, Copy, PartialEq, Eq)]
pub enum Stream {
    /// Informational outcomes.
    Standard,
    /// Errors that did not end the run.
    Error,
}

/// One line of the report.
#[derive(Debug, PartialEq, Eq)]
pub struct ReportLine {
    pub stream: Stream,
    pub text: String,
}

/// Model of a [`ReportLine`].
pub struct ReportLineView {
    pub stream: Stream,
    pub text: Seq<char>,
}

impl View for ReportLine {
    type V = ReportLineView;

    open spec fn view(&self) -> ReportLineView {
        ReportLineView { stream: self.stream, text: self.text@ }
    }
}

impl DeepView for ReportLine {
    type V = ReportLineView;

    open spec fn deep_view(&self) -> ReportLineView {
        self@
    }
}

impl Clone for ReportLine {
    fn clone(&self) -> (r: Self)
        ensures
            r@ == self@,
    {
        ReportLine { stream: self.stream, text: self.text.clone() }
    }
}

} // verus!
