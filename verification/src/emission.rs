//! The call that a logging backend receives for one event.

use vstd::prelude::*;
use crate::data::chars_of;

verus! {

/// The points of the backend's scale, from the least grave to the gravest.
#[derive(Clone, Copy, Debug, PartialEq, Eq, PartialOrd, Ord, Structural)]
pub enum Severity {
    Trace,
    Debug,
    Info,
    Warn,
    Error,
}

/// What an [`Emission`] holds, as plain values.
pub struct EmissionView {
    pub severity: Severity,
    pub target: Seq<char>,
    pub module: Option<Seq<char>>,
    pub file: Option<Seq<char>>,
    pub line: Option<u32>,
    pub message: Seq<char>,
}

impl EmissionView {
    /// Module, file and line are present together or absent together.
    pub open spec fn wf(self) -> bool {
        ||| self.module is Some && self.file is Some && self.line is Some
        ||| self.module is None && self.file is None && self.line is None
    }
}

/// One call to the logging backend: the severity to log at, where the message
/// came from, and the message itself, which is final text and no template.
#[derive(Clone, Copy, Debug, PartialEq, Eq)]
pub struct Emission<'a> {
    pub severity: Severity,
    pub target: &'a str,
    pub module: Option<&'a str>,
    pub file: Option<&'a str>,
    pub line: Option<u32>,
    pub message: &'a str,
}

impl<'a> View for Emission<'a> {
    type V = EmissionView;

    open spec fn view(&self) -> EmissionView {
        EmissionView {
            severity: self.severity,
            target: self.target@,
            module: chars_of(self.module),
            file: chars_of(self.file),
            line: self.line,
            message: self.message@,
        }
    }
}

} // verus!
