//! Log events, each tagged with its severity, and what the backend is to
//! receive for them.

use vstd::prelude::*;
use vstd::std_specs::cmp::PartialEqSpec;
use vstd::std_specs::cmp::PartialEqSpecImpl;
use crate::data::Data;
use crate::emission::{Emission, EmissionView, Severity};

verus! {

/// A record under the tag of its severity. The tag alone says how grave the
/// event is: the record holds no severity of its own.
#[derive(Debug)]
pub enum LoggingEvents {
    Debug(Data),
    Error(Data),
    Info(Data),
    Trace(Data),
    Warning(Data),
}

impl LoggingEvents {
    /// The record that the event carries.
    pub open spec fn data(self) -> Data {
        match self {
            LoggingEvents::Debug(d) => d,
            LoggingEvents::Error(d) => d,
            LoggingEvents::Info(d) => d,
            LoggingEvents::Trace(d) => d,
            LoggingEvents::Warning(d) => d,
        }
    }

    /// The point of the backend's scale that the event's tag stands for.
    pub open spec fn severity(self) -> Severity {
        match self {
            LoggingEvents::Debug(_) => Severity::Debug,
            LoggingEvents::Error(_) => Severity::Error,
            LoggingEvents::Info(_) => Severity::Info,
            LoggingEvents::Trace(_) => Severity::Trace,
            LoggingEvents::Warning(_) => Severity::Warn,
        }
    }

    /// The two events have the same tag.
    pub open spec fn same_tag(self, other: Self) -> bool {
        ||| self is Debug && other is Debug
        ||| self is Error && other is Error
        ||| self is Info && other is Info
        ||| self is Trace && other is Trace
        ||| self is Warning && other is Warning
    }

    /// Decomposes the event into the one call that the logging backend is to
    /// receive for it: the severity of its tag, and the fields of its record
    /// as they are.
    pub fn log<'a>(&'a self) -> (e: Emission<'a>)
        ensures
            e@ == self@,
            e@.wf(),
    {
        let (severity, data) = match self {
            LoggingEvents::Debug(data) => (Severity::Debug, data),
            LoggingEvents::Info(data) => (Severity::Info, data),
            LoggingEvents::Error(data) => (Severity::Error, data),
            LoggingEvents::Trace(data) => (Severity::Trace, data),
            LoggingEvents::Warning(data) => (Severity::Warn, data),
        };
        proof {
            use_type_invariant(data);
        }
        Emission {
            severity,
            target: data.target(),
            module: data.module(),
            file: data.file(),
            line: data.line(),
            message: data.value(),
        }
    }
}

/// An event stands for the call that the backend receives for it.
impl View for LoggingEvents {
    type V = EmissionView;

    open spec fn view(&self) -> EmissionView {
        EmissionView {
            severity: self.severity(),
            target: self.data()@.target,
            module: self.data()@.module,
            file: self.data()@.file,
            line: self.data()@.line,
            message: self.data()@.value,
        }
    }
}

impl Clone for LoggingEvents {
    /// A second event with the same tag and the same contents.
    fn clone(&self) -> (e: Self)
        ensures
            e@ == self@,
    {
        match self {
            LoggingEvents::Debug(data) => LoggingEvents::Debug(data.clone()),
            LoggingEvents::Error(data) => LoggingEvents::Error(data.clone()),
            LoggingEvents::Info(data) => LoggingEvents::Info(data.clone()),
            LoggingEvents::Trace(data) => LoggingEvents::Trace(data.clone()),
            LoggingEvents::Warning(data) => LoggingEvents::Warning(data.clone()),
        }
    }
}

impl PartialEq for LoggingEvents {
    /// Two events are equal where they have the same tag and hold the same
    /// contents.
    fn eq(&self, other: &Self) -> (r: bool) {
        match (self, other) {
            (LoggingEvents::Debug(a), LoggingEvents::Debug(b)) => *a == *b,
            (LoggingEvents::Error(a), LoggingEvents::Error(b)) => *a == *b,
            (LoggingEvents::Info(a), LoggingEvents::Info(b)) => *a == *b,
            (LoggingEvents::Trace(a), LoggingEvents::Trace(b)) => *a == *b,
            (LoggingEvents::Warning(a), LoggingEvents::Warning(b)) => *a == *b,
            _ => false,
        }
    }
}

impl PartialEqSpecImpl for LoggingEvents {
    open spec fn obeys_eq_spec() -> bool {
        true
    }

    open spec fn eq_spec(&self, other: &Self) -> bool {
        self@ == other@
    }
}

impl Eq for LoggingEvents {

}

/// Each tag has a severity of its own: whatever record five events of the
/// five tags carry, their severities are those of the fixed mapping, and no
/// two of them are the same.
pub proof fn tags_map_to_distinct_severities(data: Data)
    ensures
        LoggingEvents::Debug(data).severity() == Severity::Debug,
        LoggingEvents::Info(data).severity() == Severity::Info,
        LoggingEvents::Warning(data).severity() == Severity::Warn,
        LoggingEvents::Error(data).severity() == Severity::Error,
        LoggingEvents::Trace(data).severity() == Severity::Trace,
        LoggingEvents::Debug(data).severity() != LoggingEvents::Info(data).severity(),
        LoggingEvents::Debug(data).severity() != LoggingEvents::Warning(data).severity(),
        LoggingEvents::Debug(data).severity() != LoggingEvents::Error(data).severity(),
        LoggingEvents::Debug(data).severity() != LoggingEvents::Trace(data).severity(),
        LoggingEvents::Info(data).severity() != LoggingEvents::Warning(data).severity(),
        LoggingEvents::Info(data).severity() != LoggingEvents::Error(data).severity(),
        LoggingEvents::Info(data).severity() != LoggingEvents::Trace(data).severity(),
        LoggingEvents::Warning(data).severity() != LoggingEvents::Error(data).severity(),
        LoggingEvents::Warning(data).severity() != LoggingEvents::Trace(data).severity(),
        LoggingEvents::Error(data).severity() != LoggingEvents::Trace(data).severity(),
{
}

/// The severity tells the tag: two events have the same severity exactly
/// where they have the same tag.
pub proof fn severity_tells_the_tag(a: LoggingEvents, b: LoggingEvents)
    ensures
        a.severity() == b.severity() <==> a.same_tag(b),
{
}

/// Two events are equal exactly where they have the same tag and their
/// records hold the same target, message, module, file and line. So building
/// an event twice from equal records under one tag gives equal events.
pub proof fn events_equal_by_tag_and_record(a: LoggingEvents, b: LoggingEvents)
    ensures
        a@ == b@ <==> a.same_tag(b) && a.data()@ == b.data()@,
        PartialEqSpec::eq_spec(&a, &b) <==> a.same_tag(b) && a.data()@ == b.data()@,
{
}

} // verus!
