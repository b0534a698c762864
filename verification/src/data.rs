//! The payload of a log event: a target, a rendered message, and the place in
//! the source that the message came from.

use vstd::prelude::*;
use vstd::std_specs::cmp::PartialEqSpecImpl;

verus! {

/// What a [`Data`] holds, as plain values.
pub struct DataView {
    /// Logical origin of the message.
    pub target: Seq<char>,
    /// The rendered message.
    pub value: Seq<char>,
    /// Module that the message came from.
    pub module: Option<Seq<char>>,
    /// Source file that the message came from.
    pub file: Option<Seq<char>>,
    /// Line in that file.
    pub line: Option<u32>,
}

impl DataView {
    /// Module, file and line are all known.
    pub open spec fn has_location(self) -> bool {
        self.module is Some && self.file is Some && self.line is Some
    }

    /// Module, file and line are all unknown.
    pub open spec fn lacks_location(self) -> bool {
        self.module is None && self.file is None && self.line is None
    }

    /// The three parts of the location are present together or absent together.
    pub open spec fn wf(self) -> bool {
        self.has_location() || self.lacks_location()
    }
}

/// The characters of a string slice that may be absent.
pub open spec fn chars_of(s: Option<&str>) -> Option<Seq<char>> {
    match s {
        Some(t) => Some(t@),
        None => None,
    }
}

/// The characters of an owned string that may be absent.
pub open spec fn chars_of_owned(s: Option<String>) -> Option<Seq<char>> {
    match s {
        Some(t) => Some(t@),
        None => None,
    }
}

fn borrowed(s: &Option<String>) -> (r: Option<&str>)
    ensures
        chars_of(r) == chars_of_owned(*s),
{
    match s {
        Some(t) => Some(t.as_str()),
        None => None,
    }
}

fn duplicate(s: &Option<String>) -> (r: Option<String>)
    ensures
        chars_of_owned(r) == chars_of_owned(*s),
{
    match s {
        Some(t) => Some(t.clone()),
        None => None,
    }
}

fn same_text(a: &Option<String>, b: &Option<String>) -> (r: bool)
    ensures
        r == (chars_of_owned(*a) == chars_of_owned(*b)),
{
    match (a, b) {
        (Some(x), Some(y)) => *x == *y,
        (None, None) => true,
        _ => false,
    }
}

/// One structured log message: where it belongs, what it says, and where in
/// the source it was written.
#[derive(Debug)]
pub struct Data {
    target: String,
    value: String,
    module: Option<String>,
    file: Option<String>,
    line: Option<u32>,
}

impl View for Data {
    type V = DataView;

    closed spec fn view(&self) -> DataView {
        DataView {
            target: self.target@,
            value: self.value@,
            module: chars_of_owned(self.module),
            file: chars_of_owned(self.file),
            line: self.line,
        }
    }
}

impl Data {
    /// Holds of every record: what it knows of its location, it knows whole.
    #[verifier::type_invariant]
    pub open spec fn wf(self) -> bool {
        self@.wf()
    }

    /// A record that knows where in the source it came from: module, file and
    /// line are all present in it.
    pub fn full(target: String, value: String, module: String, file: String, line: u32) -> (d: Self)
        ensures
            d@ == (DataView {
                target: target@,
                value: value@,
                module: Some(module@),
                file: Some(file@),
                line: Some(line),
            }),
            d@.has_location(),
    {
        Data { target, value, module: Some(module), file: Some(file), line: Some(line) }
    }

    /// A record of a target and a message alone: module, file and line are
    /// all absent from it.
    pub fn plain(target: String, value: String) -> (d: Self)
        ensures
            d@ == (DataView {
                target: target@,
                value: value@,
                module: None,
                file: None,
                line: None,
            }),
            d@.lacks_location(),
    {
        Data { target, value, module: None, file: None, line: None }
    }

    /// Logical origin of the message.
    pub fn target(&self) -> (s: &str)
        ensures
            s@ == self@.target,
    {
        self.target.as_str()
    }

    /// The rendered message.
    pub fn value(&self) -> (s: &str)
        ensures
            s@ == self@.value,
    {
        self.value.as_str()
    }

    /// Module that the message came from, where it is known.
    pub fn module(&self) -> (s: Option<&str>)
        ensures
            chars_of(s) == self@.module,
    {
        borrowed(&self.module)
    }

    /// Source file that the message came from, where it is known.
    pub fn file(&self) -> (s: Option<&str>)
        ensures
            chars_of(s) == self@.file,
    {
        borrowed(&self.file)
    }

    /// Line in the source file, where it is known.
    pub fn line(&self) -> (n: Option<u32>)
        ensures
            n == self@.line,
    {
        self.line
    }

    /// Whether the record knows where in the source it came from. Module,
    /// file and line are present together or absent together, so the answer
    /// holds of all three.
    pub fn has_location(&self) -> (b: bool)
        ensures
            b == self@.has_location(),
            !b == self@.lacks_location(),
    {
        proof {
            use_type_invariant(self);
        }
        self.line.is_some()
    }
}

impl Clone for Data {
    /// A second record with the same contents.
    fn clone(&self) -> (d: Self)
        ensures
            d@ == self@,
    {
        proof {
            use_type_invariant(self);
        }
        Data {
            target: self.target.clone(),
            value: self.value.clone(),
            module: duplicate(&self.module),
            file: duplicate(&self.file),
            line: self.line,
        }
    }
}

impl PartialEq for Data {
    /// Two records are equal where they hold the same contents.
    fn eq(&self, other: &Self) -> (r: bool) {
        self.target == other.target && self.value == other.value && same_text(
            &self.module,
            &other.module,
        ) && same_text(&self.file, &other.file) && self.line == other.line
    }
}

impl PartialEqSpecImpl for Data {
    open spec fn obeys_eq_spec() -> bool {
        true
    }

    open spec fn eq_spec(&self, other: &Self) -> bool {
        self@ == other@
    }
}

impl Eq for Data {

}

} // verus!
