//! Neutral schema representation of one command-line argument.
//!
//! The classifier consumes one [`ArgDef`] per recognized argument. How
//! such a definition is obtained (from a parser library, a file, or by
//! hand) is outside this crate's scope; the fields below are the only
//! facts the classifier reads.

use vstd::prelude::*;

verus! {

/// How the value of an argument is hinted to the user: not path-like at
/// all, or one of the path refinements.
#[derive(Debug, Clone, Copy, PartialEq, Eq, Structural)]
pub enum HintKind {
    /// No path-like hint.
    Other,
    /// Any filesystem path.
    AnyPath,
    /// A directory path.
    DirPath,
    /// A file path.
    FilePath,
    /// A path to an executable.
    ExecutablePath,
}

impl HintKind {
    /// True for every path-like hint.
    pub open spec fn is_path(&self) -> bool {
        !(self is Other)
    }

    /// A path hint admits directories when it is generic or directory-shaped.
    pub open spec fn allows_dir(&self) -> bool {
        self is AnyPath || self is DirPath
    }

    /// A path hint admits files when it is generic, file- or executable-shaped.
    pub open spec fn allows_file(&self) -> bool {
        self is AnyPath || self is FilePath || self is ExecutablePath
    }

    /// Executable test for [`Self::is_path`].
    pub fn is_path_hint(&self) -> (r: bool)
        ensures
            r == self.is_path(),
    {
        match self {
            HintKind::Other => false,
            _ => true,
        }
    }

    /// Executable test for [`Self::allows_dir`].
    pub fn dir_allowed(&self) -> (r: bool)
        ensures
            r == self.allows_dir(),
    {
        match self {
            HintKind::AnyPath => true,
            HintKind::DirPath => true,
            _ => false,
        }
    }

    /// Executable test for [`Self::allows_file`].
    pub fn file_allowed(&self) -> (r: bool)
        ensures
            r == self.allows_file(),
    {
        match self {
            HintKind::AnyPath => true,
            HintKind::FilePath => true,
            HintKind::ExecutablePath => true,
            _ => false,
        }
    }
}

/// One schema-level argument definition: everything the classifier needs
/// to derive the initial editable state for that argument.
#[derive(Debug, Clone)]
pub struct ArgDef {
    /// Identifier-like name of the argument in the schema.
    pub name: String,
    /// Long flag name, without the leading `--`.
    pub long: Option<String>,
    /// Short flag name, without the leading `-`; only consulted when
    /// there is no long name.
    pub short: Option<String>,
    /// Short help text.
    pub about: Option<String>,
    /// Long help text; preferred over `about` when present.
    pub long_about: Option<String>,
    /// The schema marks the argument as required.
    pub required: bool,
    /// The schema forbids empty values for this argument.
    pub forbid_empty: bool,
    /// Join the call token and the value with `=` instead of emitting two
    /// tokens.
    pub use_equals: bool,
    /// The argument may occur more than once.
    pub multiple: bool,
    /// The argument carries a value (as opposed to a bare flag).
    pub takes_value: bool,
    /// Hint about the shape of the value.
    pub hint: HintKind,
    /// Enumerated set of allowed values, when the schema restricts them.
    pub possible: Option<Vec<String>>,
    /// Default value(s), in schema order.
    pub defaults: Vec<String>,
}

impl ArgDef {
    /// An argument is treated as optional unless the schema requires it
    /// or forbids empty values for it.
    pub open spec fn spec_optional(&self) -> bool {
        !self.required && !self.forbid_empty
    }
}

} // verus!
