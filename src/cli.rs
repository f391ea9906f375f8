use vstd::prelude::*;
use vstd::string::StringExecFns;

verus! {

/// The manifest file that every action reads or writes unless told otherwise.
pub const DEFAULT_MANIFEST: &'static str = "tracks.json";

/// The page that `Generate` writes unless told otherwise.
pub const DEFAULT_OUTPUT: &'static str = "index.html";

/// One run of the tool.
#[derive(Debug, Clone, PartialEq, Eq)]
pub enum Action {
    /// Render the page of `manifest` into `output`.
    Generate { manifest: String, output: String },
    /// Append a track called `name` at `path` to `manifest`.
    Add { manifest: String, name: String, path: String },
    /// Probe the URL of every track of `manifest`.
    Check { manifest: String },
    /// Rewrite `manifest` in canonical form.
    Format { manifest: String },
    /// Write a manifest with empty defaults to `manifest`.
    Template { manifest: String },
}

/// The parsed command line.
#[derive(Debug, Clone, PartialEq, Eq)]
pub struct Arguments {
    pub action: Action,
}

/// The manifest file that `a` works on.
pub open spec fn manifest_of(a: Action) -> String {
    match a {
        Action::Generate { manifest, .. } => manifest,
        Action::Add { manifest, .. } => manifest,
        Action::Check { manifest } => manifest,
        Action::Format { manifest } => manifest,
        Action::Template { manifest } => manifest,
    }
}

impl Action {
    /// The manifest file this action reads or writes.
    pub fn manifest(&self) -> (r: &String)
        ensures
            *r == manifest_of(*self),
    {
        match self {
            Action::Generate { manifest, .. } => manifest,
            Action::Add { manifest, .. } => manifest,
            Action::Check { manifest } => manifest,
            Action::Format { manifest } => manifest,
            Action::Template { manifest } => manifest,
        }
    }
}

/// What can abort an action.
#[derive(Debug, Clone, Copy, PartialEq, Eq)]
pub enum ToolError {
    /// The manifest file does not exist or cannot be opened.
    NotFound,
    /// The manifest is not well-formed or does not fit the schema.
    ParseError,
    /// A file could not be written.
    WriteError,
    /// The probes of a check could not all be run.
    CheckInfrastructureFailure,
}

impl ToolError {
    /// A human-readable cause.
    pub fn message(&self) -> (r: String)
        ensures
            r@ == (match *self {
                ToolError::NotFound => "Failed to open manifest"@,
                ToolError::ParseError => "Failed to read manifest"@,
                ToolError::WriteError => "Failed to write file"@,
                ToolError::CheckInfrastructureFailure => "Failed to join the check tasks"@,
            }),
    {
        match self {
            ToolError::NotFound => String::from_str("Failed to open manifest"),
            ToolError::ParseError => String::from_str("Failed to read manifest"),
            ToolError::WriteError => String::from_str("Failed to write file"),
            ToolError::CheckInfrastructureFailure => String::from_str("Failed to join the check tasks"),
        }
    }
}

} // verus!
