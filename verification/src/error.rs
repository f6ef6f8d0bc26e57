//! The ways in which a render pass fails. Every one of them ends the pass.

use vstd::prelude::*;

verus! {

/// Why a render pass failed.
#[derive(Clone, Copy, Debug, PartialEq, Eq, Structural)]
pub enum RenderError {
    /// A chapter's path cannot be written as text.
    PathEncoding,
    /// The page template is not text, does not compile, or cannot be filled
    /// from the data it was given.
    Template,
    /// A directory or a file could not be made, removed or written.
    Io,
    /// A file of the theme directory is there but cannot be read.
    AssetLoad,
}

impl RenderError {
    /// A sentence for the one who started the pass.
    pub fn message(&self) -> (text: &'static str)
        ensures
            text@ == match *self {
                RenderError::PathEncoding => "could not convert a chapter path to text"@,
                RenderError::Template => "could not render the page template"@,
                RenderError::Io => "could not write the output"@,
                RenderError::AssetLoad => "could not read a file of the theme"@,
            },
    {
        match self {
            RenderError::PathEncoding => "could not convert a chapter path to text",
            RenderError::Template => "could not render the page template",
            RenderError::Io => "could not write the output",
            RenderError::AssetLoad => "could not read a file of the theme",
        }
    }
}

} // verus!
