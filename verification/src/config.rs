//! Persisted settings consumed by the editor session: the active external
//! editor profile and a list of named text templates. The host is responsible
//! for loading and saving them; the session logic only reads them.

use vstd::prelude::*;

verus! {

/// A named text template offered to the user for composition.
#[derive(Debug, Clone)]
pub struct ConfigTemplate {
    pub name: String,
    pub content: String,
}

/// The external editor profile: a display name, the executable to run, and
/// an argument template with zero or more bracketed placeholder tokens.
#[derive(Debug, Clone)]
pub struct ConfigExternalEditor {
    pub name: String,
    pub command: String,
    pub args: String,
}

/// The whole persisted configuration. `external_editor` being `None` means
/// no editor is configured, and an external edit request is refused.
#[derive(Debug, Clone)]
pub struct Config {
    pub version: u32,
    pub external_editor: Option<ConfigExternalEditor>,
    pub templates: Vec<ConfigTemplate>,
}

impl Default for Config {
    /// A fresh configuration: no editor profile and no templates.
    fn default() -> (c: Self)
        ensures
            c.version == 0,
            c.external_editor is None,
            c.templates@ =~= Seq::<ConfigTemplate>::empty(),
    {
        Self { version: 0, external_editor: None, templates: Vec::new() }
    }
}

} // verus!
