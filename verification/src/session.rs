//! The editor session orchestrator: the application state holding the
//! configuration and the scratch-file slot, and the round-trip decisions —
//! whether an external edit may begin, what command line to launch for a
//! scratch path, and what shutdown must delete.

use vstd::prelude::*;

use crate::config::Config;
use crate::config::ConfigExternalEditor;
use crate::executor::ExecutorInfo;
use crate::external_editor::{ArgParams, ArgType, ExternalEditor, lemma_resolve_single, token_of};
use crate::scratch::{FileStat, ReadError, ScratchSlot, WriteTarget, close_post, open_post,
    read_back_spec, record_post, result_view, opt_str_view};
use crate::text::{replace_all, split_spaces, str_views};

verus! {

/// Why an external edit request was refused outright.
#[derive(Debug, Clone, Copy, PartialEq, Eq, Structural)]
pub enum ConfigurationError {
    NoEditorConfigured,
}

/// An edit request the host turned away: the error to report, and the text
/// handed back unchanged.
pub struct EditRefusal {
    pub error: ConfigurationError,
    pub text: String,
}

/// An accepted edit request: the profile to launch with, the scratch target
/// the text must be written to, and the text itself.
pub struct EditRequest {
    pub editor: ConfigExternalEditor,
    pub target: WriteTarget,
    pub text: String,
}

/// The long-lived application state: the loaded configuration and the one
/// scratch-file slot. The host keeps it behind its own lock and calls in
/// with one operation at a time.
pub struct TemplayState {
    pub config: Config,
    pub scratch: ScratchSlot,
}

impl TemplayState {
    /// A fresh state: default configuration, empty scratch slot.
    pub fn new() -> (s: Self)
        ensures
            s.config.version == 0,
            s.config.external_editor is None,
            s.config.templates@ =~= Seq::<crate::config::ConfigTemplate>::empty(),
            s.scratch.active_path() is None,
    {
        TemplayState { config: Config::default(), scratch: ScratchSlot::new() }
    }

    /// Replace the loaded configuration, as loading or saving settings does.
    /// The scratch slot is untouched.
    pub fn set_config(&mut self, config: Config)
        ensures
            final(self).config == config,
            final(self).scratch == old(self).scratch,
    {
        self.config = config;
    }

    /// Decide whether an external edit may begin. With no editor profile
    /// configured the request is refused and the text comes back unchanged —
    /// no scratch file is created. Otherwise the profile is handed out with
    /// the scratch target the text must be written to.
    pub fn begin_external_edit(&self, text: String) -> (r: Result<EditRequest, EditRefusal>)
        ensures
            r is Err <==> self.config.external_editor is None,
            r matches Err(refusal) ==> {
                &&& refusal.error == ConfigurationError::NoEditorConfigured
                &&& refusal.text@ == text@
            },
            r matches Ok(req) ==> {
                &&& req.editor.name@ == self.config.external_editor->0.name@
                &&& req.editor.command@ == self.config.external_editor->0.command@
                &&& req.editor.args@ == self.config.external_editor->0.args@
                &&& open_post(self.scratch, req.target)
                &&& req.text@ == text@
            },
    {
        match &self.config.external_editor {
            None => Err(
                EditRefusal { error: ConfigurationError::NoEditorConfigured, text },
            ),
            Some(editor) => {
                let profile = ConfigExternalEditor {
                    name: editor.name.clone(),
                    command: editor.command.clone(),
                    args: editor.args.clone(),
                };
                Ok(EditRequest { editor: profile, target: self.scratch.open_for_edit(), text })
            },
        }
    }

    /// Record the scratch file the host created for an accepted request.
    pub fn record_scratch_file(&mut self, path: String)
        ensures
            record_post(old(self).scratch, final(self).scratch, path@),
            final(self).config == old(self).config,
    {
        self.scratch.record_file(path);
    }

    /// Check the scratch file for a completed edit, given what the host
    /// observed of it. A pure read of filesystem state: safe to call
    /// repeatedly, with `Unmodified` the normal "not ready yet" answer.
    pub fn poll_scratch_file(&self, stat: &Option<FileStat>, content: Option<String>) -> (r:
        Result<String, ReadError>)
        ensures
            result_view(r) == read_back_spec(
                self.scratch.active_path() is Some,
                *stat,
                opt_str_view(content),
            ),
    {
        self.scratch.read_back(stat, content)
    }

    /// The shutdown hook: give up the scratch file and hand back the one
    /// path the host must delete, if any. The configuration is untouched.
    pub fn shutdown(&mut self) -> (r: Option<String>)
        ensures
            close_post(old(self).scratch, final(self).scratch, opt_str_view(r)),
            final(self).config == old(self).config,
    {
        self.scratch.close()
    }
}

/// The command line launching `editor` on the scratch file at `path`: the
/// profile's command, and its argument template with every occurrence of
/// the file-path token replaced by `path`, split into tokens on single
/// spaces. No other placeholder is populated here, so every other token is
/// left literally in place.
pub fn launch_request(editor: &ConfigExternalEditor, path: String) -> (info: ExecutorInfo)
    ensures
        info.path_spec() == editor.command@,
        str_views(info.args_spec()) == split_spaces(
            replace_all(editor.args@, token_of(ArgType::FilePath), path@),
        ),
{
    let ext = ExternalEditor::new(editor.name.clone(), editor.command.clone(), editor.args.clone());
    let mut params = ArgParams::new();
    params.set_file_path(path);
    proof {
        lemma_resolve_single(editor.args@, params);
    }
    ext.prepare(params)
}

} // verus!
