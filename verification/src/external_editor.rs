//! The argument template engine: a closed set of placeholder kinds, a
//! per-invocation set of placeholder values, and the editor profile that
//! substitutes them into its argument template.

use vstd::prelude::*;

use crate::executor::ExecutorInfo;
use crate::text::{dec_digits, lemma_replace_all_absent, occurs, replace_all, replace_all_str,
    split_spaces, split_spaces_str, str_views, u32_to_decimal};

verus! {

/// The closed enumeration of placeholder kinds a template may refer to.
#[derive(Debug, Clone, Copy, PartialEq, Eq, Structural, PartialOrd, Ord, Hash)]
pub enum ArgType {
    CurrentDirectory,
    FilePath,
    FileName,
    FileExtension,
    LineNumber,
}

/// The name of a placeholder kind, as it appears inside its token.
pub open spec fn arg_type_name(t: ArgType) -> Seq<char> {
    match t {
        ArgType::CurrentDirectory => "CurrentDirectory"@,
        ArgType::FilePath => "FilePath"@,
        ArgType::FileName => "FileName"@,
        ArgType::FileExtension => "FileExtension"@,
        ArgType::LineNumber => "LineNumber"@,
    }
}

/// The literal token substituted in a template: the kind's name in braces.
pub open spec fn token_of(t: ArgType) -> Seq<char> {
    "{"@ + arg_type_name(t) + "}"@
}

/// Every token is non-empty.
pub proof fn lemma_token_nonempty(t: ArgType)
    ensures
        token_of(t).len() >= 1,
{
    reveal_strlit("{");
    reveal_strlit("}");
}

/// The placeholder values for one invocation: at most one value per kind.
/// A kind left unset keeps its token untouched in the resolved template.
pub struct ArgParams {
    current_directory: Option<String>,
    file_path: Option<String>,
    file_name: Option<String>,
    file_extension: Option<String>,
    line_number: Option<String>,
}

/// The entries of an optional placeholder value, as (kind, value) pairs.
pub open spec fn opt_entry(t: ArgType, v: Option<String>) -> Seq<(ArgType, Seq<char>)> {
    match v {
        Option::Some(s) => seq![(t, s@)],
        Option::None => Seq::empty(),
    }
}

impl ArgParams {
    /// The value set for `t`, if any.
    pub closed spec fn value_of(self, t: ArgType) -> Option<String> {
        match t {
            ArgType::CurrentDirectory => self.current_directory,
            ArgType::FilePath => self.file_path,
            ArgType::FileName => self.file_name,
            ArgType::FileExtension => self.file_extension,
            ArgType::LineNumber => self.line_number,
        }
    }

    /// The set entries in a fixed kind order.
    pub closed spec fn entries(self) -> Seq<(ArgType, Seq<char>)> {
        opt_entry(ArgType::CurrentDirectory, self.current_directory) + opt_entry(
            ArgType::FilePath,
            self.file_path,
        ) + opt_entry(ArgType::FileName, self.file_name) + opt_entry(
            ArgType::FileExtension,
            self.file_extension,
        ) + opt_entry(ArgType::LineNumber, self.line_number)
    }

    /// An empty placeholder set: no kind carries a value.
    pub fn new() -> (p: Self)
        ensures
            forall|t: ArgType| p.value_of(t) is None,
    {
        Self {
            current_directory: None,
            file_path: None,
            file_name: None,
            file_extension: None,
            line_number: None,
        }
    }

    /// The set entries as (kind, value) pairs, in a fixed kind order.
    pub fn iter(&self) -> (r: Vec<(ArgType, String)>)
        ensures
            r@.map_values(|e: (ArgType, String)| (e.0, e.1@)) == self.entries(),
    {
        let mut r: Vec<(ArgType, String)> = Vec::new();
        if let Some(v) = &self.current_directory {
            r.push((ArgType::CurrentDirectory, v.clone()));
        }
        if let Some(v) = &self.file_path {
            r.push((ArgType::FilePath, v.clone()));
        }
        if let Some(v) = &self.file_name {
            r.push((ArgType::FileName, v.clone()));
        }
        if let Some(v) = &self.file_extension {
            r.push((ArgType::FileExtension, v.clone()));
        }
        if let Some(v) = &self.line_number {
            r.push((ArgType::LineNumber, v.clone()));
        }
        proof {
            assert(r@.map_values(|e: (ArgType, String)| (e.0, e.1@)) =~= self.entries());
        }
        r
    }

    /// Set the current-directory placeholder.
    pub fn set_current_directory(&mut self, current_directory: String)
        ensures
            final(self).value_of(ArgType::CurrentDirectory) == Some(current_directory),
            forall|t: ArgType|
                t != ArgType::CurrentDirectory ==> final(self).value_of(t) == old(
                    self,
                ).value_of(t),
    {
        self.current_directory = Some(current_directory);
    }

    /// Set the file-path placeholder.
    pub fn set_file_path(&mut self, file_path: String)
        ensures
            final(self).value_of(ArgType::FilePath) == Some(file_path),
            forall|t: ArgType|
                t != ArgType::FilePath ==> final(self).value_of(t) == old(self).value_of(t),
    {
        self.file_path = Some(file_path);
    }

    /// Set the file-name placeholder.
    pub fn set_file_name(&mut self, file_name: String)
        ensures
            final(self).value_of(ArgType::FileName) == Some(file_name),
            forall|t: ArgType|
                t != ArgType::FileName ==> final(self).value_of(t) == old(self).value_of(t),
    {
        self.file_name = Some(file_name);
    }

    /// Set the file-extension placeholder.
    pub fn set_file_extension(&mut self, file_extension: String)
        ensures
            final(self).value_of(ArgType::FileExtension) == Some(file_extension),
            forall|t: ArgType|
                t != ArgType::FileExtension ==> final(self).value_of(t) == old(self).value_of(t),
    {
        self.file_extension = Some(file_extension);
    }

    /// Set the line-number placeholder to the decimal rendering of `line_number`.
    pub fn set_line_number(&mut self, line_number: u32)
        ensures
            final(self).value_of(ArgType::LineNumber) is Some,
            final(self).value_of(ArgType::LineNumber)->0@ == dec_digits(line_number as int),
            forall|t: ArgType|
                t != ArgType::LineNumber ==> final(self).value_of(t) == old(self).value_of(t),
    {
        self.line_number = Some(u32_to_decimal(line_number));
    }
}

/// One placeholder kind substituted into `t`: if `p` carries a value for the
/// kind, every occurrence of its token is replaced by that value in a single
/// pass; otherwise `t` is untouched.
pub open spec fn resolve_one(t: Seq<char>, kind: ArgType, p: ArgParams) -> Seq<char> {
    match p.value_of(kind) {
        Option::Some(v) => replace_all(t, token_of(kind), v@),
        Option::None => t,
    }
}

/// The argument template resolved against a placeholder set: each kind
/// substituted once, in a fixed kind order. Kinds absent from the set leave
/// their tokens literally in place.
pub open spec fn resolve(t: Seq<char>, p: ArgParams) -> Seq<char> {
    let t1 = resolve_one(t, ArgType::CurrentDirectory, p);
    let t2 = resolve_one(t1, ArgType::FilePath, p);
    let t3 = resolve_one(t2, ArgType::FileName, p);
    let t4 = resolve_one(t3, ArgType::FileExtension, p);
    resolve_one(t4, ArgType::LineNumber, p)
}

/// A template in which no placeholder token occurs at all resolves to
/// itself, whatever values the placeholder set carries.
pub proof fn lemma_resolve_no_tokens(t: Seq<char>, p: ArgParams)
    requires
        forall|k: ArgType| !occurs(t, token_of(k)),
    ensures
        resolve(t, p) == t,
{
    assert forall|k: ArgType| resolve_one(t, k, p) == t by {
        lemma_token_nonempty(k);
        match p.value_of(k) {
            Option::Some(v) => {
                lemma_replace_all_absent(t, token_of(k), v@);
            },
            Option::None => {},
        }
    }
}

/// When the file path is the only placeholder present, resolving is exactly
/// one single-pass replacement of the file-path token; the other kinds'
/// tokens are left literally in place.
pub proof fn lemma_resolve_single(t: Seq<char>, p: ArgParams)
    requires
        p.value_of(ArgType::FilePath) is Some,
        p.value_of(ArgType::CurrentDirectory) is None,
        p.value_of(ArgType::FileName) is None,
        p.value_of(ArgType::FileExtension) is None,
        p.value_of(ArgType::LineNumber) is None,
    ensures
        resolve(t, p) == replace_all(
            t,
            token_of(ArgType::FilePath),
            p.value_of(ArgType::FilePath)->0@,
        ),
{
}

/// An external editor profile: display name, executable command, and the
/// argument template the placeholders are substituted into.
pub struct ExternalEditor {
    name: String,
    command: String,
    args: String,
}

impl ExternalEditor {
    /// Specification views of the three profile fields.
    pub closed spec fn name_spec(self) -> Seq<char> {
        self.name@
    }

    pub closed spec fn command_spec(self) -> Seq<char> {
        self.command@
    }

    pub closed spec fn args_spec(self) -> Seq<char> {
        self.args@
    }

    /// Build a profile from its parts.
    pub fn new(name: String, command: String, args: String) -> (e: Self)
        ensures
            e.name_spec() == name@,
            e.command_spec() == command@,
            e.args_spec() == args@,
    {
        Self { name, command, args }
    }

    /// The bare name of a placeholder kind.
    pub fn arg_type_to_str(arg_type: &ArgType) -> (r: &'static str)
        ensures
            r@ == arg_type_name(*arg_type),
    {
        match arg_type {
            ArgType::CurrentDirectory => "CurrentDirectory",
            ArgType::FilePath => "FilePath",
            ArgType::FileName => "FileName",
            ArgType::FileExtension => "FileExtension",
            ArgType::LineNumber => "LineNumber",
        }
    }

    /// The bracketed token of a placeholder kind, as it stands in templates.
    pub fn arg_type_to_str_with_bracket(arg_type: &ArgType) -> (r: String)
        ensures
            r@ == token_of(*arg_type),
    {
        let mut r = String::new();
        r.append("{");
        r.append(Self::arg_type_to_str(arg_type));
        r.append("}");
        proof {
            assert((Seq::<char>::empty() + "{"@ + arg_type_name(*arg_type)) + "}"@ =~= token_of(
                *arg_type,
            ));
        }
        r
    }

    /// Substitute every placeholder of `params` into this profile's argument
    /// template, one single pass per kind, in a fixed kind order.
    pub fn replace_args(&self, params: ArgParams) -> (r: String)
        ensures
            r@ == resolve(self.args_spec(), params),
    {
        let mut args = self.args.clone();
        args = Self::replace_one(args, ArgType::CurrentDirectory, &params.current_directory);
        args = Self::replace_one(args, ArgType::FilePath, &params.file_path);
        args = Self::replace_one(args, ArgType::FileName, &params.file_name);
        args = Self::replace_one(args, ArgType::FileExtension, &params.file_extension);
        args = Self::replace_one(args, ArgType::LineNumber, &params.line_number);
        args
    }

    /// Substitute one placeholder kind, if it carries a value.
    fn replace_one(t: String, kind: ArgType, value: &Option<String>) -> (r: String)
        ensures
            r@ == (match value {
                Option::Some(v) => replace_all(t@, token_of(kind), v@),
                Option::None => t@,
            }),
    {
        match value {
            Some(v) => {
                let token = Self::arg_type_to_str_with_bracket(&kind);
                proof {
                    lemma_token_nonempty(kind);
                }
                replace_all_str(t.as_str(), token.as_str(), v.as_str())
            },
            None => t,
        }
    }

    /// The fully prepared launch request for this profile: its command, and
    /// the resolved argument template split into tokens on single spaces.
    pub fn prepare(&self, params: ArgParams) -> (info: ExecutorInfo)
        ensures
            info.path_spec() == self.command_spec(),
            str_views(info.args_spec()) == split_spaces(resolve(self.args_spec(), params)),
    {
        let args = self.replace_args(params);
        let tokens = split_spaces_str(args.as_str());
        ExecutorInfo::new(self.command.clone(), tokens)
    }
}

} // verus!
