//! The generation configuration and the resolver that reconciles a preset
//! with individually-set feature toggles.

use vstd::prelude::*;

verus! {

use crate::name::Name;

/// A named bundle of toggle values that fixes every feature at once.
#[derive(Clone, Copy, Debug, PartialEq, Eq)]
pub enum Template {
    /// No optional artifacts beyond version control and the main source file.
    Minimal,
    /// Aliases, shellcheck, shellspec and a readme, with all functions
    /// defined in-line in the main plugin source.
    Simple,
    /// Every optional artifact included.
    Complete,
}

/// The options of one generation run: a validated plugin name, an optional
/// preset, the individual feature toggles, and the remaining free-form
/// inputs.
///
/// A preset, when present, overrides every toggle; [`InitCommand::normalize`]
/// is the single place that materializes the final toggle values.
#[derive(Clone, Debug)]
pub struct InitCommand {
    /// Overwrite existing files and directories instead of failing.
    pub force: bool,
    /// The preset that fixes every toggle, when one was selected.
    pub template: Option<Template>,
    /// Add a `bin` sub-directory for plugin-specific binaries.
    pub add_bin_dir: bool,
    /// Add a Bash wrapper file to call the plugin from Bash scripts.
    pub add_bash_wrapper: bool,
    /// Do not include support for tracking plugin-defined aliases.
    pub no_aliases: bool,
    /// Do not include linting support via shellcheck.
    pub no_shell_check: bool,
    /// Do not include a `functions` sub-directory and example file.
    pub no_functions_dir: bool,
    /// Do not initialize version control in the generated plugin.
    pub no_git_init: bool,
    /// Do not include a `.github` sub-directory.
    pub no_github_dir: bool,
    /// Do not include a readme file.
    pub no_readme: bool,
    /// Do not include testing support via shellspec.
    pub no_shell_spec: bool,
    /// Use the support plugin for shared helper functions.
    pub use_zplugins: bool,
    /// Short description of the plugin, when one was given.
    pub description: Option<String>,
    /// Name of the hosting-site user, for attribution.
    pub github_user: String,
    /// The validated name of the new plugin.
    pub name: Name,
}

/// The configuration after preset resolution: a preset, when present,
/// overrides every toggle according to the fixed preset table; with no preset
/// every toggle keeps its explicit value.
pub open spec fn resolved(cmd: InitCommand) -> InitCommand {
    match cmd.template {
        Some(Template::Minimal) => InitCommand {
            add_bin_dir: false,
            add_bash_wrapper: false,
            no_aliases: true,
            no_functions_dir: true,
            no_github_dir: true,
            no_git_init: false,
            no_readme: true,
            no_shell_check: true,
            no_shell_spec: true,
            ..cmd
        },
        Some(Template::Simple) => InitCommand {
            add_bin_dir: false,
            add_bash_wrapper: false,
            no_aliases: false,
            no_functions_dir: true,
            no_github_dir: true,
            no_git_init: false,
            no_readme: false,
            no_shell_check: false,
            no_shell_spec: false,
            ..cmd
        },
        Some(Template::Complete) => InitCommand {
            add_bin_dir: true,
            add_bash_wrapper: true,
            no_aliases: false,
            no_functions_dir: false,
            no_github_dir: false,
            no_git_init: false,
            no_readme: false,
            no_shell_check: false,
            no_shell_spec: false,
            ..cmd
        },
        None => cmd,
    }
}

impl InitCommand {
    /// A configuration with every toggle at its default: all `include`
    /// features on, the opt-in features (`bin`, `bash wrapper`, support
    /// plugin) off, no preset, no description, and overwriting disabled.
    pub fn new(name: Name, github_user: String) -> (r: InitCommand)
        ensures
            r.force == false,
            r.template is None,
            r.add_bin_dir == false,
            r.add_bash_wrapper == false,
            r.no_aliases == false,
            r.no_shell_check == false,
            r.no_functions_dir == false,
            r.no_git_init == false,
            r.no_github_dir == false,
            r.no_readme == false,
            r.no_shell_spec == false,
            r.use_zplugins == false,
            r.description is None,
            r.github_user == github_user,
            r.name == name,
    {
        InitCommand {
            force: false,
            template: None,
            add_bin_dir: false,
            add_bash_wrapper: false,
            no_aliases: false,
            no_shell_check: false,
            no_functions_dir: false,
            no_git_init: false,
            no_github_dir: false,
            no_readme: false,
            no_shell_spec: false,
            use_zplugins: false,
            description: None,
            github_user,
            name,
        }
    }

    pub fn force(&self) -> (r: bool)
        ensures
            r == self.force,
    {
        self.force
    }

    pub fn add_bash_wrapper(&self) -> (r: bool)
        ensures
            r == self.add_bash_wrapper,
    {
        self.add_bash_wrapper
    }

    pub fn no_functions_dir(&self) -> (r: bool)
        ensures
            r == self.no_functions_dir,
    {
        self.no_functions_dir
    }

    pub fn add_bin_dir(&self) -> (r: bool)
        ensures
            r == self.add_bin_dir,
    {
        self.add_bin_dir
    }

    pub fn no_git_init(&self) -> (r: bool)
        ensures
            r == self.no_git_init,
    {
        self.no_git_init
    }

    pub fn no_github_dir(&self) -> (r: bool)
        ensures
            r == self.no_github_dir,
    {
        self.no_github_dir
    }

    pub fn no_aliases(&self) -> (r: bool)
        ensures
            r == self.no_aliases,
    {
        self.no_aliases
    }

    pub fn no_readme(&self) -> (r: bool)
        ensures
            r == self.no_readme,
    {
        self.no_readme
    }

    pub fn no_shell_check(&self) -> (r: bool)
        ensures
            r == self.no_shell_check,
    {
        self.no_shell_check
    }

    pub fn no_shell_spec(&self) -> (r: bool)
        ensures
            r == self.no_shell_spec,
    {
        self.no_shell_spec
    }

    pub fn use_zplugins(&self) -> (r: bool)
        ensures
            r == self.use_zplugins,
    {
        self.use_zplugins
    }

    pub fn description(&self) -> (r: Option<&str>)
        ensures
            match r {
                Some(s) => self.description matches Some(d) && s@ == d@,
                None => self.description is None,
            },
    {
        match &self.description {
            Some(d) => Some(d.as_str()),
            None => None,
        }
    }

    pub fn github_user(&self) -> (r: &str)
        ensures
            r@ == self.github_user@,
    {
        self.github_user.as_str()
    }

    pub fn name(&self) -> (r: &Name)
        ensures
            *r == self.name,
    {
        &self.name
    }

    /// Materializes the final toggle values: a preset, when present,
    /// overrides every toggle according to the fixed preset table; with no
    /// preset the explicit toggle values pass through unchanged.
    pub fn normalize(&mut self)
        ensures
            *final(self) == resolved(*old(self)),
    {
        match self.template {
            Some(Template::Minimal) => {
                self.add_bin_dir = false;
                self.add_bash_wrapper = false;
                self.no_aliases = true;
                self.no_functions_dir = true;
                self.no_github_dir = true;
                self.no_git_init = false;
                self.no_readme = true;
                self.no_shell_check = true;
                self.no_shell_spec = true;
            },
            Some(Template::Simple) => {
                self.add_bin_dir = false;
                self.add_bash_wrapper = false;
                self.no_aliases = false;
                self.no_functions_dir = true;
                self.no_github_dir = true;
                self.no_git_init = false;
                self.no_readme = false;
                self.no_shell_check = false;
                self.no_shell_spec = false;
            },
            Some(Template::Complete) => {
                self.add_bin_dir = true;
                self.add_bash_wrapper = true;
                self.no_aliases = false;
                self.no_functions_dir = false;
                self.no_github_dir = false;
                self.no_git_init = false;
                self.no_readme = false;
                self.no_shell_check = false;
                self.no_shell_spec = false;
            },
            None => {},
        }
    }
}

/// The Complete preset yields the fixed Complete row of the preset table, no
/// matter what the explicit toggles held.
pub proof fn lemma_complete_preset_overrides(cmd: InitCommand)
    requires
        cmd.template == Some(Template::Complete),
    ensures
        resolved(cmd).add_bin_dir,
        resolved(cmd).add_bash_wrapper,
        !resolved(cmd).no_aliases,
        !resolved(cmd).no_functions_dir,
        !resolved(cmd).no_github_dir,
        !resolved(cmd).no_git_init,
        !resolved(cmd).no_readme,
        !resolved(cmd).no_shell_check,
        !resolved(cmd).no_shell_spec,
{
}

/// With no preset selected, resolution reproduces the caller-supplied
/// explicit toggle values exactly.
pub proof fn lemma_no_preset_passes_through(cmd: InitCommand)
    requires
        cmd.template is None,
    ensures
        resolved(cmd) == cmd,
{
}

} // verus!
