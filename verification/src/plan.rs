//! The generation plan: the fixed, dependency-ordered sequence of filesystem
//! actions, each gated by a predicate over the feature toggles, together with
//! the conflict check applied before every step.
//!
//! The plan is a pure description; a thin driver outside the crate queries
//! the filesystem, runs [`Step::preflight`] on what it found, and performs
//! the action only when the check allows it.

use vstd::prelude::*;

verus! {

use vstd::string::StringExecFns;
use crate::command::OnceCommand;
use crate::config::{resolved, InitCommand};
use crate::context::{context_of, TemplateContext};
use crate::error::Error;
use crate::name::underscored;

/// Names one of the nine fixed template bodies, supplied by the caller.
#[derive(Clone, Copy, Debug, PartialEq, Eq, Structural)]
pub enum TemplateId {
    /// The ignore file rendered beside version-control initialization.
    GitIgnore,
    /// The continuous-integration workflow file.
    GithubWorkflowShell,
    /// The placeholder keeping the otherwise empty `bin` directory.
    BinDirKeep,
    /// The example autoloaded function.
    FunctionsExample,
    /// The build-automation file driving the lint and test checks.
    Makefile,
    /// The wrapper script calling the plugin from Bash.
    PluginWrapper,
    /// The documentation skeleton.
    Readme,
    /// The main plugin source.
    PluginSource,
    /// The main plugin source variant that uses the support plugin.
    PluginSourceZplugins,
}

/// One filesystem action of the plan: a stateless description carrying only
/// the path (and template name) it refers to.
#[derive(Clone, Debug, PartialEq, Eq)]
pub enum Step {
    /// Create the directory (and any missing parents).
    EnsureDirectory { path: String },
    /// Initialize a version-control repository at the path.
    InitVersionControl { path: String },
    /// Render the named template and write the result to the path.
    RenderTemplate { template: TemplateId, path: String },
}

/// The mathematical shape of one step.
pub enum StepView {
    EnsureDirectory { path: Seq<char> },
    InitVersionControl { path: Seq<char> },
    RenderTemplate { template: TemplateId, path: Seq<char> },
}

impl View for Step {
    type V = StepView;

    open spec fn view(&self) -> StepView {
        match self {
            Step::EnsureDirectory { path } => StepView::EnsureDirectory { path: path@ },
            Step::InitVersionControl { path } => StepView::InitVersionControl { path: path@ },
            Step::RenderTemplate { template, path } => StepView::RenderTemplate {
                template: *template,
                path: path@,
            },
        }
    }
}

/// The target root directory: a fixed prefix and suffix wrapped around the
/// normalized plugin name.
pub open spec fn root_dir_of(name: Seq<char>) -> Seq<char> {
    "zsh-"@ + underscored(name) + "-plugin"@
}

/// The full plan for a configuration: the fixed dependency order, each
/// optional segment present exactly when its gating toggle asks for it.
pub open spec fn plan_of(cmd: InitCommand) -> Seq<StepView> {
    let pname = underscored(cmd.name@);
    let root = root_dir_of(cmd.name@);
    seq![StepView::EnsureDirectory { path: root }] + (if !cmd.no_git_init {
        seq![
            StepView::InitVersionControl { path: root },
            StepView::RenderTemplate {
                template: TemplateId::GitIgnore,
                path: root + "/.gitignore"@,
            },
        ]
    } else {
        Seq::<StepView>::empty()
    }) + (if !cmd.no_github_dir {
        seq![
            StepView::EnsureDirectory { path: root + "/.github"@ },
            StepView::EnsureDirectory { path: root + "/.github/workflows"@ },
            StepView::RenderTemplate {
                template: TemplateId::GithubWorkflowShell,
                path: root + "/.github/workflows/shell.yml"@,
            },
        ]
    } else {
        Seq::<StepView>::empty()
    }) + (if cmd.add_bin_dir {
        seq![
            StepView::EnsureDirectory { path: root + "/bin"@ },
            StepView::RenderTemplate {
                template: TemplateId::BinDirKeep,
                path: root + "/bin/.gitkeep"@,
            },
        ]
    } else {
        Seq::<StepView>::empty()
    }) + (if !cmd.no_functions_dir {
        seq![
            StepView::EnsureDirectory { path: root + "/functions"@ },
            StepView::RenderTemplate {
                template: TemplateId::FunctionsExample,
                path: root + "/functions/"@ + pname + "_example"@,
            },
        ]
    } else {
        Seq::<StepView>::empty()
    }) + (if !cmd.no_shell_check || !cmd.no_shell_spec {
        seq![
            StepView::RenderTemplate { template: TemplateId::Makefile, path: root + "/Makefile"@ },
        ]
    } else {
        Seq::<StepView>::empty()
    }) + (if cmd.add_bash_wrapper {
        seq![
            StepView::RenderTemplate {
                template: TemplateId::PluginWrapper,
                path: root + "/"@ + pname + ".bash"@,
            },
        ]
    } else {
        Seq::<StepView>::empty()
    }) + (if !cmd.no_readme {
        seq![StepView::RenderTemplate { template: TemplateId::Readme, path: root + "/README.md"@ }]
    } else {
        Seq::<StepView>::empty()
    }) + seq![
        StepView::RenderTemplate {
            template: if cmd.use_zplugins {
                TemplateId::PluginSourceZplugins
            } else {
                TemplateId::PluginSource
            },
            path: root + "/"@ + pname + ".plugin.zsh"@,
        },
    ]
}

/// Builds the fixed, dependency-ordered plan for the configuration.
///
/// The returned steps are exactly [`plan_of`] the configuration: root
/// directory first, then the version-control, workflow, binary, functions,
/// build-automation, wrapper and documentation segments when their toggles
/// ask for them, and the main plugin source last.
pub fn build_plan(cmd: &InitCommand) -> (plan: Vec<Step>)
    ensures
        plan@.map_values(|s: Step| s@) == plan_of(*cmd),
{
    let pname = cmd.name.normalized();
    let root = String::from_str("zsh-").concat(pname.as_str()).concat("-plugin");
    let mut plan: Vec<Step> = Vec::new();
    let ghost expected = seq![StepView::EnsureDirectory { path: root@ }];
    plan.push(Step::EnsureDirectory { path: root.clone() });
    proof {
        assert(plan@.map_values(|s: Step| s@) =~= expected);
    }
    if !cmd.no_git_init {
        plan.push(Step::InitVersionControl { path: root.clone() });
        plan.push(
            Step::RenderTemplate {
                template: TemplateId::GitIgnore,
                path: root.clone().concat("/.gitignore"),
            },
        );
    }
    proof {
        expected = expected + (if !cmd.no_git_init {
            seq![
                StepView::InitVersionControl { path: root@ },
                StepView::RenderTemplate {
                    template: TemplateId::GitIgnore,
                    path: root@ + "/.gitignore"@,
                },
            ]
        } else {
            Seq::<StepView>::empty()
        });
        assert(plan@.map_values(|s: Step| s@) =~= expected);
    }
    if !cmd.no_github_dir {
        plan.push(Step::EnsureDirectory { path: root.clone().concat("/.github") });
        plan.push(Step::EnsureDirectory { path: root.clone().concat("/.github/workflows") });
        plan.push(
            Step::RenderTemplate {
                template: TemplateId::GithubWorkflowShell,
                path: root.clone().concat("/.github/workflows/shell.yml"),
            },
        );
    }
    proof {
        expected = expected + (if !cmd.no_github_dir {
            seq![
                StepView::EnsureDirectory { path: root@ + "/.github"@ },
                StepView::EnsureDirectory { path: root@ + "/.github/workflows"@ },
                StepView::RenderTemplate {
                    template: TemplateId::GithubWorkflowShell,
                    path: root@ + "/.github/workflows/shell.yml"@,
                },
            ]
        } else {
            Seq::<StepView>::empty()
        });
        assert(plan@.map_values(|s: Step| s@) =~= expected);
    }
    if cmd.add_bin_dir {
        plan.push(Step::EnsureDirectory { path: root.clone().concat("/bin") });
        plan.push(
            Step::RenderTemplate {
                template: TemplateId::BinDirKeep,
                path: root.clone().concat("/bin/.gitkeep"),
            },
        );
    }
    proof {
        expected = expected + (if cmd.add_bin_dir {
            seq![
                StepView::EnsureDirectory { path: root@ + "/bin"@ },
                StepView::RenderTemplate {
                    template: TemplateId::BinDirKeep,
                    path: root@ + "/bin/.gitkeep"@,
                },
            ]
        } else {
            Seq::<StepView>::empty()
        });
        assert(plan@.map_values(|s: Step| s@) =~= expected);
    }
    if !cmd.no_functions_dir {
        plan.push(Step::EnsureDirectory { path: root.clone().concat("/functions") });
        plan.push(
            Step::RenderTemplate {
                template: TemplateId::FunctionsExample,
                path: root.clone().concat("/functions/").concat(pname.as_str()).concat("_example"),
            },
        );
    }
    proof {
        expected = expected + (if !cmd.no_functions_dir {
            seq![
                StepView::EnsureDirectory { path: root@ + "/functions"@ },
                StepView::RenderTemplate {
                    template: TemplateId::FunctionsExample,
                    path: root@ + "/functions/"@ + pname@ + "_example"@,
                },
            ]
        } else {
            Seq::<StepView>::empty()
        });
        assert(plan@.map_values(|s: Step| s@) =~= expected);
    }
    if !cmd.no_shell_check || !cmd.no_shell_spec {
        plan.push(
            Step::RenderTemplate {
                template: TemplateId::Makefile,
                path: root.clone().concat("/Makefile"),
            },
        );
    }
    proof {
        expected = expected + (if !cmd.no_shell_check || !cmd.no_shell_spec {
            seq![
                StepView::RenderTemplate {
                    template: TemplateId::Makefile,
                    path: root@ + "/Makefile"@,
                },
            ]
        } else {
            Seq::<StepView>::empty()
        });
        assert(plan@.map_values(|s: Step| s@) =~= expected);
    }
    if cmd.add_bash_wrapper {
        plan.push(
            Step::RenderTemplate {
                template: TemplateId::PluginWrapper,
                path: root.clone().concat("/").concat(pname.as_str()).concat(".bash"),
            },
        );
    }
    proof {
        expected = expected + (if cmd.add_bash_wrapper {
            seq![
                StepView::RenderTemplate {
                    template: TemplateId::PluginWrapper,
                    path: root@ + "/"@ + pname@ + ".bash"@,
                },
            ]
        } else {
            Seq::<StepView>::empty()
        });
        assert(plan@.map_values(|s: Step| s@) =~= expected);
    }
    if !cmd.no_readme {
        plan.push(
            Step::RenderTemplate {
                template: TemplateId::Readme,
                path: root.clone().concat("/README.md"),
            },
        );
    }
    proof {
        expected = expected + (if !cmd.no_readme {
            seq![
                StepView::RenderTemplate { template: TemplateId::Readme, path: root@ + "/README.md"@ },
            ]
        } else {
            Seq::<StepView>::empty()
        });
        assert(plan@.map_values(|s: Step| s@) =~= expected);
    }
    let source = if cmd.use_zplugins {
        TemplateId::PluginSourceZplugins
    } else {
        TemplateId::PluginSource
    };
    plan.push(
        Step::RenderTemplate {
            template: source,
            path: root.clone().concat("/").concat(pname.as_str()).concat(".plugin.zsh"),
        },
    );
    proof {
        expected = expected + seq![
            StepView::RenderTemplate {
                template: if cmd.use_zplugins {
                    TemplateId::PluginSourceZplugins
                } else {
                    TemplateId::PluginSource
                },
                path: root@ + "/"@ + pname@ + ".plugin.zsh"@,
            },
        ];
        assert(plan@.map_values(|s: Step| s@) =~= expected);
        assert(expected == plan_of(*cmd));
    }
    plan
}

/// The path whose prior existence decides the conflict check: the step's own
/// target, except for version-control initialization, which is blocked by an
/// existing repository directory inside its target.
pub open spec fn check_path_of(s: StepView) -> Seq<char> {
    match s {
        StepView::EnsureDirectory { path } => path,
        StepView::InitVersionControl { path } => path + "/.git"@,
        StepView::RenderTemplate { path, .. } => path,
    }
}

/// The conflict policy: a step may proceed when its check path is absent, or
/// when overwriting is enabled.
pub open spec fn may_proceed(present: bool, force: bool) -> bool {
    !present || force
}

impl Step {
    /// The path whose prior existence the driver must report to
    /// [`Step::preflight`].
    pub fn check_path(&self) -> (r: String)
        ensures
            r@ == check_path_of(self@),
    {
        match self {
            Step::EnsureDirectory { path } => path.clone(),
            Step::InitVersionControl { path } => path.clone().concat("/.git"),
            Step::RenderTemplate { path, .. } => path.clone(),
        }
    }

    /// The conflict check, applied before the step's action: given whether
    /// the check path already exists, allows the step exactly when the path
    /// is absent or overwriting is enabled, and otherwise fails with the
    /// target-exists error carrying that path.
    pub fn preflight(&self, present: bool, force: bool) -> (r: Result<(), Error>)
        ensures
            may_proceed(present, force) ==> r == Ok::<(), Error>(()),
            !may_proceed(present, force) ==> (r matches Err(e) && e matches Error::TargetExists {
                path,
            } && path@ == check_path_of(self@)),
    {
        if !present || force {
            Ok(())
        } else {
            Err(Error::TargetExists { path: self.check_path() })
        }
    }
}

impl InitCommand {
    /// Resolves the configuration and lays out one generation run: the
    /// template context and the ordered step plan of the resolved
    /// configuration.
    pub fn prepare(self) -> (r: (TemplateContext, Vec<Step>))
        ensures
            r.0@ == context_of(resolved(self)),
            r.1@.map_values(|s: Step| s@) == plan_of(resolved(self)),
    {
        let mut cmd = self;
        cmd.normalize();
        let ctx = TemplateContext::build(&cmd);
        let plan = build_plan(&cmd);
        (ctx, plan)
    }
}

impl OnceCommand for InitCommand {
    type Output = (TemplateContext, Vec<Step>);

    type Error = Error;

    fn execute(self) -> Result<Self::Output, Self::Error> {
        Ok(self.prepare())
    }
}

} // verus!
