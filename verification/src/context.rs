//! The template-variable context: a flat, ordered mapping from variable name
//! to string or boolean value, projected 1:1 from the resolved configuration.

use vstd::prelude::*;

verus! {

use vstd::string::StringExecFns;
use crate::config::InitCommand;
use crate::error::Error;
use crate::name::{shouted, underscored};

/// One value of the template context: a string variable or a boolean feature
/// switch.
#[derive(Clone, Debug, PartialEq, Eq)]
pub enum TemplateValue {
    Str(String),
    Bool(bool),
}

/// The mathematical shape of one context value.
pub enum ValueView {
    Str(Seq<char>),
    Bool(bool),
}

impl View for TemplateValue {
    type V = ValueView;

    open spec fn view(&self) -> ValueView {
        match self {
            TemplateValue::Str(s) => ValueView::Str(s@),
            TemplateValue::Bool(b) => ValueView::Bool(*b),
        }
    }
}

/// The ordered mapping fed to template rendering; write-once, derived from a
/// configuration by [`TemplateContext::build`].
#[derive(Clone, Debug, PartialEq, Eq)]
pub struct TemplateContext {
    pub(crate) entries: Vec<(String, TemplateValue)>,
}

impl View for TemplateContext {
    type V = Seq<(Seq<char>, ValueView)>;

    closed spec fn view(&self) -> Seq<(Seq<char>, ValueView)> {
        self.entries@.map_values(|p: (String, TemplateValue)| (p.0@, p.1@))
    }
}

/// The fixed key table: every entry of the context, in order, as a function
/// of the configuration alone.
pub open spec fn context_of(cmd: InitCommand) -> Seq<(Seq<char>, ValueView)> {
    seq![
        ("include_aliases"@, ValueView::Bool(!cmd.no_aliases)),
        ("include_bash_wrapper"@, ValueView::Bool(cmd.add_bash_wrapper)),
        ("include_bin_dir"@, ValueView::Bool(cmd.add_bin_dir)),
        ("include_functions_dir"@, ValueView::Bool(!cmd.no_functions_dir)),
        ("include_github_dir"@, ValueView::Bool(!cmd.no_github_dir)),
        ("include_git_init"@, ValueView::Bool(!cmd.no_git_init)),
        ("include_readme"@, ValueView::Bool(!cmd.no_readme)),
        ("include_shell_check"@, ValueView::Bool(!cmd.no_shell_check)),
        ("include_shell_spec"@, ValueView::Bool(!cmd.no_shell_spec)),
        ("use_zplugins"@, ValueView::Bool(cmd.use_zplugins)),
        (
            "short_description"@,
            ValueView::Str(
                match cmd.description {
                    Some(d) => d@,
                    None => "Zsh plugin to do something..."@,
                },
            ),
        ),
        ("plugin_display_name"@, ValueView::Str(cmd.name@)),
        ("plugin_name"@, ValueView::Str(underscored(cmd.name@))),
        ("plugin_var"@, ValueView::Str(shouted(underscored(cmd.name@)))),
        ("github_user"@, ValueView::Str(cmd.github_user@)),
        ("_shv_start"@, ValueView::Str("${"@)),
        ("_shv_end"@, ValueView::Str("}"@)),
    ]
}

/// The value stored under a key, walking the entries front to back.
pub open spec fn lookup(entries: Seq<(Seq<char>, ValueView)>, key: Seq<char>) -> Option<ValueView>
    decreases entries.len(),
{
    if entries.len() == 0 {
        None
    } else if entries[0].0 == key {
        Some(entries[0].1)
    } else {
        lookup(entries.drop_first(), key)
    }
}

fn missing_key_error(key: &str) -> (e: Error)
    ensures
        e matches Error::Unknown { message } && message@ == "Missing or invalid context key: "@
            + key@,
{
    Error::Unknown { message: String::from_str("Missing or invalid context key: ").concat(key) }
}

impl TemplateContext {
    /// Projects the resolved configuration into the context: the ten feature
    /// switches, the description (or its fixed fallback), the three naming
    /// variants, the attribution name, and the two escape helpers, under the
    /// fixed key table and in its fixed order.
    pub fn build(cmd: &InitCommand) -> (r: TemplateContext)
        ensures
            r@ == context_of(*cmd),
    {
        let mut entries: Vec<(String, TemplateValue)> = Vec::new();
        entries.push(
            (String::from_str("include_aliases"), TemplateValue::Bool(!cmd.no_aliases)),
        );
        entries.push(
            (String::from_str("include_bash_wrapper"), TemplateValue::Bool(cmd.add_bash_wrapper)),
        );
        entries.push(
            (String::from_str("include_bin_dir"), TemplateValue::Bool(cmd.add_bin_dir)),
        );
        entries.push(
            (
                String::from_str("include_functions_dir"),
                TemplateValue::Bool(!cmd.no_functions_dir),
            ),
        );
        entries.push(
            (String::from_str("include_github_dir"), TemplateValue::Bool(!cmd.no_github_dir)),
        );
        entries.push(
            (String::from_str("include_git_init"), TemplateValue::Bool(!cmd.no_git_init)),
        );
        entries.push((String::from_str("include_readme"), TemplateValue::Bool(!cmd.no_readme)));
        entries.push(
            (String::from_str("include_shell_check"), TemplateValue::Bool(!cmd.no_shell_check)),
        );
        entries.push(
            (String::from_str("include_shell_spec"), TemplateValue::Bool(!cmd.no_shell_spec)),
        );
        entries.push((String::from_str("use_zplugins"), TemplateValue::Bool(cmd.use_zplugins)));
        let description: String = match &cmd.description {
            Some(d) => d.clone(),
            None => String::from_str("Zsh plugin to do something..."),
        };
        entries.push((String::from_str("short_description"), TemplateValue::Str(description)));
        entries.push(
            (
                String::from_str("plugin_display_name"),
                TemplateValue::Str(cmd.name.as_str().to_owned()),
            ),
        );
        entries.push((String::from_str("plugin_name"), TemplateValue::Str(cmd.name.normalized())));
        entries.push((String::from_str("plugin_var"), TemplateValue::Str(cmd.name.var_name())));
        entries.push(
            (String::from_str("github_user"), TemplateValue::Str(cmd.github_user.clone())),
        );
        entries.push((String::from_str("_shv_start"), TemplateValue::Str(String::from_str("${"))));
        entries.push((String::from_str("_shv_end"), TemplateValue::Str(String::from_str("}"))));
        let r = TemplateContext { entries };
        proof {
            assert(r@ =~= context_of(*cmd));
        }
        r
    }

    /// The string value stored under `key`; fails with the classified
    /// missing-key error when the key is absent or holds a boolean.
    pub fn get_str(&self, key: &str) -> (r: Result<String, Error>)
        ensures
            lookup(self@, key@) matches Some(ValueView::Str(s)) <==> r is Ok,
            r matches Ok(v) ==> lookup(self@, key@) == Some(ValueView::Str(v@)),
            r matches Err(e) ==> e matches Error::Unknown { message } && message@
                == "Missing or invalid context key: "@ + key@,
    {
        let k: String = key.to_owned();
        let mut i: usize = 0;
        proof {
            assert(self@.skip(0) =~= self@);
        }
        while i < self.entries.len()
            invariant
                i <= self.entries.len(),
                k@ == key@,
                lookup(self@, key@) == lookup(self@.skip(i as int), key@),
            decreases self.entries.len() - i,
        {
            proof {
                assert(self@.skip(i as int)[0] == self@[i as int]);
                assert(self@.skip(i as int).drop_first() =~= self@.skip(i + 1));
            }
            if self.entries[i].0.eq(&k) {
                match &self.entries[i].1 {
                    TemplateValue::Str(s) => {
                        return Ok(s.clone());
                    },
                    TemplateValue::Bool(_) => {
                        return Err(missing_key_error(key));
                    },
                }
            }
            i += 1;
        }
        proof {
            assert(self@.skip(i as int) =~= Seq::<(Seq<char>, ValueView)>::empty());
        }
        Err(missing_key_error(key))
    }

    /// The boolean value stored under `key`; fails with the classified
    /// missing-key error when the key is absent or holds a string.
    pub fn get_bool(&self, key: &str) -> (r: Result<bool, Error>)
        ensures
            lookup(self@, key@) matches Some(ValueView::Bool(b)) <==> r is Ok,
            r matches Ok(v) ==> lookup(self@, key@) == Some(ValueView::Bool(v)),
            r matches Err(e) ==> e matches Error::Unknown { message } && message@
                == "Missing or invalid context key: "@ + key@,
    {
        let k: String = key.to_owned();
        let mut i: usize = 0;
        proof {
            assert(self@.skip(0) =~= self@);
        }
        while i < self.entries.len()
            invariant
                i <= self.entries.len(),
                k@ == key@,
                lookup(self@, key@) == lookup(self@.skip(i as int), key@),
            decreases self.entries.len() - i,
        {
            proof {
                assert(self@.skip(i as int)[0] == self@[i as int]);
                assert(self@.skip(i as int).drop_first() =~= self@.skip(i + 1));
            }
            if self.entries[i].0.eq(&k) {
                match &self.entries[i].1 {
                    TemplateValue::Bool(b) => {
                        return Ok(*b);
                    },
                    TemplateValue::Str(_) => {
                        return Err(missing_key_error(key));
                    },
                }
            }
            i += 1;
        }
        proof {
            assert(self@.skip(i as int) =~= Seq::<(Seq<char>, ValueView)>::empty());
        }
        Err(missing_key_error(key))
    }
}

/// Building the context is a pure projection: two contexts built from the
/// same configuration are identical.
pub proof fn lemma_build_deterministic(
    cmd: InitCommand,
    c1: Seq<(Seq<char>, ValueView)>,
    c2: Seq<(Seq<char>, ValueView)>,
)
    requires
        c1 == context_of(cmd),
        c2 == context_of(cmd),
    ensures
        c1 == c2,
{
}

/// The naming variants stored in the context stay consistent: the stored
/// plugin name is the display name with hyphens replaced by underscores, and
/// the stored variable name is that normalized name upper-cased.
pub proof fn lemma_context_derived_names(cmd: InitCommand)
    ensures
        context_of(cmd)[11].1 == ValueView::Str(cmd.name@),
        context_of(cmd)[12].1 == ValueView::Str(underscored(cmd.name@)),
        context_of(cmd)[13].1 == ValueView::Str(shouted(underscored(cmd.name@))),
{
}

} // verus!
