use zsh_plugin_init::config::InitCommand;
use zsh_plugin_init::context::TemplateContext;
use zsh_plugin_init::error::Error;
use zsh_plugin_init::name::Name;

fn command(name: &str) -> InitCommand {
    InitCommand::new(Name::new(name).unwrap(), "someone".to_string())
}

#[test]
fn build_stores_naming_variants() {
    let ctx = TemplateContext::build(&command("my-plugin"));
    assert_eq!(ctx.get_str("plugin_display_name").unwrap(), "my-plugin");
    assert_eq!(ctx.get_str("plugin_name").unwrap(), "my_plugin");
    assert_eq!(ctx.get_str("plugin_var").unwrap(), "MY_PLUGIN");
}

#[test]
fn build_stores_attribution_and_escape_helpers() {
    let ctx = TemplateContext::build(&command("p"));
    assert_eq!(ctx.get_str("github_user").unwrap(), "someone");
    assert_eq!(ctx.get_str("_shv_start").unwrap(), "${");
    assert_eq!(ctx.get_str("_shv_end").unwrap(), "}");
}

#[test]
fn build_defaults_the_description() {
    let ctx = TemplateContext::build(&command("p"));
    assert_eq!(
        ctx.get_str("short_description").unwrap(),
        "Zsh plugin to do something..."
    );
}

#[test]
fn build_keeps_a_given_description() {
    let mut cmd = command("p");
    cmd.description = Some("does things".to_string());
    let ctx = TemplateContext::build(&cmd);
    assert_eq!(ctx.get_str("short_description").unwrap(), "does things");
}

#[test]
fn build_stores_every_feature_switch() {
    let mut cmd = command("p");
    cmd.add_bin_dir = true;
    cmd.no_aliases = true;
    cmd.use_zplugins = true;
    let ctx = TemplateContext::build(&cmd);
    assert!(!ctx.get_bool("include_aliases").unwrap());
    assert!(!ctx.get_bool("include_bash_wrapper").unwrap());
    assert!(ctx.get_bool("include_bin_dir").unwrap());
    assert!(ctx.get_bool("include_functions_dir").unwrap());
    assert!(ctx.get_bool("include_github_dir").unwrap());
    assert!(ctx.get_bool("include_git_init").unwrap());
    assert!(ctx.get_bool("include_readme").unwrap());
    assert!(ctx.get_bool("include_shell_check").unwrap());
    assert!(ctx.get_bool("include_shell_spec").unwrap());
    assert!(ctx.get_bool("use_zplugins").unwrap());
}

#[test]
fn build_twice_yields_identical_contexts() {
    let mut cmd = command("my-plugin");
    cmd.description = Some("same".to_string());
    cmd.no_readme = true;
    let first = TemplateContext::build(&cmd);
    let second = TemplateContext::build(&cmd);
    assert_eq!(first, second);
}

#[test]
fn get_str_rejects_missing_keys() {
    let ctx = TemplateContext::build(&command("p"));
    match ctx.get_str("no_such_key") {
        Err(Error::Unknown { message }) => {
            assert_eq!(message, "Missing or invalid context key: no_such_key");
        }
        other => panic!("expected the missing-key error, got {other:?}"),
    }
}

#[test]
fn get_str_rejects_boolean_values() {
    let ctx = TemplateContext::build(&command("p"));
    assert!(matches!(
        ctx.get_str("include_readme"),
        Err(Error::Unknown { .. })
    ));
}

#[test]
fn get_bool_rejects_missing_and_string_keys() {
    let ctx = TemplateContext::build(&command("p"));
    assert!(matches!(
        ctx.get_bool("no_such_key"),
        Err(Error::Unknown { .. })
    ));
    assert!(matches!(
        ctx.get_bool("plugin_name"),
        Err(Error::Unknown { .. })
    ));
}
