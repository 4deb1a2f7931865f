use zsh_plugin_init::config::InitCommand;
use zsh_plugin_init::context::TemplateContext;
use zsh_plugin_init::error::Error;
use zsh_plugin_init::name::Name;
use zsh_plugin_init::render::render;

fn context(name: &str) -> TemplateContext {
    let cmd = InitCommand::new(Name::new(name).unwrap(), "someone".to_string());
    TemplateContext::build(&cmd)
}

#[test]
fn render_substitutes_variables() {
    let ctx = context("my-plugin");
    let out = render("plugin {{ plugin_name }} by {{ github_user }}", &ctx).unwrap();
    assert_eq!(out, "plugin my_plugin by someone");
}

#[test]
fn render_uses_the_variable_name_variant() {
    let ctx = context("my-plugin");
    let out = render("typeset -gA {{ plugin_var }}_STATE", &ctx).unwrap();
    assert_eq!(out, "typeset -gA MY_PLUGIN_STATE");
}

#[test]
fn render_resolves_feature_conditionals() {
    let ctx = context("p");
    let body = "{% if include_readme %}documented{% else %}bare{% endif %}";
    assert_eq!(render(body, &ctx).unwrap(), "documented");
}

#[test]
fn render_escape_helpers_produce_shell_syntax() {
    let ctx = context("p");
    let out = render("{{ _shv_start }}HOME{{ _shv_end }}", &ctx).unwrap();
    assert_eq!(out, "${HOME}");
}

#[test]
fn render_classifies_engine_failures() {
    let ctx = context("p");
    let broken = "{% if include_readme %}unclosed";
    match render(broken, &ctx) {
        Err(Error::Template { message }) => assert!(!message.is_empty()),
        other => panic!("expected the rendering error, got {other:?}"),
    }
}

#[test]
fn render_fails_on_undefined_variables() {
    let ctx = context("p");
    assert!(matches!(
        render("{{ not_a_context_key }}", &ctx),
        Err(Error::Template { .. })
    ));
}
