[package]
name = "zsh_plugin_init"
version = "0.1.0"
edition = "2021"
publish = false

[dependencies]
tera = "*"
git2 = "*"
clap = { version = "*", features = ["derive", "env"] }
clap-verbosity-flag = "*"
tracing = "*"
tracing-subscriber = { version = "*", features = ["env-filter"] }
