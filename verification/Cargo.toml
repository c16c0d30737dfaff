[package]
name = "mumba_core"
version = "0.1.0"
edition = "2021"
publish = false

[dependencies]
clap = "*"
directories = "*"
fluent-bundle = "*"
fraction = "*"
iroga = "*"
jiff = "*"
keyvalues-parser = "*"
keyvalues-serde = "*"
log = "*"
md-5 = "*"
pelite = "*"
quick-xml = { version = "*", features = ["serialize"] }
regex-lite = "*"
same-file = "*"
serde = { version = "*", features = ["derive"] }
simplelog = "*"
sys-locale = "*"
thiserror = "*"
toml_edit = "*"
unic-langid = { version = "*", features = ["macros"] }
ureq = { version = "*", features = ["json"] }
zip = "*"
zip-extensions = "*"
