[package]
name = "site_management"
version = "0.1.0"
edition = "2021"
publish = false

[dependencies]
argon2rs = "0.2"
rand = "0.4"
diesel = { version = "0.16", features = ["postgres"] }
diesel_codegen = { version = "0.16", features = ["postgres"] }
dotenv = "0.10"
r2d2 = "0.7"
r2d2-diesel = "0.16"
rocket = "0.4"
rocket_codegen = "0.4"
rocket_contrib = { version = "0.4", default-features = false, features = ["handlebars_templates"] }
serde = "1"
serde_derive = "1"
serde_json = "1"
