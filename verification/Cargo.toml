[package]
name = "crud_macros"
version = "0.1.0"
edition = "2021"
publish = false

[dependencies]
syn = { version = "1", features = ["full", "extra-traits"] }
quote = "1"
proc-macro2 = "1"
convert_case = "*"
pluralizer = "*"
futures = "0.3"
async-graphql = { version = "*", default-features = false }
sea-orm = { version = "*", default-features = false }
