[package]
name = "sea_orm_builder"
version = "0.1.0"
edition = "2021"
publish = false

[dependencies]
heck = "0.5"
proc-macro2 = "1"
quote = "1"
sea-orm = { version = "1", default-features = false }
syn = "2"
thiserror = "1"
