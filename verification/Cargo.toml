[package]
name = "non_empty_continuous"
version = "0.1.0"
edition = "2021"
publish = false

[dependencies]
smallvec = { version = "1", features = ["const_generics"] }
static_assert_generic = "*"
