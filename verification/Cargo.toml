[package]
name = "text_search"
version = "0.1.0"
edition = "2021"
publish = false

[dependencies]
tantivy = "0.22"
thiserror = "1"
syn = "2"
quote = "1"
proc-macro2 = "1"
