[package]
name = "cmark_render"
version = "0.1.0"
edition = "2021"
publish = false

[dependencies]
pulldown-cmark = { version = "0.13", default-features = false, features = ["html"] }
pyo3 = { version = "0.23", features = ["auto-initialize"] }
syntect = { version = "5", default-features = false, features = ["default-fancy"] }
katex = "0.4"
itertools = "0.14"
rayon = "1"
once_cell = "1"
thiserror = "2"
