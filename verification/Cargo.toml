[package]
name = "count_md"
version = "0.1.0"
edition = "2021"
publish = false

[dependencies]
pulldown-cmark = "0.10"
unicode-segmentation = "1"
xmlparser = "0.13"
clap = { version = "4", features = ["derive"] }
rayon = "1"
thiserror = "1"
