[package]
name = "fastdl_mirror"
version = "0.1.0"
edition = "2021"
publish = false

[dependencies]
bzip2 = "*"
select = "*"
url = "*"
reqwest = { version = "*", default-features = false, features = ["blocking"] }
rayon = "*"
walkdir = "*"
