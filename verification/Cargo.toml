[package]
name = "autoview"
version = "0.1.0"
edition = "2021"
publish = false

[dependencies]
shared-mime = "*"
friendly = "*"
image = { version = "*", default-features = false, features = ["png", "jpeg", "gif"] }
clap = { version = "*", features = ["derive"] }
which = "*"
uu_ls = "*"
bat = { version = "*", default-features = false, features = ["regex-fancy"] }
anyhow = "*"
colorchoice = "*"
