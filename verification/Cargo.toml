[package]
name = "lifegame"
version = "0.1.0"
edition = "2021"
publish = false

[dependencies]
anyhow = "*"
clap = "*"
crossterm = "*"
ctrlc = "*"
rand = "*"
rand_chacha = "*"
rand_seeder = "*"
