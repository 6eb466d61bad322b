[package]
name = "deltarune_autosplit"
version = "0.1.0"
edition = "2021"
publish = false

[dependencies]
asr = "*"
bytemuck = "*"
md5 = "*"
