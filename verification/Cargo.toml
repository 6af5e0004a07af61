[package]
name = "ext4_compat"
version = "0.1.0"
edition = "2021"
publish = false

[dependencies]
axerrno = "=0.2.2"
axfs-ng-vfs = "=0.1.1"
axdriver = "0.3.0-preview.3"
axhal = "0.3.0-preview.3"
