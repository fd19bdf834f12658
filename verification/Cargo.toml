[package]
name = "i2cdev"
version = "0.1.0"
edition = "2021"
publish = false

[dependencies]
bitflags = "1"
byteorder = "1"
libc = "0.2"
nix = { version = "0.26", default-features = false, features = ["ioctl"] }
