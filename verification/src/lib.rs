//! Sans-I/O core of a Linux I2C / SMBus userspace library.
//!
//! The crate builds the arguments of the i2c-dev `ioctl` calls and reads their
//! answers; it never touches a file descriptor itself. A thin shell performs
//! the system calls and hands the kernel's answers back.
//!
//! Every function in here has a contract, and all of them are proved, except
//! for the few calls into `byteorder` in [`bytes`], whose contracts say what
//! is taken on trust.
#![allow(non_camel_case_types)]

pub mod bytes;
pub mod device;
pub mod ffi;
pub mod linux;
pub mod mock;
pub mod sensors;
