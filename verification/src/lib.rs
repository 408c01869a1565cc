//! Transport and attestation primitives for a process inside an isolated
//! micro-VM: a virtual-machine socket endpoint and a one-shot exchange with
//! the security-module device.
//!
//! The library decides; it never touches the operating system itself. Every
//! operation is a small machine that names the next system call to make and
//! is resumed with what that call returned.

pub mod addr;
pub mod error;
pub mod ioctl;
pub mod layout;
pub mod listener;
pub mod message;
pub mod nsm;
pub mod stream;
pub mod sys;
