//! Launching a program inside Linux namespaces, as a verified decision core.
//!
//! A container is brought up by three processes in a row. The host process
//! forks a relay that leaves the host's mount, UTS, IPC and network namespaces
//! and asks for a new PID namespace; the relay forks the init process, which is
//! the first process of that PID namespace; init names the host, jails the
//! filesystem and replaces itself with the user's program.
//!
//! This crate decides every step of that protocol and proves what it decides.
//! It performs no system call itself: a driver hands it the outcome of the
//! last action and receives the next one.
pub mod config;
pub mod container;
pub mod invocation;
pub mod isolation;
pub mod launch;
pub mod mounts;
pub mod namespaces;
pub mod step;
