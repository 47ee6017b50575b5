//! A namespace-sandbox launcher library.
//!
//! The launcher creates a child process inside new, unprivileged namespaces
//! and relies on a privileged mapping service, reached over a local socket,
//! to write the child's UID/GID maps from outside the new user namespace.
//! This crate holds the verified logic of that arrangement: the request and
//! reply types of the mapping protocol, their wire encoding, the service's
//! handling of mapping requests, the sandbox child's bootstrap state machine,
//! and the launcher's orchestration state machine.

pub mod bootstrap;
pub mod codec;
pub mod flags;
pub mod init_shell;
pub mod launcher;
pub mod protocol;
pub mod render;
pub mod service;
