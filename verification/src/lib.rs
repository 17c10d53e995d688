//! The native-side command bridge of a desktop application: it routes named
//! requests (open a URL, reveal a file, query host facts, minimize, restart)
//! to per-OS actions and uniform results, and offers the filesystem-path and
//! formatting helpers that the bridge uses. Every operation's behaviour is
//! stated in its contract and verified; the host shell performs the actual
//! process spawns and file I/O and hands plain values across.

pub mod clock;
pub mod commands;
pub mod invoker;
pub mod paths;
pub mod sizefmt;
pub mod url;
