//! Focus-capture and paste-injection core of a prompt-library desktop utility.
//!
//! The library tracks which external window last held keyboard focus
//! (`focus`), returns focus to it with verification and retry (`restore`),
//! plans multi-strategy paste injection (`inject`), and sequences the whole
//! clipboard-write / focus-restore / paste flow into a single outcome
//! (`paste`, `outcome`).  Around that core it holds the prompt entities and
//! the pure parts of their storage and search (`prompt`, `prompt_ops`,
//! `repository`, `search`, `versions`, `config`).
//!
//! Every operating-system call is handed in as a plain value or performed
//! behind a narrow port, so the decision logic here is verified for every
//! possible answer the system could give.

pub mod config;
pub mod focus;
pub mod outcome;
pub mod paste;
pub mod ports;
pub mod prompt;
pub mod prompt_ops;
pub mod inject;
pub mod repository;
pub mod restore;
pub mod search;
pub mod text;
pub mod versions;
