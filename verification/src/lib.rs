//! Static assertion that no panic paths remain in an optimized freestanding
//! program.
//!
//! The mechanism has two cooperating pieces. A *divergent hook* is installed
//! as the program-wide panic handler; its body does nothing but call a
//! *sentinel reference*: a foreign function that is declared but never
//! defined, whose exported linkage name is not an identifier but a
//! pre-formatted diagnostic message. If the optimizer proves every
//! panic-triggering path unreachable, the call to the hook (and with it the
//! reference to the sentinel) is eliminated and the program links. If even
//! one such path survives optimization, the linker must resolve the sentinel,
//! finds no definition, and aborts the build printing the embedded message as
//! part of its own undefined-symbol error.
//!
//! This crate verifies the logic of that mechanism: the exact construction of
//! the diagnostic link names (with terminal styling on Unix-family targets
//! and plain text elsewhere) lives in [`diagnostic`], and the link-stage
//! state machine that decides between a runnable binary and a link failure
//! lives in [`linkage`]. The hook registration and the foreign declaration
//! themselves are toolchain-level artifacts that sit outside the verified
//! library, in the embedding program.

pub mod diagnostic;
pub mod linkage;
