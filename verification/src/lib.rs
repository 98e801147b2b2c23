//! A desktop application shell bootstrapper.
//!
//! The shell assembles an ordered set of capability plugins (persistent
//! key-value storage, an HTTP client, native file dialogs, system
//! notifications, opening URLs in the OS default handler) into a single
//! application configuration, then hands that configuration to a host
//! framework's blocking run loop. The host framework and the plugins
//! themselves are opaque collaborators; what this library states and proves
//! is the composition contract: which capabilities are enabled, in what
//! order, and that any startup failure is fatal rather than recovered from.

pub mod config;
pub mod startup;
