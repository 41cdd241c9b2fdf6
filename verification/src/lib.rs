//! The decisions of a launcher that keeps one service manager in namespaces
//! of its own, the instance, and opens login shells in it.
//!
//! Nothing here touches the machine. The caller looks at the machine and
//! hands in what it saw, as a [`host::Host`]; the functions answer with what
//! is to be done, as plans made of [`effect::Effect`]s, and the caller
//! carries the plans out. Where doing and deciding take turns, as in a start
//! or in the launch of a shell, the caller comes back with what it saw after
//! each plan and is told the next.
//!
//! - [`env`]: which variables of the environment are carried into the
//!   instance.
//! - [`systemd`]: whether the instance runs, and how it is started, stopped
//!   and joined.
//! - [`shell`]: how a login shell is launched.
//! - [`cli`]: what the command line needs decided.
//! - [`laws`]: what holds of the plans on every host.
//! - [`text`], [`decimal`]: text and numbers.
//! - [`outside`]: the calls that leave this crate.
pub mod cli;
pub mod decimal;
pub mod effect;
pub mod env;
pub mod host;
pub mod laws;
pub mod outside;
pub mod shell;
pub mod systemd;
pub mod text;
