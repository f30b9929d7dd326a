//! Install and update pipeline for a single versioned software bundle.
//!
//! The pipeline finds the latest archive of the bundle on a remote host,
//! downloads it, unpacks it beside the live installation, keeps the user's
//! own files, swaps the new installation into place and puts the user's
//! files back. Whatever fails after the swap has begun is undone by a
//! rollback.
//!
//! This crate decides; it does not act. It never touches the network or the
//! disk. A stage that changes the disk is a plan: a list of steps made from
//! what was found there. A stage that runs alongside a transfer is a state
//! machine: it is told what happened and says what follows. The caller
//! performs the steps and commands and reports back. So every rule of the
//! pipeline is a function from plain values to plain values, and carries a
//! contract that Verus checks.
//!
//! - [`pob::google_drive`]: the requests to the remote host and the reading
//!   of its answers.
//! - [`pob::parallel_download`]: the download, in one stream or in byte
//!   ranges side by side.
//! - [`pob::extract`]: the unpacking of the archive.
//! - [`pob::manager`]: the installation on disk, and the plans of backup,
//!   restore, swap, rollback and cleanup.
//! - [`pob::install`]: one installation run from beginning to end.
//! - [`pob::progress`]: the events that tell of all this, and their
//!   throttling.
//! - [`pob::steps`]: what a plan is made of, and what it does to a disk.
//! - [`pob::version`], [`pob::error`], [`errors`], [`text`], [`util`]:
//!   versions, failures, text and identifiers.

pub mod errors;
pub mod pob;
pub mod text;
pub mod util;
