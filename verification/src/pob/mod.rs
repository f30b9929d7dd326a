//! The bundle pipeline: progress events, download planning, extraction,
//! backup and restore, the atomic swap and the install state machine.

use tokio_util::sync::CancellationToken;
use vstd::prelude::*;

pub mod error;
pub mod extract;
pub mod google_drive;
pub mod install;
pub mod manager;
pub mod parallel_download;
pub mod progress;
pub mod steps;
pub mod version;

verus! {

/// `tokio_util::sync::CancellationToken`: carried through as it is;
/// nothing of it is known.
#[verifier::external_type_specification]
#[verifier::external_body]
pub struct ExCancellationToken(CancellationToken);

/// `CancellationToken::cancel` of `tokio_util` raises the token's signal
/// for everyone who holds a clone of it. It returns nothing, and nothing
/// is claimed of it.
pub assume_specification[ CancellationToken::cancel ](token: &CancellationToken)
;

/// The cancellation signal of the installation that is under way, if one
/// is.
#[derive(Debug)]
pub struct InstallCancelToken {
    pub token: Option<CancellationToken>,
}

impl Default for InstallCancelToken {
    /// No installation is under way.
    fn default() -> (t: Self)
        ensures
            t.token is None,
    {
        InstallCancelToken { token: None }
    }
}

impl InstallCancelToken {
    /// Keeps the signal of the installation that begins.
    pub fn set(&mut self, token: CancellationToken)
        ensures
            final(self).token == Some(token),
    {
        self.token = Some(token);
    }

    /// Hands the signal back and keeps none: for the end of an
    /// installation.
    pub fn take(&mut self) -> (token: Option<CancellationToken>)
        ensures
            token == old(self).token,
            final(self).token is None,
    {
        self.token.take()
    }

    /// Raises the signal of the installation that is under way, and says
    /// whether there was one. Without one nothing happens.
    pub fn cancel(&self) -> (raised: bool)
        ensures
            raised == self.token is Some,
    {
        match &self.token {
            Some(token) => {
                token.cancel();
                true
            },
            None => false,
        }
    }
}

} // verus!
