//! The configuration snapshot read once per loop iteration, and the
//! decision whether polling may start.
//!
//! The loop may poll only when the bearer token, the provider secret and
//! the host are all present and at least one engine is registered. When any
//! of these is missing the loop reports a specific waiting status and
//! retries after a fixed delay, without touching the backoff schedule.

use vstd::prelude::*;

verus! {

/// Fixed delay, in seconds, between retries while the configuration is
/// incomplete. Distinct from the failure backoff schedule.
pub const WAITING_RETRY_SECS: u64 = 5;

/// Everything the loop reads from the external store, fetched once per
/// iteration and immutable for that iteration.
pub struct ConfigSnapshot {
    pub host: Option<String>,
    pub token: Option<String>,
    pub provider_secret: Option<String>,
    pub engine_count: u64,
}

/// Mathematical image of a [`ConfigSnapshot`] value.
pub struct ConfigSnapshotView {
    pub host: Option<Seq<char>>,
    pub token: Option<Seq<char>>,
    pub provider_secret: Option<Seq<char>>,
    pub engine_count: u64,
}

impl View for ConfigSnapshot {
    type V = ConfigSnapshotView;

    open spec fn view(&self) -> ConfigSnapshotView {
        ConfigSnapshotView {
            host: self.host.deep_view(),
            token: self.token.deep_view(),
            provider_secret: self.provider_secret.deep_view(),
            engine_count: self.engine_count,
        }
    }
}

/// Why polling cannot start yet. The checks run in a fixed order, so a
/// snapshot with several gaps reports the first one.
#[derive(Clone, Copy, PartialEq, Eq, Structural, Debug)]
pub enum WaitingReason {
    /// No bearer token: nobody has logged in yet.
    MissingToken,
    /// No provider secret is configured.
    MissingSecret,
    /// No host to poll is configured.
    MissingHost,
    /// No engine is registered to run the work.
    NoEngines,
}

/// The credentials of one polling iteration, cloned out of a ready
/// snapshot.
#[derive(Debug)]
pub struct PollCredentials {
    pub host: String,
    pub token: String,
    pub provider_secret: String,
}

/// Mathematical image of a [`PollCredentials`] value.
pub struct PollCredentialsView {
    pub host: Seq<char>,
    pub token: Seq<char>,
    pub provider_secret: Seq<char>,
}

impl View for PollCredentials {
    type V = PollCredentialsView;

    open spec fn view(&self) -> PollCredentialsView {
        PollCredentialsView {
            host: self.host@,
            token: self.token@,
            provider_secret: self.provider_secret@,
        }
    }
}

impl ConfigSnapshotView {
    /// Polling may start: all three values present, at least one engine.
    pub open spec fn ready(self) -> bool {
        self.token is Some && self.provider_secret is Some && self.host is Some
            && self.engine_count > 0
    }

    /// The first gap found, in check order: token, secret, host, engines.
    pub open spec fn waiting_reason(self) -> WaitingReason
        recommends
            !self.ready(),
    {
        if self.token is None {
            WaitingReason::MissingToken
        } else if self.provider_secret is None {
            WaitingReason::MissingSecret
        } else if self.host is None {
            WaitingReason::MissingHost
        } else {
            WaitingReason::NoEngines
        }
    }
}

impl ConfigSnapshot {
    /// Decides whether polling may start. A ready snapshot yields its
    /// credentials; anything else yields the first [`WaitingReason`] in
    /// check order.
    pub fn readiness(&self) -> (r: Result<PollCredentials, WaitingReason>)
        ensures
            match r {
                Ok(c) => self@.ready() && Some(c@.host) == self@.host && Some(c@.token)
                    == self@.token && Some(c@.provider_secret) == self@.provider_secret,
                Err(w) => !self@.ready() && w == self@.waiting_reason(),
            },
    {
        let token = match &self.token {
            Some(t) => t,
            None => {
                return Err(WaitingReason::MissingToken);
            },
        };
        let provider_secret = match &self.provider_secret {
            Some(s) => s,
            None => {
                return Err(WaitingReason::MissingSecret);
            },
        };
        let host = match &self.host {
            Some(h) => h,
            None => {
                return Err(WaitingReason::MissingHost);
            },
        };
        if self.engine_count == 0 {
            return Err(WaitingReason::NoEngines);
        }
        Ok(PollCredentials {
            host: host.clone(),
            token: token.clone(),
            provider_secret: provider_secret.clone(),
        })
    }
}

/// The status text reported for each waiting reason.
pub open spec fn waiting_message_spec(w: WaitingReason) -> Seq<char> {
    match w {
        WaitingReason::MissingToken => "Waiting for login"@,
        WaitingReason::MissingSecret => "Missing provider secret"@,
        WaitingReason::MissingHost => "Missing engine host setting"@,
        WaitingReason::NoEngines => "Waiting for engine to be added"@,
    }
}

/// An absent token or an empty engine list are ordinary waiting states; an
/// absent secret or host is a configuration error.
pub open spec fn waiting_is_error_spec(w: WaitingReason) -> bool {
    match w {
        WaitingReason::MissingToken => false,
        WaitingReason::MissingSecret => true,
        WaitingReason::MissingHost => true,
        WaitingReason::NoEngines => false,
    }
}

/// Renders the status text of `w`, as [`waiting_message_spec`] states.
pub fn waiting_message(w: WaitingReason) -> (s: String)
    ensures
        s@ == waiting_message_spec(w),
{
    match w {
        WaitingReason::MissingToken => String::from_str("Waiting for login"),
        WaitingReason::MissingSecret => String::from_str("Missing provider secret"),
        WaitingReason::MissingHost => String::from_str("Missing engine host setting"),
        WaitingReason::NoEngines => String::from_str("Waiting for engine to be added"),
    }
}

/// Tells a waiting state from a configuration error, as
/// [`waiting_is_error_spec`] states.
pub fn waiting_is_error(w: WaitingReason) -> (e: bool)
    ensures
        e == waiting_is_error_spec(w),
{
    match w {
        WaitingReason::MissingToken => false,
        WaitingReason::MissingSecret => true,
        WaitingReason::MissingHost => true,
        WaitingReason::NoEngines => false,
    }
}

} // verus!
