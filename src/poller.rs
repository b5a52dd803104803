use vstd::prelude::*;

use crate::settings::SensorPumpPair;
use crate::time_span::{saturating_product, TimeSpan, NANOS_PER_SEC};

verus! {

/// What a sensor poller does with the outcome of one read.
#[derive(Clone, Copy, Debug, PartialEq, Eq, Structural)]
pub enum PollerAction {
    /// Forward the reading on the pair's channel.
    Send(u16),
    /// The read failed: forward nothing this tick.
    Skip,
}

/// What a sensor poller does after one tick.
#[derive(Clone, Copy, Debug, PartialEq, Eq, Structural)]
pub enum PollerControl {
    /// Wait this long, then read again.
    Sleep(TimeSpan),
    /// The channel is closed: the poller ends.
    Exit,
}

/// The action for a read that gave `read` (`None` when it failed).
///
/// A failed read is never fatal: the poller only skips the tick.
pub fn poller_action(read: Option<u16>) -> (r: PollerAction)
    ensures
        read matches Some(v) ==> r == PollerAction::Send(v),
        read is None ==> r == PollerAction::Skip,
{
    match read {
        Some(v) => PollerAction::Send(v),
        None => PollerAction::Skip,
    }
}

/// What the poller of `pair` does after a tick; `sent` says whether the reading
/// went through the channel, `None` when nothing was sent.
///
/// Only a closed channel ends the poller; otherwise it waits the pair's polling
/// interval, after a failed read too.
pub fn poller_after(pair: &SensorPumpPair, sent: Option<bool>) -> (r: PollerControl)
    ensures
        sent == Some(false) ==> r == PollerControl::Exit,
        sent != Some(false) ==> r == PollerControl::Sleep(
            TimeSpan { nanos: saturating_product(pair.sensor_polling_time_seconds, NANOS_PER_SEC) },
        ),
{
    match sent {
        Some(false) => PollerControl::Exit,
        _ => PollerControl::Sleep(pair.polling_interval()),
    }
}

} // verus!
