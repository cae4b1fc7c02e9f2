//! The validity window: which frames are confirmed, and which are old enough
//! that their fingerprint may be disclosed to the other peers.
use vstd::prelude::*;

verus! {

/// Frame counters handed over by the session layer.
#[derive(Clone, Copy, Debug, PartialEq, Eq, Structural)]
pub struct ValidityWindow {
    /// The newest frame whose inputs are final on every peer.
    pub confirmed_frame: i32,
    /// How many frames a rollback or a prediction may still reach back.
    pub horizon: i32,
}

impl ValidityWindow {
    /// A frame exists as confirmed once it is at or before the confirmed frame.
    pub open spec fn confirms(self, frame: int) -> bool {
        frame <= self.confirmed_frame
    }

    /// A frame may be reported once it lies before the confirmed frame by more
    /// than the horizon.
    pub open spec fn reports(self, frame: int) -> bool {
        frame < self.confirmed_frame - self.horizon
    }

    pub fn new(confirmed_frame: i32, horizon: i32) -> (r: Self)
        ensures
            r.confirmed_frame == confirmed_frame,
            r.horizon == horizon,
    {
        ValidityWindow { confirmed_frame, horizon }
    }

    pub fn is_confirmed(&self, frame: i32) -> (r: bool)
        ensures
            r == self.confirms(frame as int),
    {
        frame <= self.confirmed_frame
    }

    pub fn is_reportable(&self, frame: i32) -> (r: bool)
        ensures
            r == self.reports(frame as int),
    {
        (frame as i64) < (self.confirmed_frame as i64) - (self.horizon as i64)
    }
}

} // verus!
