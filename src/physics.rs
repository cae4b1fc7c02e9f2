//! The physics gate of the warm-up window, and the snapshot of the physics
//! world kept for rollbacks: saving it with its fingerprint every frame, and
//! choosing the buffer to restore from during a rollback.
use vstd::prelude::*;
use crate::checksum::{fletcher16, fletcher16_spec};
use crate::ledger::{FrameHashes, IntegrityFault, record_conflicts, recorded};

verus! {

/// Frames simulated per second.
pub const FPS: usize = 60;

/// Seconds of warm-up before physics goes live.
pub const LOAD_SECONDS: usize = 3;

#[verifier::external_type_specification]
#[verifier::external_body]
pub struct ExBincodeErrorKind(bincode::ErrorKind);

/// The most recent serialized physics world and its fingerprint.
pub struct PhysicsRollbackState {
    pub rapier_state: Option<Vec<u8>>,
    pub rapier_checksum: u16,
}

/// The state holds `bytes` as its snapshot, with their fingerprint.
pub open spec fn holds_snapshot(state: PhysicsRollbackState, bytes: Seq<u8>) -> bool {
    &&& state.rapier_state is Some
    &&& state.rapier_state->Some_0@ == bytes
    &&& state.rapier_checksum == fletcher16_spec(bytes)
}

impl PhysicsRollbackState {
    /// No snapshot yet.
    pub fn new() -> (r: Self)
        ensures
            r.rapier_state is None,
            r.rapier_checksum == 0,
    {
        PhysicsRollbackState { rapier_state: None, rapier_checksum: 0 }
    }
}

/// Whether physics, and input-driven changes to it, are live.
#[derive(Clone, Copy, Debug, PartialEq, Eq, Structural)]
pub struct PhysicsEnabled(pub bool);

/// Physics is off strictly between `start` and `end`.
#[derive(Clone, Copy, Debug, PartialEq, Eq, Structural)]
pub struct EnablePhysicsAfter {
    pub start: i32,
    pub end: i32,
}

impl EnablePhysicsAfter {
    pub open spec fn enabled_at(self, frame: int) -> bool {
        !(self.start < frame && frame < self.end)
    }

    pub fn new(start: i32, end: i32) -> (r: Self)
        ensures
            r.start == start,
            r.end == end,
    {
        EnablePhysicsAfter { start, end }
    }

    /// A warm-up window of `FPS * LOAD_SECONDS` frames after `offset`.
    pub fn with_default_offset(offset: i32) -> (r: Self)
        requires
            offset <= i32::MAX - FPS * LOAD_SECONDS,
        ensures
            r.start == offset,
            r.end == offset + FPS * LOAD_SECONDS,
    {
        Self::new(offset, offset + (FPS * LOAD_SECONDS) as i32)
    }

    /// Physics is live at `frame` unless the frame lies strictly inside the
    /// window; the start frame itself counts as live.
    pub fn is_enabled(&self, frame: i32) -> (r: bool)
        ensures
            r == self.enabled_at(frame as int),
    {
        !(self.start < frame && frame < self.end)
    }
}

impl Default for EnablePhysicsAfter {
    fn default() -> (r: Self)
        ensures
            r.start == 0,
            r.end == FPS * LOAD_SECONDS,
    {
        Self::with_default_offset(0)
    }
}

/// Sets the physics gate, and whether the physics pipeline runs, from the
/// warm-up window at `current_frame`.
pub fn toggle_physics(
    enable_physics_after: &EnablePhysicsAfter,
    current_frame: i32,
    physics_enabled: &mut PhysicsEnabled,
    pipeline_active: &mut bool,
)
    ensures
        final(physics_enabled).0 == enable_physics_after.enabled_at(current_frame as int),
        *final(pipeline_active) == final(physics_enabled).0,
{
    let should_activate = enable_physics_after.is_enabled(current_frame);
    if physics_enabled.0 != should_activate {
        physics_enabled.0 = should_activate;
    }
    *pipeline_active = physics_enabled.0;
}

/// What the frame loop says of the frame being simulated.
#[derive(Clone, Copy, Debug, PartialEq, Eq, Structural)]
pub struct RollbackStatus {
    pub is_rollback: bool,
    pub rollback_frame: i32,
}

impl RollbackStatus {
    /// Restoring is done only during a rollback to a frame past the first:
    /// the state of the first frames is already the initial one.
    pub open spec fn restores(self) -> bool {
        self.is_rollback && self.rollback_frame > 1
    }

    pub fn should_restore(&self) -> (r: bool)
        ensures
            r == self.restores(),
    {
        self.is_rollback && self.rollback_frame > 1
    }
}

/// The buffer that a rollback restores the physics world from, if any.
pub open spec fn restore_source(status: RollbackStatus, state: PhysicsRollbackState) -> Option<
    Seq<u8>,
> {
    if status.restores() {
        match state.rapier_state {
            Some(b) => Some(b@),
            None => None,
        }
    } else {
        None
    }
}

/// Picks the snapshot to deserialize into the live world: the saved buffer
/// during a rollback past the first frame, nothing otherwise.
pub fn rollback_rapier_context<'a>(status: &RollbackStatus, game_state: &'a PhysicsRollbackState) -> (r:
    Option<&'a Vec<u8>>)
    ensures
        match restore_source(*status, *game_state) {
            Some(b) => r is Some && r->Some_0@ == b,
            None => r is None,
        },
{
    if status.should_restore() {
        match &game_state.rapier_state {
            Some(b) => Some(b),
            None => None,
        }
    } else {
        None
    }
}

/// Saves the serialized world of `current_frame` with its fingerprint and
/// records that fingerprint in the outbound ledger, confirmed when the frame is
/// at or before `confirmed_frame`. A failed serialization changes nothing.
pub fn save_rapier_context(
    game_state: &mut PhysicsRollbackState,
    serialized: Result<Vec<u8>, bincode::Error>,
    hashes: &mut FrameHashes,
    confirmed_frame: i32,
    current_frame: i32,
) -> (r: Result<(), IntegrityFault>)
    requires
        old(hashes).wf(),
        current_frame >= 0,
    ensures
        final(hashes).wf(),
        match serialized {
            Err(_) => {
                &&& r is Ok
                &&& *final(game_state) == *old(game_state)
                &&& final(hashes)@ == old(hashes)@
            },
            Ok(bytes) => {
                let sum = fletcher16_spec(bytes@);
                &&& holds_snapshot(*final(game_state), bytes@)
                &&& r is Err <==> record_conflicts(old(hashes)@, current_frame as int, sum)
                &&& r is Ok ==> final(hashes)@ == recorded(
                    old(hashes)@,
                    current_frame,
                    sum,
                    current_frame <= confirmed_frame,
                )
                &&& r is Err ==> final(hashes)@ == old(hashes)@
            },
        },
{
    match serialized {
        Err(_) => Ok(()),
        Ok(bytes) => {
            let sum = fletcher16(bytes.as_slice());
            game_state.rapier_checksum = sum;
            game_state.rapier_state = Some(bytes);
            hashes.record(current_frame, sum, current_frame <= confirmed_frame)
        },
    }
}

/// A snapshot saved from `bytes` is what a rollback past the first frame
/// restores from, byte for byte, and its stored fingerprint is that of the
/// restored bytes; outside such a rollback nothing is restored.
pub proof fn lemma_restore_uses_saved_snapshot(
    state: PhysicsRollbackState,
    bytes: Seq<u8>,
    status: RollbackStatus,
)
    requires
        holds_snapshot(state, bytes),
    ensures
        status.restores() ==> restore_source(status, state) == Some(bytes),
        status.restores() ==> fletcher16_spec(restore_source(status, state)->Some_0)
            == state.rapier_checksum,
        !status.restores() ==> restore_source(status, state) is None,
{
}

} // verus!
