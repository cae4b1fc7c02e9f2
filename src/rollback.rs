//! The input packet exchanged every frame, with the fingerprint report that
//! rides along with it: choosing what to report, building the packet from the
//! local controls, and reconciling what remote peers reported.
use vstd::prelude::*;
use crate::ledger::{
    FrameHash, FrameHashes, IntegrityFault, first_reportable, marked_sent, none_reportable,
    reconcile_conflicts, reconciled,
};
use crate::physics::PhysicsEnabled;
use crate::window::ValidityWindow;

verus! {

// Each control is one bit of the 16-bit input field.
pub const INPUT_UP: u16 = 0b00001;
pub const INPUT_DOWN: u16 = 0b00010;
pub const INPUT_LEFT: u16 = 0b00100;
pub const INPUT_RIGHT: u16 = 0b01000;

/// The frame value of a packet that reports nothing.
pub const NULL_FRAME: i32 = -1;

/// Relies on ggrs::NULL_FRAME: the session layer's "no frame" value, -1.
#[verifier::external_body]
fn session_null_frame() -> (r: i32)
    ensures
        r == NULL_FRAME,
{
    ggrs::NULL_FRAME
}

/// Session handle of a player, tying the player back to its entity.
#[derive(Clone, Copy, Debug, PartialEq, Eq, Structural)]
pub struct Player {
    pub handle: usize,
}

/// The handles of the players controlled on this peer.
pub struct LocalHandles {
    pub handles: Vec<usize>,
}

impl LocalHandles {
    pub fn new(handles: Vec<usize>) -> (r: Self)
        ensures
            r.handles@ == handles@,
    {
        LocalHandles { handles }
    }

    pub fn contains(&self, handle: usize) -> (r: bool)
        ensures
            r == self.handles@.contains(handle),
    {
        let mut i: usize = 0;
        while i < self.handles.len()
            invariant
                i <= self.handles@.len(),
                forall|j: int| 0 <= j < i ==> self.handles@[j] != handle,
            decreases self.handles@.len() - i,
        {
            if self.handles[i] == handle {
                return true;
            }
            i = i + 1;
        }
        false
    }
}

/// Marker of the session configuration: packets are `GGRSInput`, players
/// are reached by peer id.
#[derive(Clone, Copy, Debug, PartialEq, Eq, Structural)]
pub struct GGRSConfig;

/// What players send one another every frame: the controls, and the frame and
/// fingerprint of one confirmed frame. Every field has a fixed width, and the
/// padding keeps each group 32-bit aligned, so the layout is the same on
/// every platform.
#[derive(Clone, Copy, Debug, PartialEq, Eq, Structural)]
pub struct GGRSInput {
    pub input: u16,
    pub padding1: u16,
    pub mouse_visible: u8,
    pub mouse_clicked: u8,
    pub padding2: u16,
    pub mouse_x: i32,
    pub mouse_y: i32,
    pub last_confirmed_hash: u16,
    pub padding3: u16,
    pub last_confirmed_frame: i32,
}

impl GGRSInput {
    pub fn new(
        input: u16,
        mouse_visible: u8,
        mouse_clicked: u8,
        mouse_x: i32,
        mouse_y: i32,
        last_confirmed_hash: u16,
        last_confirmed_frame: i32,
    ) -> (r: Self)
        ensures
            r.input == input,
            r.mouse_visible == mouse_visible,
            r.mouse_clicked == mouse_clicked,
            r.mouse_x == mouse_x,
            r.mouse_y == mouse_y,
            r.last_confirmed_hash == last_confirmed_hash,
            r.last_confirmed_frame == last_confirmed_frame,
    {
        GGRSInput {
            input,
            padding1: 0,
            mouse_visible,
            mouse_clicked,
            padding2: 0,
            mouse_x,
            mouse_y,
            last_confirmed_hash,
            padding3: 0,
            last_confirmed_frame,
        }
    }

    /// No controls and no report.
    pub fn empty() -> (r: Self)
        ensures
            r.input == 0,
            r.mouse_visible == 0,
            r.mouse_clicked == 0,
            r.mouse_x == 0,
            r.mouse_y == 0,
            r.last_confirmed_hash == 0,
            r.last_confirmed_frame == NULL_FRAME,
    {
        Self::new(0, 0, 0, 0, 0, 0, session_null_frame())
    }
}

/// `packet` reports the first reportable entry of `before`, which `after`
/// then marks sent; with nothing reportable it carries the null frame and
/// the ledger stays as it was.
pub open spec fn carries_report(
    packet: GGRSInput,
    before: Seq<Option<FrameHash>>,
    after: Seq<Option<FrameHash>>,
    w: ValidityWindow,
) -> bool {
    if none_reportable(before, w) {
        packet.last_confirmed_frame == NULL_FRAME && after == before
    } else {
        exists|i: int|
            first_reportable(before, w, i) && {
                let e = (#[trigger] before[i])->Some_0;
                &&& packet.last_confirmed_frame == e.frame
                &&& packet.last_confirmed_hash == e.checksum
                &&& after == marked_sent(before, e.frame as int)
            }
    }
}

/// Puts the first reportable entry of the outbound ledger on `packet` and
/// marks it sent, or the null frame when nothing is reportable.
pub fn attach_report(packet: &mut GGRSInput, hashes: &mut FrameHashes, w: &ValidityWindow)
    requires
        old(hashes).wf(),
    ensures
        final(hashes).wf(),
        carries_report(*final(packet), old(hashes)@, final(hashes)@, *w),
        final(packet).input == old(packet).input,
        final(packet).mouse_visible == old(packet).mouse_visible,
        final(packet).mouse_clicked == old(packet).mouse_clicked,
        final(packet).mouse_x == old(packet).mouse_x,
        final(packet).mouse_y == old(packet).mouse_y,
{
    match hashes.find_unsent_reportable(w) {
        Some(e) => {
            let ghost before = hashes@;
            proof {
                assert(!none_reportable(before, *w));
                assert(e.frame >= 0);
            }
            packet.last_confirmed_frame = e.frame;
            packet.last_confirmed_hash = e.checksum;
            hashes.mark_sent(e.frame);
        },
        None => {
            packet.last_confirmed_frame = session_null_frame();
        },
    }
}

/// Which directional keys are held on this peer.
#[derive(Clone, Copy, Debug, PartialEq, Eq, Structural)]
pub struct KeyState {
    pub up: bool,
    pub down: bool,
    pub left: bool,
    pub right: bool,
}

/// A cursor that lies over the world, in whole world units.
#[derive(Clone, Copy, Debug, PartialEq, Eq, Structural)]
pub struct MouseSample {
    pub x: i32,
    pub y: i32,
    pub clicked: bool,
}

/// Whether an idle local player gets random controls, to provoke rollbacks.
#[derive(Clone, Copy, Debug, PartialEq, Eq, Structural)]
pub struct RandomInput {
    pub on: bool,
}

/// The input bits of the held keys.
pub open spec fn key_bits(keys: KeyState) -> u16 {
    (if keys.up { INPUT_UP } else { 0u16 }) | (if keys.left { INPUT_LEFT } else { 0u16 }) | (if keys.down {
        INPUT_DOWN
    } else {
        0u16
    }) | (if keys.right { INPUT_RIGHT } else { 0u16 })
}

/// The control that a random draw in `0..10` stands for: one of four
/// directions, or none.
pub open spec fn random_bits(draw: u32) -> u16 {
    if draw == 0 {
        INPUT_UP
    } else if draw == 1 {
        INPUT_LEFT
    } else if draw == 2 {
        INPUT_DOWN
    } else if draw == 3 {
        INPUT_RIGHT
    } else {
        0
    }
}

pub fn keys_to_bits(keys: KeyState) -> (r: u16)
    ensures
        r == key_bits(keys),
{
    (if keys.up { INPUT_UP } else { 0u16 }) | (if keys.left { INPUT_LEFT } else { 0u16 }) | (if keys.down {
        INPUT_DOWN
    } else {
        0u16
    }) | (if keys.right { INPUT_RIGHT } else { 0u16 })
}

pub fn random_to_bits(draw: u32) -> (r: u16)
    ensures
        r == random_bits(draw),
{
    match draw {
        0 => INPUT_UP,
        1 => INPUT_LEFT,
        2 => INPUT_DOWN,
        3 => INPUT_RIGHT,
        _ => 0,
    }
}

/// Builds the packet of the local player `handle`. The report is attached
/// whatever the physics gate says; the controls only once physics is live.
/// An idle local player under random input gets the control of `draw`;
/// a local player that moves switches random input off.
pub fn input(
    handle: usize,
    local_handles: &LocalHandles,
    keys: KeyState,
    random: &mut RandomInput,
    draw: u32,
    physics_enabled: &PhysicsEnabled,
    hashes: &mut FrameHashes,
    w: &ValidityWindow,
    mouse: Option<MouseSample>,
) -> (r: GGRSInput)
    requires
        old(hashes).wf(),
    ensures
        final(hashes).wf(),
        carries_report(r, old(hashes)@, final(hashes)@, *w),
        ({
            let local = local_handles.handles@.contains(handle);
            let bits = key_bits(keys);
            if !physics_enabled.0 {
                &&& r.input == 0
                &&& *final(random) == *old(random)
            } else if bits != 0 {
                &&& r.input == bits
                &&& final(random).on == (old(random).on && !local)
            } else {
                &&& r.input == if old(random).on && local { random_bits(draw) } else { 0 }
                &&& *final(random) == *old(random)
            }
        }),
        match mouse {
            Some(m) if physics_enabled.0 => {
                &&& r.mouse_visible == 1
                &&& r.mouse_clicked == (if m.clicked { 1u8 } else { 0u8 })
                &&& r.mouse_x == m.x
                &&& r.mouse_y == m.y
            },
            _ => r.mouse_visible == 0 && r.mouse_clicked == 0 && r.mouse_x == 0 && r.mouse_y == 0,
        },
{
    let mut packet = GGRSInput::empty();
    attach_report(&mut packet, hashes, w);
    if !physics_enabled.0 {
        return packet;
    }
    packet.input = keys_to_bits(keys);
    if packet.input != 0 && random.on && local_handles.contains(handle) {
        random.on = false;
    } else if packet.input == 0 && random.on && local_handles.contains(handle) {
        packet.input = random_to_bits(draw);
    }
    if let Some(m) = mouse {
        packet.mouse_visible = 1;
        packet.mouse_clicked = if m.clicked { 1 } else { 0 };
        packet.mouse_x = m.x;
        packet.mouse_y = m.y;
    }
    packet
}

/// A remote packet's report is reconciled when it comes from a remote player
/// and names a frame.
pub open spec fn report_applies(is_local: bool, packet: GGRSInput) -> bool {
    !is_local && packet.last_confirmed_frame >= 0
}

pub open spec fn receive_conflicts(slots: Seq<Option<FrameHash>>, is_local: bool, packet: GGRSInput) -> bool {
    report_applies(is_local, packet) && reconcile_conflicts(
        slots,
        packet.last_confirmed_frame as int,
        packet.last_confirmed_hash,
    )
}

pub open spec fn received(slots: Seq<Option<FrameHash>>, is_local: bool, packet: GGRSInput) -> Seq<
    Option<FrameHash>,
> {
    if report_applies(is_local, packet) {
        reconciled(slots, packet.last_confirmed_frame, packet.last_confirmed_hash)
    } else {
        slots
    }
}

/// Reconciles the report of one received packet into the inbound ledger.
/// A packet of a local player, or one that carries no frame, changes nothing.
pub fn receive_report(hashes: &mut FrameHashes, is_local: bool, packet: &GGRSInput) -> (r: Result<
    (),
    IntegrityFault,
>)
    requires
        old(hashes).wf(),
    ensures
        final(hashes).wf(),
        r is Err <==> receive_conflicts(old(hashes)@, is_local, *packet),
        r is Ok ==> final(hashes)@ == received(old(hashes)@, is_local, *packet),
        r is Err ==> final(hashes)@ == old(hashes)@,
        packet.last_confirmed_frame < 0 ==> r is Ok && final(hashes)@ == old(hashes)@,
{
    if !is_local && packet.last_confirmed_frame >= 0 {
        hashes.reconcile_inbound(packet.last_confirmed_frame, packet.last_confirmed_hash)
    } else {
        Ok(())
    }
}

/// How the session layer holds a player's input of this frame.
#[derive(Clone, Copy, Debug, PartialEq, Eq, Structural)]
pub enum InputStatus {
    Confirmed,
    Predicted,
    Disconnected,
}

/// The way a player's controls push it: -1, 0 or 1 on each axis.
#[derive(Clone, Copy, Debug, PartialEq, Eq, Structural)]
pub struct Direction {
    pub horizontal: i8,
    pub vertical: i8,
}

/// Disconnected players do nothing.
pub open spec fn effective_input(packet: GGRSInput, status: InputStatus) -> u16 {
    match status {
        InputStatus::Disconnected => 0,
        _ => packet.input,
    }
}

/// One axis: opposite keys held together cancel out.
pub open spec fn axis(positive: bool, negative: bool) -> i8 {
    if negative && !positive {
        -1i8
    } else if positive && !negative {
        1i8
    } else {
        0i8
    }
}

pub open spec fn direction_of(input: u16) -> Direction {
    Direction {
        horizontal: axis(input & INPUT_RIGHT != 0, input & INPUT_LEFT != 0),
        vertical: axis(input & INPUT_UP != 0, input & INPUT_DOWN != 0),
    }
}

fn axis_of(positive: bool, negative: bool) -> (r: i8)
    ensures
        r == axis(positive, negative),
{
    if negative && !positive {
        -1
    } else if positive && !negative {
        1
    } else {
        0
    }
}

/// The direction that the input bits ask for.
pub fn direction(input: u16) -> (r: Direction)
    ensures
        r == direction_of(input),
{
    Direction {
        horizontal: axis_of(input & INPUT_RIGHT != 0, input & INPUT_LEFT != 0),
        vertical: axis_of(input & INPUT_UP != 0, input & INPUT_DOWN != 0),
    }
}

/// The inbound ledger after receiving each packet of `steps` in order, each
/// tagged with whether its player is local; `None` once one contradicts it.
pub open spec fn receive_all(slots: Seq<Option<FrameHash>>, steps: Seq<(bool, GGRSInput)>) -> Option<
    Seq<Option<FrameHash>>,
>
    decreases steps.len(),
{
    if steps.len() == 0 {
        Some(slots)
    } else {
        match receive_all(slots, steps.drop_last()) {
            Some(s) => if receive_conflicts(s, steps.last().0, steps.last().1) {
                None
            } else {
                Some(received(s, steps.last().0, steps.last().1))
            },
            None => None,
        }
    }
}

/// The received packets in the order of `players`.
pub open spec fn player_steps(
    players: Seq<Player>,
    inputs: Seq<(GGRSInput, InputStatus)>,
    locals: Seq<usize>,
) -> Seq<(bool, GGRSInput)> {
    Seq::new(
        players.len(),
        |i: int| (locals.contains(players[i].handle), inputs[players[i].handle as int].0),
    )
}

proof fn lemma_fault_persists(
    slots: Seq<Option<FrameHash>>,
    steps: Seq<(bool, GGRSInput)>,
    k: int,
)
    requires
        0 <= k <= steps.len(),
        receive_all(slots, steps.subrange(0, k)) is None,
    ensures
        receive_all(slots, steps) is None,
    decreases steps.len() - k,
{
    if k < steps.len() {
        assert(steps.subrange(0, k + 1).drop_last() =~= steps.subrange(0, k));
        lemma_fault_persists(slots, steps, k + 1);
    } else {
        assert(steps.subrange(0, k) =~= steps);
    }
}

/// Reconciles the report of each remote player's packet, in the order of
/// `players`, and gives the direction each player's controls ask for, or
/// `None` for every player while physics is not live. Stops at the first
/// report that contradicts the inbound ledger.
pub fn apply_inputs(
    players: &Vec<Player>,
    inputs: &Vec<(GGRSInput, InputStatus)>,
    hashes: &mut FrameHashes,
    local_handles: &LocalHandles,
    physics_enabled: &PhysicsEnabled,
) -> (r: Result<Vec<Option<Direction>>, IntegrityFault>)
    requires
        old(hashes).wf(),
        forall|i: int| 0 <= i < players@.len() ==> (#[trigger] players@[i]).handle < inputs@.len(),
    ensures
        final(hashes).wf(),
        ({
            let res = receive_all(
                old(hashes)@,
                player_steps(players@, inputs@, local_handles.handles@),
            );
            &&& r is Err <==> res is None
            &&& r is Ok ==> final(hashes)@ == res->Some_0
        }),
        r is Ok ==> r->Ok_0@.len() == players@.len(),
        r is Ok ==> forall|i: int|
            0 <= i < players@.len() ==> (#[trigger] r->Ok_0@[i]) == if physics_enabled.0 {
                let p = inputs@[players@[i].handle as int];
                Some(direction_of(effective_input(p.0, p.1)))
            } else {
                None::<Direction>
            },
{
    let ghost steps = player_steps(players@, inputs@, local_handles.handles@);
    let ghost start = hashes@;
    let mut out: Vec<Option<Direction>> = Vec::new();
    let mut k: usize = 0;
    proof {
        assert(steps.subrange(0, 0) =~= Seq::<(bool, GGRSInput)>::empty());
    }
    while k < players.len()
        invariant
            k <= players@.len(),
            steps == player_steps(players@, inputs@, local_handles.handles@),
            start == old(hashes)@,
            hashes.wf(),
            receive_all(start, steps.subrange(0, k as int)) == Some(hashes@),
            out@.len() == k,
            forall|i: int| 0 <= i < players@.len() ==> (#[trigger] players@[i]).handle < inputs@.len(),
            forall|i: int|
                0 <= i < k ==> (#[trigger] out@[i]) == if physics_enabled.0 {
                    let p = inputs@[players@[i].handle as int];
                    Some(direction_of(effective_input(p.0, p.1)))
                } else {
                    None::<Direction>
                },
        decreases players@.len() - k,
    {
        let p = players[k];
        let (packet, status) = inputs[p.handle];
        let is_local = local_handles.contains(p.handle);
        let ghost before = hashes@;
        proof {
            assert(steps.subrange(0, k as int + 1).drop_last() =~= steps.subrange(0, k as int));
            assert(steps[k as int] == (is_local, packet));
        }
        match receive_report(hashes, is_local, &packet) {
            Err(fault) => {
                proof {
                    let next = steps.subrange(0, k as int + 1);
                    assert(next.last() == (is_local, packet));
                    assert(receive_conflicts(before, is_local, packet));
                    assert(receive_all(start, next) is None);
                    lemma_fault_persists(start, steps, k as int + 1);
                }
                return Err(fault);
            },
            Ok(()) => {},
        }
        let input = match status {
            InputStatus::Disconnected => 0,
            _ => packet.input,
        };
        if physics_enabled.0 {
            out.push(Some(direction(input)));
        } else {
            out.push(None);
        }
        k = k + 1;
    }
    proof {
        assert(steps.subrange(0, players@.len() as int) =~= steps);
    }
    Ok(out)
}

} // verus!
