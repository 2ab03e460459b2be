//! The player: which lane it heads for, and when its input is accepted.

use vstd::prelude::*;
use crate::cooldown::MoveCooldown;
use crate::cooldown::cooldown_nanos;
use crate::cooldown::law_waited_within_cooldown;
use crate::cooldown::waited_after;

verus! {

/// The keys the rules listen to, each `true` while it is held down.
#[derive(Clone, Copy, Debug, PartialEq, Eq, Structural)]
pub struct Keys {
    pub down: bool,
    pub s: bool,
    pub left: bool,
    pub q: bool,
    pub right: bool,
    pub d: bool,
    pub space: bool,
    pub left_shift: bool,
}

impl Keys {
    /// Slowing down is asked for.
    pub open spec fn slow(self) -> bool {
        self.down || self.s
    }

    /// A move to the left is asked for.
    pub open spec fn go_left(self) -> bool {
        self.left || self.q
    }

    /// A move to the right is asked for.
    pub open spec fn go_right(self) -> bool {
        self.right || self.d
    }

    /// A jump is asked for.
    pub open spec fn jump(self) -> bool {
        self.space
    }

    /// Crouching is asked for.
    pub open spec fn crouch(self) -> bool {
        self.left_shift
    }

    /// Whether these keys, once accepted, start the cooldown again. Slowing
    /// down alone does not.
    pub open spec fn restarts_cooldown(self) -> bool {
        self.go_left() || self.go_right() || self.jump() || self.crouch()
    }
}

/// The sign of a measure along the lane axis: of the player's offset from the
/// centre line of its lane, or of the sideways speed it asked for last.
#[derive(Clone, Copy, Debug, PartialEq, Eq, Structural)]
pub enum Side {
    /// Below zero.
    Left,
    /// Zero, or no number at all.
    Centre,
    /// Above zero.
    Right,
}

/// What the accepted keys ask of the character controller.
#[derive(Clone, Copy, Debug, PartialEq, Eq, Structural)]
pub struct Intent {
    /// Run slower.
    pub slow: bool,
    /// Jump.
    pub jump: bool,
    /// Crouch.
    pub crouch: bool,
}

/// Where the player steers sideways.
#[derive(Clone, Copy, Debug, PartialEq, Eq, Structural)]
pub enum Heading {
    /// Straight on: no lane is targeted.
    Ahead,
    /// Towards the centre line of this lane, which is still out of reach.
    Toward(i32),
    /// Onto the centre line of this lane, which was in reach; the lane is
    /// no longer targeted.
    Arrived(i32),
}

/// A player as the rules see it.
pub struct PlayerView {
    /// The lane the player is moving to, if any.
    pub target_lane: Option<i32>,
    /// Nanoseconds waited since the last input that started the cooldown, at
    /// most the whole cooldown.
    pub waited: nat,
}

/// The player's lane target and input cooldown.
pub struct Player {
    target_lane: Option<i32>,
    move_cooldown: MoveCooldown,
}

impl View for Player {
    type V = PlayerView;

    closed spec fn view(&self) -> PlayerView {
        PlayerView { target_lane: self.target_lane, waited: self.move_cooldown.waited() }
    }
}

/// The lane targeted once `keys` are accepted by a player nearest to `lane`.
/// A move to the right takes the next lane, unless the player is left of the
/// centre line and drifting left: then it only returns to `lane`. A move to
/// the left mirrors this. Where both are asked for, the right wins; where
/// neither is, the target stays.
pub open spec fn target_after(
    target: Option<i32>,
    keys: Keys,
    lane: i32,
    offset: Side,
    drift: Side,
) -> Option<i32> {
    if keys.go_right() {
        if offset is Left && drift is Left {
            Some(lane)
        } else {
            Some((lane + 1) as i32)
        }
    } else if keys.go_left() {
        if offset is Right && drift is Right {
            Some(lane)
        } else {
            Some((lane - 1) as i32)
        }
    } else {
        target
    }
}

/// Whether the lanes that `keys` aim at from `lane` are lane numbers: the
/// lane to the left where a move to the left takes it, the lane to the right
/// where a move to the right does.
pub open spec fn aim_in_range_spec(keys: Keys, lane: i32, offset: Side, drift: Side) -> bool {
    &&& keys.go_left() && !(offset is Right && drift is Right) ==> i32::MIN < lane
    &&& keys.go_right() && !(offset is Left && drift is Left) ==> lane < i32::MAX
}

/// Whether the lanes that `keys` aim at from `lane` are lane numbers.
pub fn aim_in_range(keys: Keys, lane: i32, offset: Side, drift: Side) -> (in_range: bool)
    ensures
        in_range == aim_in_range_spec(keys, lane, offset, drift),
{
    let left_fits = match (keys.left || keys.q, offset, drift) {
        (false, _, _) => true,
        (true, Side::Right, Side::Right) => true,
        (true, _, _) => lane > i32::MIN,
    };
    let right_fits = match (keys.right || keys.d, offset, drift) {
        (false, _, _) => true,
        (true, Side::Left, Side::Left) => true,
        (true, _, _) => lane < i32::MAX,
    };
    left_fits && right_fits
}

/// One frame of input handling: the player afterwards and what is asked of
/// the controller. The cooldown waits `delta` nanoseconds more. While it has
/// not been waited out, the keys are ignored. Once it has, the keys are
/// accepted: they set the target lane and the intent, and any of them but
/// slowing down starts the cooldown again.
pub open spec fn movement(
    player: PlayerView,
    delta: nat,
    keys: Keys,
    lane: i32,
    offset: Side,
    drift: Side,
) -> (PlayerView, Intent) {
    let waited = waited_after(player.waited, delta);
    if waited < cooldown_nanos() {
        (
            PlayerView { target_lane: player.target_lane, waited },
            Intent { slow: false, jump: false, crouch: false },
        )
    } else {
        (
            PlayerView {
                target_lane: target_after(player.target_lane, keys, lane, offset, drift),
                waited: if keys.restarts_cooldown() {
                    0
                } else {
                    waited
                },
            },
            Intent { slow: keys.slow(), jump: keys.jump(), crouch: keys.crouch() },
        )
    }
}

/// The heading of a player with this target, given whether the target's
/// centre line is within reach.
pub open spec fn heading_for(target: Option<i32>, within_reach: bool) -> Heading {
    match target {
        None => Heading::Ahead,
        Some(lane) => if within_reach {
            Heading::Arrived(lane)
        } else {
            Heading::Toward(lane)
        },
    }
}

impl Player {
    /// The cooldown is well formed.
    pub closed spec fn wf(&self) -> bool {
        self.move_cooldown.wf()
    }

    /// The lane the player is moving to, if any.
    pub fn target_lane(&self) -> (target: Option<i32>)
        ensures
            target == self@.target_lane,
    {
        self.target_lane
    }

    /// Steers towards the target lane. `within_reach` says whether the
    /// player is close enough to the target's centre line to be put onto it;
    /// it is not read when no lane is targeted. On arrival the target is
    /// given up. The cooldown is left alone.
    pub fn approach(&mut self, within_reach: bool) -> (heading: Heading)
        ensures
            final(self).wf() == old(self).wf(),
            heading == heading_for(old(self)@.target_lane, within_reach),
            final(self)@.waited == old(self)@.waited,
            final(self)@.target_lane == (if heading is Toward {
                old(self)@.target_lane
            } else {
                None
            }),
    {
        match self.target_lane {
            None => Heading::Ahead,
            Some(lane) => {
                if within_reach {
                    self.target_lane = None;
                    Heading::Arrived(lane)
                } else {
                    Heading::Toward(lane)
                }
            },
        }
    }
}

/// The player as a run starts: it targets no lane, and its cooldown has just
/// started.
pub fn setup_player() -> (player: Player)
    ensures
        player.wf(),
        player@ == (PlayerView { target_lane: None, waited: 0 }),
{
    Player { target_lane: None, move_cooldown: MoveCooldown::new() }
}

/// Handles one frame of input for a player that stands nearest to `lane`,
/// `offset` of its centre line, and last asked for a sideways speed of sign
/// `drift`; `delta_nanos` is the time since the frame before. Where the keys
/// are accepted, the lanes they aim at must be lane numbers.
pub fn player_movement(
    player: &mut Player,
    delta_nanos: u64,
    keys: Keys,
    lane: i32,
    offset: Side,
    drift: Side,
) -> (intent: Intent)
    requires
        old(player).wf(),
        waited_after(old(player)@.waited, delta_nanos as nat) == cooldown_nanos()
            ==> aim_in_range_spec(keys, lane, offset, drift),
    ensures
        final(player).wf(),
        final(player)@ == movement(old(player)@, delta_nanos as nat, keys, lane, offset, drift).0,
        intent == movement(old(player)@, delta_nanos as nat, keys, lane, offset, drift).1,
{
    let ready = player.move_cooldown.tick(delta_nanos);
    if !ready {
        return Intent { slow: false, jump: false, crouch: false };
    }
    let go_left = keys.left || keys.q;
    let go_right = keys.right || keys.d;
    if go_left {
        player.target_lane = match (offset, drift) {
            (Side::Right, Side::Right) => Some(lane),
            _ => Some(lane - 1),
        };
    }
    if go_right {
        player.target_lane = match (offset, drift) {
            (Side::Left, Side::Left) => Some(lane),
            _ => Some(lane + 1),
        };
    }
    if go_left || go_right || keys.space || keys.left_shift {
        player.move_cooldown.reset();
    }
    Intent { slow: keys.down || keys.s, jump: keys.space, crouch: keys.left_shift }
}

/// Judges one contact: it is a crash when the strongest force pushes
/// sideways or head-on. A crash ends the run: the target lane is given up.
/// The cooldown is left alone.
pub fn check_wall_crashes(player: &mut Player, sideways: bool, head_on: bool) -> (crashed: bool)
    ensures
        final(player).wf() == old(player).wf(),
        crashed == (sideways || head_on),
        final(player)@.waited == old(player)@.waited,
        final(player)@.target_lane == (if crashed {
            None
        } else {
            old(player)@.target_lane
        }),
{
    if sideways || head_on {
        player.target_lane = None;
        true
    } else {
        false
    }
}

/// A player never waits longer than the cooldown.
pub proof fn law_player_waits_within_cooldown(player: Player)
    requires
        player.wf(),
    ensures
        player@.waited <= cooldown_nanos(),
{
    law_waited_within_cooldown(player.move_cooldown);
}

/// The cooldown gates input: once keys that start the cooldown have been
/// accepted, the keys of a frame that comes before the cooldown is over are
/// ignored, whatever they are.
pub proof fn law_cooldown_gates_input(
    player: PlayerView,
    first_delta: nat,
    first_keys: Keys,
    first_lane: i32,
    first_offset: Side,
    first_drift: Side,
    delta: nat,
    keys: Keys,
    lane: i32,
    offset: Side,
    drift: Side,
)
    requires
        waited_after(player.waited, first_delta) == cooldown_nanos(),
        first_keys.restarts_cooldown(),
        delta < cooldown_nanos(),
    ensures
        ({
            let accepted = movement(
                player,
                first_delta,
                first_keys,
                first_lane,
                first_offset,
                first_drift,
            ).0;
            let (after, intent) = movement(accepted, delta, keys, lane, offset, drift);
            &&& after.target_lane == accepted.target_lane
            &&& after.waited == delta
            &&& intent == (Intent { slow: false, jump: false, crouch: false })
        }),
{
}

/// One frame as the rules see it: the time since the frame before, the keys
/// held, and where the player is measured to be.
pub struct Frame {
    pub delta: nat,
    pub keys: Keys,
    pub lane: i32,
    pub offset: Side,
    pub drift: Side,
}

/// The player after a run of frames, one after the other.
pub open spec fn after_frames(player: PlayerView, frames: Seq<Frame>) -> PlayerView
    decreases frames.len(),
{
    if frames.len() == 0 {
        player
    } else {
        let frame = frames.last();
        movement(
            after_frames(player, frames.drop_last()),
            frame.delta,
            frame.keys,
            frame.lane,
            frame.offset,
            frame.drift,
        ).0
    }
}

/// The time a run of frames takes.
pub open spec fn time_of(frames: Seq<Frame>) -> nat
    decreases frames.len(),
{
    if frames.len() == 0 {
        0
    } else {
        time_of(frames.drop_last()) + frames.last().delta
    }
}

/// The cooldown lasts: over any run of frames that ends before the cooldown
/// is over, the target lane stays as it was, whatever keys are held, and the
/// time of the frames is added to what was waited.
pub proof fn law_cooldown_lasts(player: PlayerView, frames: Seq<Frame>)
    requires
        player.waited + time_of(frames) < cooldown_nanos(),
    ensures
        after_frames(player, frames).target_lane == player.target_lane,
        after_frames(player, frames).waited == player.waited + time_of(frames),
    decreases frames.len(),
{
    if frames.len() > 0 {
        law_cooldown_lasts(player, frames.drop_last());
    }
}

/// An accepted move aims no further than the next lane, and never to the
/// other side: to the left it targets the player's lane or the one left of
/// it, to the right the player's lane or the one right of it.
pub proof fn law_target_next_to_lane(
    target: Option<i32>,
    keys: Keys,
    lane: i32,
    offset: Side,
    drift: Side,
)
    requires
        i32::MIN < lane < i32::MAX,
        keys.go_left() || keys.go_right(),
    ensures
        target_after(target, keys, lane, offset, drift) matches Some(aim) && (if keys.go_right() {
            lane <= aim <= lane + 1
        } else {
            lane - 1 <= aim <= lane
        }),
{
}

/// The other side of the lane axis.
pub open spec fn mirrored_side(side: Side) -> Side {
    match side {
        Side::Left => Side::Right,
        Side::Centre => Side::Centre,
        Side::Right => Side::Left,
    }
}

/// The keys with left and right exchanged.
pub open spec fn mirrored_keys(keys: Keys) -> Keys {
    Keys { left: keys.right, q: keys.d, right: keys.left, d: keys.q, ..keys }
}

/// The lane on the other side of lane zero, where there is a target.
pub open spec fn mirrored_target(target: Option<i32>) -> Option<i32> {
    match target {
        None => None,
        Some(lane) => Some((-lane) as i32),
    }
}

/// The rules favour no side: unless both a move to the left and a move to the
/// right are asked for, a frame seen in a mirror across lane zero ends as the
/// mirror image of the frame itself.
pub proof fn law_no_side_favoured(
    player: PlayerView,
    delta: nat,
    keys: Keys,
    lane: i32,
    offset: Side,
    drift: Side,
)
    requires
        !(keys.go_left() && keys.go_right()),
        i32::MIN + 1 < lane < i32::MAX,
        player.target_lane matches Some(target) ==> i32::MIN < target,
    ensures
        ({
            let (after, intent) = movement(player, delta, keys, lane, offset, drift);
            movement(
                PlayerView { target_lane: mirrored_target(player.target_lane), ..player },
                delta,
                mirrored_keys(keys),
                (-lane) as i32,
                mirrored_side(offset),
                mirrored_side(drift),
            ) == (PlayerView { target_lane: mirrored_target(after.target_lane), ..after }, intent)
        }),
{
}

} // verus!
