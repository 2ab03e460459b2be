//! The player's animation: which of three states it is in, and which clip
//! plays on the way from one to the next.

use vstd::prelude::*;

verus! {

/// What the player is doing, as far as its animation goes.
#[derive(Debug, Clone, Copy, PartialEq, Eq, Structural)]
pub enum AnimationState {
    Running,
    Jumping,
    Falling,
}

/// An animation clip of the player's model.
#[derive(Debug, Clone, Copy, PartialEq, Eq, Structural)]
pub enum Clip {
    /// Rolling off after a landing.
    Roll,
    /// Running.
    Run,
    /// Flipping through the air.
    Flip,
}

/// The state of a player that is on the ground (`None`) or in the air, where
/// `rising` says whether it still moves upwards.
pub open spec fn state_for(rising: Option<bool>) -> AnimationState {
    match rising {
        None => AnimationState::Running,
        Some(true) => AnimationState::Jumping,
        Some(false) => AnimationState::Falling,
    }
}

/// The clip for a player that was in state `before` and is in state `now`: in
/// the air it flips; back on the ground it rolls if it was falling, and runs
/// otherwise.
pub open spec fn clip_for(before: AnimationState, now: AnimationState) -> Clip {
    match now {
        AnimationState::Running => if before is Falling {
            Clip::Roll
        } else {
            Clip::Run
        },
        AnimationState::Jumping => Clip::Flip,
        AnimationState::Falling => Clip::Flip,
    }
}

impl Clip {
    /// Name of the clip in the model's file.
    pub open spec fn name_spec(self) -> Seq<char> {
        match self {
            Clip::Roll => "ROLL"@,
            Clip::Run => "RUN"@,
            Clip::Flip => "FLIP"@,
        }
    }

    /// Playback speed in hundredths of the clip's own speed.
    pub open spec fn speed_percent_spec(self) -> u32 {
        match self {
            Clip::Roll => 250,
            Clip::Run => 200,
            Clip::Flip => 250,
        }
    }

    /// Milliseconds over which the clip is blended in, if it is.
    pub open spec fn transition_millis_spec(self) -> Option<u64> {
        match self {
            Clip::Roll => None,
            Clip::Run => Some(2000),
            Clip::Flip => None,
        }
    }

    /// Whether the clip starts over when it ends.
    pub open spec fn repeats_spec(self) -> bool {
        self is Run
    }

    /// Name of the clip in the model's file.
    pub fn name(self) -> (name: &'static str)
        ensures
            name@ == self.name_spec(),
    {
        match self {
            Clip::Roll => "ROLL",
            Clip::Run => "RUN",
            Clip::Flip => "FLIP",
        }
    }

    /// Playback speed in hundredths of the clip's own speed.
    pub fn speed_percent(self) -> (percent: u32)
        ensures
            percent == self.speed_percent_spec(),
    {
        match self {
            Clip::Roll => 250,
            Clip::Run => 200,
            Clip::Flip => 250,
        }
    }

    /// Milliseconds over which the clip is blended in, if it is.
    pub fn transition_millis(self) -> (millis: Option<u64>)
        ensures
            millis == self.transition_millis_spec(),
    {
        match self {
            Clip::Roll => None,
            Clip::Run => Some(2000),
            Clip::Flip => None,
        }
    }

    /// Whether the clip starts over when it ends.
    pub fn repeats(self) -> (repeats: bool)
        ensures
            repeats == self.repeats_spec(),
    {
        match self {
            Clip::Run => true,
            _ => false,
        }
    }
}

/// Moves the animation on by one frame: `state` becomes the state of a player
/// that is on the ground (`None`) or in the air and `rising` or not, and the
/// clip for that change is returned.
pub fn player_animate(state: &mut AnimationState, rising: Option<bool>) -> (clip: Clip)
    ensures
        *final(state) == state_for(rising),
        clip == clip_for(*old(state), state_for(rising)),
{
    let now = match rising {
        None => AnimationState::Running,
        Some(true) => AnimationState::Jumping,
        Some(false) => AnimationState::Falling,
    };
    let clip = match (*state, now) {
        (AnimationState::Falling, AnimationState::Running) => Clip::Roll,
        (_, AnimationState::Running) => Clip::Run,
        (_, _) => Clip::Flip,
    };
    *state = now;
    clip
}

/// Whether `place` is the first place in `marked` that holds `true`.
pub open spec fn first_marked(marked: Seq<bool>, place: int) -> bool {
    &&& 0 <= place < marked.len()
    &&& marked[place]
    &&& forall|earlier: int| 0 <= earlier < place ==> !marked[earlier]
}

/// Finds the entity that the animations of a new animation player are
/// attached to. `handlers` follows the way from the animation player up to
/// the root of its scene, the player itself first, and says of each entity
/// whether it carries a scene handler. The result is the place of the nearest
/// entity that does, or `None` where none on the way does.
pub fn animation_patcher_system(handlers: &Vec<bool>) -> (found: Option<usize>)
    ensures
        match found {
            Some(place) => first_marked(handlers@, place as int),
            None => forall|place: int| 0 <= place < handlers@.len() ==> !handlers@[place],
        },
{
    let mut place: usize = 0;
    while place < handlers.len()
        invariant
            place <= handlers.len(),
            forall|earlier: int| 0 <= earlier < place ==> !handlers@[earlier],
        decreases handlers.len() - place,
    {
        if handlers[place] {
            return Some(place);
        }
        place += 1;
    }
    None
}

/// The roll plays on a landing and at no other time: when a player that was
/// falling is on the ground.
pub proof fn law_roll_on_landing(before: AnimationState, rising: Option<bool>)
    ensures
        clip_for(before, state_for(rising)) is Roll <==> before is Falling && rising is None,
{
}

/// The flip plays exactly while the player is in the air, whatever it did
/// before.
pub proof fn law_flip_in_the_air(before: AnimationState, rising: Option<bool>)
    ensures
        clip_for(before, state_for(rising)) is Flip <==> rising is Some,
{
}

/// A roll follows a fall: over two frames in a row, the second plays the roll
/// exactly when the player was sinking in the first and is on the ground in
/// the second.
pub proof fn law_roll_follows_fall(first: Option<bool>, second: Option<bool>)
    ensures
        clip_for(state_for(first), state_for(second)) is Roll <==> first == Some(false)
            && second is None,
{
}

} // verus!
