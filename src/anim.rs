//! Animation clips and the rule that switches a character's active clip.
//!
//! A character holds at most one active clip: `CurrentAnimation` is an
//! `Option<Clip>`, and every switch replaces it whole.
use vstd::prelude::*;

verus! {

/// The clips of the animation catalog.
#[derive(Clone, Copy, Debug, PartialEq, Eq, Structural)]
pub enum Clip {
    Idle,
    Walk,
    Run,
    Attack,
    Jump,
    Hit,
    Death,
    Block,
}

/// Number of clips in the catalog.
pub const CLIP_COUNT: usize = 8;

pub const IDLE_ANIMATION: &'static str = "Idle";
pub const WALK_ANIMATION: &'static str = "Walking_A";
pub const RUN_ANIMATION: &'static str = "Running_B";
pub const ATTACK_ANIMATION: &'static str = "1H_Melee_Attack_Chop";
pub const JUMP_ANIMATION: &'static str = "Jump_Full_Short";
pub const HIT_ANIMATION: &'static str = "Hit_A";
pub const DEATH_ANIMATION: &'static str = "Death_A";
pub const BLOCK_ANIMATION: &'static str = "Blocking";

/// The name of a clip in the character asset.
pub open spec fn asset_name(c: Clip) -> &'static str {
    match c {
        Clip::Idle => IDLE_ANIMATION,
        Clip::Walk => WALK_ANIMATION,
        Clip::Run => RUN_ANIMATION,
        Clip::Attack => ATTACK_ANIMATION,
        Clip::Jump => JUMP_ANIMATION,
        Clip::Hit => HIT_ANIMATION,
        Clip::Death => DEATH_ANIMATION,
        Clip::Block => BLOCK_ANIMATION,
    }
}

/// Continuous clips loop; the others play once and hold.
pub open spec fn is_looping(c: Clip) -> bool {
    c == Clip::Idle || c == Clip::Walk || c == Clip::Run
}

/// Position of a clip in the catalog.
pub open spec fn catalog_index(c: Clip) -> int {
    match c {
        Clip::Idle => 0,
        Clip::Walk => 1,
        Clip::Run => 2,
        Clip::Attack => 3,
        Clip::Jump => 4,
        Clip::Hit => 5,
        Clip::Death => 6,
        Clip::Block => 7,
    }
}

impl Clip {
    /// Whether the clip loops while it stays active.
    pub fn loops(&self) -> (r: bool)
        ensures
            r == is_looping(*self),
    {
        match self {
            Clip::Idle | Clip::Walk | Clip::Run => true,
            _ => false,
        }
    }

    /// Position of the clip in the catalog.
    pub fn index(&self) -> (r: usize)
        ensures
            r == catalog_index(*self),
            r < CLIP_COUNT,
    {
        match self {
            Clip::Idle => 0,
            Clip::Walk => 1,
            Clip::Run => 2,
            Clip::Attack => 3,
            Clip::Jump => 4,
            Clip::Hit => 5,
            Clip::Death => 6,
            Clip::Block => 7,
        }
    }

    /// The clip at position `i` of the catalog.
    pub fn at(i: usize) -> (r: Clip)
        requires
            i < CLIP_COUNT,
        ensures
            catalog_index(r) == i,
    {
        if i == 0 {
            Clip::Idle
        } else if i == 1 {
            Clip::Walk
        } else if i == 2 {
            Clip::Run
        } else if i == 3 {
            Clip::Attack
        } else if i == 4 {
            Clip::Jump
        } else if i == 5 {
            Clip::Hit
        } else if i == 6 {
            Clip::Death
        } else {
            Clip::Block
        }
    }

    /// The name under which the clip is found in the character asset.
    pub fn name(&self) -> (r: &'static str)
        ensures
            r == asset_name(*self),
    {
        match self {
            Clip::Idle => IDLE_ANIMATION,
            Clip::Walk => WALK_ANIMATION,
            Clip::Run => RUN_ANIMATION,
            Clip::Attack => ATTACK_ANIMATION,
            Clip::Jump => JUMP_ANIMATION,
            Clip::Hit => HIT_ANIMATION,
            Clip::Death => DEATH_ANIMATION,
            Clip::Block => BLOCK_ANIMATION,
        }
    }
}

/// The first clip of the catalog whose asset was not found, if any. The
/// catalog is usable only when none is missing: there is no partial catalog.
pub fn missing_clip(found: &Vec<bool>) -> (r: Option<Clip>)
    requires
        found@.len() == CLIP_COUNT,
    ensures
        r.is_none() <==> (forall|i: int| 0 <= i < CLIP_COUNT ==> found@[i]),
        r matches Some(c) ==> !found@[catalog_index(c)] && (forall|i: int|
            0 <= i < catalog_index(c) ==> found@[i]),
{
    let mut i: usize = 0;
    while i < CLIP_COUNT
        invariant
            found@.len() == CLIP_COUNT,
            i <= CLIP_COUNT,
            forall|j: int| 0 <= j < i ==> found@[j],
        decreases CLIP_COUNT - i,
    {
        if !found[i] {
            return Some(Clip::at(i));
        }
        i = i + 1;
    }
    None
}

/// What the animation player must do after a switch.
#[derive(Clone, Copy, Debug, PartialEq, Eq, Structural)]
pub enum AnimCommand {
    /// The active clip stays as it is.
    Keep,
    /// Stop all playback.
    StopAll,
    /// Stop all playback, then start `clip`, looping it when `repeat` holds.
    Play { clip: Clip, repeat: bool },
}

/// The command that starts `desired` from scratch.
pub open spec fn restart_command(desired: Option<Clip>) -> AnimCommand {
    match desired {
        Some(c) => AnimCommand::Play { clip: c, repeat: is_looping(c) },
        None => AnimCommand::StopAll,
    }
}

/// The command that moves from `active` to `desired`: nothing when they are
/// equal, otherwise a restart.
pub open spec fn switch_command(active: Option<Clip>, desired: Option<Clip>) -> AnimCommand {
    if active == desired {
        AnimCommand::Keep
    } else {
        restart_command(desired)
    }
}

/// The clip that a character's animation player is playing, if any.
#[derive(Clone, Copy, Debug, PartialEq, Eq, Structural)]
pub struct CurrentAnimation(pub Option<Clip>);

/// Whether `clip` is the active clip and has not finished playing.
pub open spec fn playing_unfinished(active: Option<Clip>, clip: Clip, finished: bool) -> bool {
    active == Some(clip) && !finished
}

fn same_clip(a: Option<Clip>, b: Option<Clip>) -> (r: bool)
    ensures
        r == (a == b),
{
    match (a, b) {
        (None, None) => true,
        (Some(x), Some(y)) => x == y,
        _ => false,
    }
}

impl CurrentAnimation {
    /// Applies the switching rule: when `desired` differs from the active
    /// clip, stop everything and start `desired`; otherwise keep playing.
    pub fn switch_to(&mut self, desired: Option<Clip>) -> (cmd: AnimCommand)
        ensures
            final(self).0 == desired,
            cmd == switch_command(old(self).0, desired),
    {
        if same_clip(self.0, desired) {
            AnimCommand::Keep
        } else {
            self.0 = desired;
            self.restart()
        }
    }

    /// Stops everything and starts `clip`, even when it is already active.
    pub fn force(&mut self, clip: Clip) -> (cmd: AnimCommand)
        ensures
            final(self).0 == Some(clip),
            cmd == restart_command(Some(clip)),
    {
        self.0 = Some(clip);
        self.restart()
    }

    fn restart(&self) -> (cmd: AnimCommand)
        ensures
            cmd == restart_command(self.0),
    {
        match self.0 {
            Some(c) => AnimCommand::Play { clip: c, repeat: c.loops() },
            None => AnimCommand::StopAll,
        }
    }

    /// Whether `clip` is active and unfinished; `finished` is the animation
    /// player's report that all playback has ended.
    pub fn is_playing(&self, clip: Clip, finished: bool) -> (r: bool)
        ensures
            r == playing_unfinished(self.0, clip, finished),
    {
        same_clip(self.0, Some(clip)) && !finished
    }
}

} // verus!

verus! {

/// At most one clip is active: a switch leaves exactly the desired clip (or
/// none) active, and the command it gives starts no clip but that one,
/// after stopping all playback.
pub proof fn lemma_one_active_clip(active: Option<Clip>, desired: Option<Clip>)
    ensures
        switch_command(active, desired) == AnimCommand::Keep ==> active == desired,
        switch_command(active, desired) == AnimCommand::StopAll ==> desired.is_none(),
        switch_command(active, desired) matches AnimCommand::Play { clip, repeat } ==> desired
            == Some(clip) && repeat == is_looping(clip),
        restart_command(desired) matches AnimCommand::Play { clip, .. } ==> desired == Some(clip),
{
}

} // verus!
