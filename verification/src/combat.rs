//! The turn engine: whose turn it is, how an intent resolves, and when the
//! encounter ends.

use crate::entity::{
    damage_outcome, draw_damage_rolls, same_stats, variance_hi, variance_lo, Action, Monster,
    Player,
};
use crate::rng::roll_between;
use crate::text::join_name_suffix;
use vstd::prelude::*;

verus! {

/// The side that may act next.
#[derive(Clone, Copy, Debug, PartialEq, Eq, Structural, PartialOrd, Ord)]
pub enum Step {
    Player,
    Monster,
}

/// The side a resolved turn hands over to.
pub open spec fn other_side(s: Step) -> Step {
    match s {
        Step::Player => Step::Monster,
        Step::Monster => Step::Player,
    }
}

/// The turn-order state: the side on turn and a diagnostic turn count.
pub struct StepInfo {
    pub step: Step,
    pub counter: u16,
}

impl StepInfo {
    /// Turn order decided by a roll over `0..=100`: a roll under 30 gives the
    /// monster the first turn.
    pub fn from_roll(roll: u16) -> (s: StepInfo)
        ensures
            s.counter == 0,
            s.step == (if roll < 30 {
                Step::Monster
            } else {
                Step::Player
            }),
    {
        let step = if 30 > roll {
            Step::Monster
        } else {
            Step::Player
        };
        StepInfo { step, counter: 0 }
    }

    /// Draws the initial-turn roll: the monster starts with 30-in-101 odds,
    /// otherwise the player begins.
    pub fn new() -> (s: StepInfo)
        ensures
            s.counter == 0,
    {
        let roll = roll_between(0, 100);
        StepInfo::from_roll(roll)
    }
}

/// The text announcing which side acts first.
pub open spec fn goes_first_text(name: Seq<char>) -> Seq<char> {
    name + " goes first."@
}

/// The text announcing that a combatant fled.
pub open spec fn fled_text(name: Seq<char>) -> Seq<char> {
    name + " flees."@
}

/// The whole encounter: both combatants, the turn-order state, and the text
/// of the most recently resolved event.
pub struct Combat {
    pub text: String,
    pub player: Player,
    pub monster: Monster,
    pub step_info: StepInfo,
}

/// How one resolved player intent relates the encounter before and after it,
/// given the two random draws of the damage primitive. A call made while the
/// encounter is finished, or while the player is not on turn, changes
/// nothing.
pub open spec fn player_action_outcome(
    pre: Combat,
    post: Combat,
    action: Action,
    variance_roll: u16,
    dodge_roll: u16,
) -> bool {
    if pre.spec_is_fin() || pre.step_info.step != Step::Player {
        post == pre
    } else {
        match action {
            Action::Hit => {
                &&& post.player == pre.player
                &&& damage_outcome(
                    pre.monster.entity,
                    post.monster.entity,
                    post.text@,
                    pre.player.entity.damage,
                    variance_roll,
                    dodge_roll,
                )
                &&& post.step_info.counter == pre.step_info.counter
                &&& post.step_info.step == (if post.monster.entity.now_hp == 0 {
                    Step::Player
                } else {
                    Step::Monster
                })
            },
            Action::Run => {
                &&& post.player.entity.now_hp == 0
                &&& same_stats(pre.player.entity, post.player.entity)
                &&& post.player.actions == pre.player.actions
                &&& post.player.select == pre.player.select
                &&& post.monster == pre.monster
                &&& post.text@ == fled_text(pre.player.entity.name@)
                &&& post.step_info == pre.step_info
            },
            _ => {
                &&& post.player == pre.player
                &&& post.monster == pre.monster
                &&& post.text == pre.text
                &&& post.step_info.counter == pre.step_info.counter
                &&& post.step_info.step == Step::Monster
            },
        }
    }
}

/// How one resolved monster turn relates the encounter before and after it.
/// The monster acts by its decision rule: it flees when badly outmatched,
/// otherwise it attacks with the given draws. A call made while the encounter
/// is finished, or while the monster is not on turn, changes nothing.
pub open spec fn monster_turn_outcome(
    pre: Combat,
    post: Combat,
    variance_roll: u16,
    dodge_roll: u16,
) -> bool {
    if pre.spec_is_fin() || pre.step_info.step != Step::Monster {
        post == pre
    } else if (pre.monster.entity.full_hp as int) * 3 < pre.player.entity.full_hp as int {
        &&& post.monster.entity.now_hp == 0
        &&& same_stats(pre.monster.entity, post.monster.entity)
        &&& post.player == pre.player
        &&& post.text@ == fled_text(pre.monster.entity.name@)
        &&& post.step_info == pre.step_info
    } else {
        &&& post.monster == pre.monster
        &&& damage_outcome(
            pre.player.entity,
            post.player.entity,
            post.text@,
            pre.monster.entity.damage,
            variance_roll,
            dodge_roll,
        )
        &&& post.player.actions == pre.player.actions
        &&& post.player.select == pre.player.select
        &&& post.step_info.counter == pre.step_info.counter
        &&& post.step_info.step == (if post.player.entity.now_hp == 0 {
            Step::Monster
        } else {
            Step::Player
        })
    }
}

impl Combat {
    /// Well-formedness of the whole encounter.
    pub open spec fn wf(self) -> bool {
        &&& self.player.wf()
        &&& self.monster.entity.wf()
    }

    /// The encounter is finished exactly when one side's health is zero.
    pub open spec fn spec_is_fin(self) -> bool {
        self.player.entity.now_hp == 0 || self.monster.entity.now_hp == 0
    }

    /// Builds the encounter with the first turn decided by `roll`, and
    /// records who goes first.
    pub fn new_with_roll(player: Player, monster: Monster, roll: u16) -> (c: Combat)
        ensures
            c.player == player,
            c.monster == monster,
            c.step_info.counter == 0,
            c.step_info.step == (if roll < 30 {
                Step::Monster
            } else {
                Step::Player
            }),
            c.text@ == (if roll < 30 {
                goes_first_text(monster.entity.name@)
            } else {
                goes_first_text(player.entity.name@)
            }),
    {
        let step_info = StepInfo::from_roll(roll);
        let text = match step_info.step {
            Step::Monster => join_name_suffix(monster.entity.name.as_str(), " goes first."),
            Step::Player => join_name_suffix(player.entity.name.as_str(), " goes first."),
        };
        Combat { text, player, monster, step_info }
    }

    /// Builds the encounter, drawing the initial-turn roll: the monster goes
    /// first with 30-in-101 odds, otherwise the player does.
    pub fn new(player: Player, monster: Monster) -> (c: Combat)
        ensures
            c.player == player,
            c.monster == monster,
            c.step_info.counter == 0,
            c.step_info.step == Step::Monster ==> c.text@ == goes_first_text(
                monster.entity.name@,
            ),
            c.step_info.step == Step::Player ==> c.text@ == goes_first_text(player.entity.name@),
    {
        let roll = roll_between(0, 100);
        Combat::new_with_roll(player, monster, roll)
    }

    /// The player's attack: applies the player's base damage to the monster
    /// with the given draws, and records the outcome.
    pub fn hit_monster_with_rolls(&mut self, variance_roll: u16, dodge_roll: u16)
        requires
            old(self).wf(),
            variance_lo(old(self).player.entity.damage) <= variance_roll <= variance_hi(
                old(self).player.entity.damage,
            ),
            dodge_roll <= 100,
        ensures
            final(self).wf(),
            final(self).player == old(self).player,
            final(self).step_info == old(self).step_info,
            final(self).monster.entity.now_hp <= old(self).monster.entity.now_hp,
            damage_outcome(
                old(self).monster.entity,
                final(self).monster.entity,
                final(self).text@,
                old(self).player.entity.damage,
                variance_roll,
                dodge_roll,
            ),
    {
        let text = self.monster.entity.get_damage_with_rolls(
            self.player.entity.damage,
            variance_roll,
            dodge_roll,
        );
        self.text = text;
    }

    /// The player's attack with the draws made here: applies the player's
    /// base damage to the monster and records the outcome.
    pub fn hit_monster(&mut self)
        requires
            old(self).wf(),
        ensures
            final(self).wf(),
            final(self).player == old(self).player,
            final(self).step_info == old(self).step_info,
            final(self).monster.entity.now_hp <= old(self).monster.entity.now_hp,
            exists|v: u16, d: u16|
                damage_outcome(
                    old(self).monster.entity,
                    final(self).monster.entity,
                    final(self).text@,
                    old(self).player.entity.damage,
                    v,
                    d,
                ),
    {
        let text = self.monster.entity.get_damage(self.player.entity.damage);
        let ghost (v, d) = choose|v: u16, d: u16|
            damage_outcome(
                old(self).monster.entity,
                self.monster.entity,
                text@,
                old(self).player.entity.damage,
                v,
                d,
            );
        self.text = text;
        proof {
            assert(damage_outcome(
                old(self).monster.entity,
                self.monster.entity,
                self.text@,
                old(self).player.entity.damage,
                v,
                d,
            ));
        }
    }

    /// The monster's attack: applies the monster's base damage to the player
    /// with the given draws, and records the outcome.
    pub fn hit_player_with_rolls(&mut self, variance_roll: u16, dodge_roll: u16)
        requires
            old(self).wf(),
            variance_lo(old(self).monster.entity.damage) <= variance_roll <= variance_hi(
                old(self).monster.entity.damage,
            ),
            dodge_roll <= 100,
        ensures
            final(self).wf(),
            final(self).monster == old(self).monster,
            final(self).step_info == old(self).step_info,
            final(self).player.actions == old(self).player.actions,
            final(self).player.select == old(self).player.select,
            final(self).player.entity.now_hp <= old(self).player.entity.now_hp,
            damage_outcome(
                old(self).player.entity,
                final(self).player.entity,
                final(self).text@,
                old(self).monster.entity.damage,
                variance_roll,
                dodge_roll,
            ),
    {
        let text = self.player.entity.get_damage_with_rolls(
            self.monster.entity.damage,
            variance_roll,
            dodge_roll,
        );
        self.text = text;
    }

    /// The monster's attack with the draws made here: applies the monster's
    /// base damage to the player and records the outcome.
    pub fn hit_player(&mut self)
        requires
            old(self).wf(),
        ensures
            final(self).wf(),
            final(self).monster == old(self).monster,
            final(self).step_info == old(self).step_info,
            final(self).player.actions == old(self).player.actions,
            final(self).player.select == old(self).player.select,
            final(self).player.entity.now_hp <= old(self).player.entity.now_hp,
            exists|v: u16, d: u16|
                damage_outcome(
                    old(self).player.entity,
                    final(self).player.entity,
                    final(self).text@,
                    old(self).monster.entity.damage,
                    v,
                    d,
                ),
    {
        let text = self.player.entity.get_damage(self.monster.entity.damage);
        let ghost (v, d) = choose|v: u16, d: u16|
            damage_outcome(
                old(self).player.entity,
                self.player.entity,
                text@,
                old(self).monster.entity.damage,
                v,
                d,
            );
        self.text = text;
        proof {
            assert(damage_outcome(
                old(self).player.entity,
                self.player.entity,
                self.text@,
                old(self).monster.entity.damage,
                v,
                d,
            ));
        }
    }

    /// The side on turn flees: its health drops to zero, which finishes the
    /// encounter, and the turn does not change hands.
    pub fn run_away(&mut self)
        ensures
            old(self).wf() ==> final(self).wf(),
            final(self).step_info == old(self).step_info,
            final(self).spec_is_fin(),
            old(self).step_info.step == Step::Monster ==> {
                &&& final(self).monster.entity.now_hp == 0
                &&& same_stats(old(self).monster.entity, final(self).monster.entity)
                &&& final(self).player == old(self).player
                &&& final(self).text@ == fled_text(old(self).monster.entity.name@)
            },
            old(self).step_info.step == Step::Player ==> {
                &&& final(self).player.entity.now_hp == 0
                &&& same_stats(old(self).player.entity, final(self).player.entity)
                &&& final(self).player.actions == old(self).player.actions
                &&& final(self).player.select == old(self).player.select
                &&& final(self).monster == old(self).monster
                &&& final(self).text@ == fled_text(old(self).player.entity.name@)
            },
    {
        match self.step_info.step {
            Step::Monster => {
                self.monster.entity.now_hp = 0;
                self.text = join_name_suffix(self.monster.entity.name.as_str(), " flees.");
            },
            Step::Player => {
                self.player.entity.now_hp = 0;
                self.text = join_name_suffix(self.player.entity.name.as_str(), " flees.");
            },
        }
    }

    /// Whether the encounter is over: one side's health has reached zero.
    pub fn is_fin(&self) -> (b: bool)
        ensures
            b == self.spec_is_fin(),
    {
        self.player.entity.now_hp == 0 || self.monster.entity.now_hp == 0
    }

    /// Resolves one player intent with the given draws. Valid work happens
    /// only while the player is on turn and the encounter is unfinished; any
    /// other call is refused and changes nothing. An attack damages the
    /// monster and hands the turn over unless it finished the encounter;
    /// `Defense` and `Info` only consume the turn; fleeing zeroes the
    /// player's health and ends the encounter without a turn change.
    pub fn resolve_player_action_with_rolls(
        &mut self,
        action: Action,
        variance_roll: u16,
        dodge_roll: u16,
    )
        requires
            old(self).wf(),
            variance_lo(old(self).player.entity.damage) <= variance_roll <= variance_hi(
                old(self).player.entity.damage,
            ),
            dodge_roll <= 100,
        ensures
            final(self).wf(),
            old(self).spec_is_fin() ==> *final(self) == *old(self),
            player_action_outcome(*old(self), *final(self), action, variance_roll, dodge_roll),
    {
        if self.is_fin() {
            return;
        }
        match self.step_info.step {
            Step::Monster => {
                return;
            },
            Step::Player => {},
        }
        match action {
            Action::Hit => {
                self.hit_monster_with_rolls(variance_roll, dodge_roll);
                if !self.is_fin() {
                    self.toggle_step();
                }
            },
            Action::Defense => self.toggle_step(),
            Action::Info => self.toggle_step(),
            Action::Run => self.run_away(),
        }
    }

    /// Resolves one player intent, drawing the damage rolls here. The same
    /// refusal rule applies as with the caller-supplied draws, and the
    /// outcome holds for some pair of in-range draws.
    pub fn resolve_player_action(&mut self, action: Action)
        requires
            old(self).wf(),
        ensures
            final(self).wf(),
            old(self).spec_is_fin() ==> *final(self) == *old(self),
            exists|v: u16, d: u16|
                player_action_outcome(*old(self), *final(self), action, v, d),
    {
        let (variance_roll, dodge_roll) = draw_damage_rolls(self.player.entity.damage);
        self.resolve_player_action_with_rolls(action, variance_roll, dodge_roll);
        proof {
            assert(player_action_outcome(
                *old(self),
                *self,
                action,
                variance_roll,
                dodge_roll,
            ));
        }
    }

    /// Resolves one monster turn with the given draws. Valid work happens
    /// only while the monster is on turn and the encounter is unfinished; any
    /// other call is refused and changes nothing. The monster follows its
    /// decision rule: badly outmatched it flees, which ends the encounter
    /// without a turn change; otherwise it attacks the player and hands the
    /// turn over unless the attack finished the encounter.
    pub fn resolve_monster_turn_with_rolls(&mut self, variance_roll: u16, dodge_roll: u16)
        requires
            old(self).wf(),
            variance_lo(old(self).monster.entity.damage) <= variance_roll <= variance_hi(
                old(self).monster.entity.damage,
            ),
            dodge_roll <= 100,
        ensures
            final(self).wf(),
            old(self).spec_is_fin() ==> *final(self) == *old(self),
            monster_turn_outcome(*old(self), *final(self), variance_roll, dodge_roll),
    {
        if self.is_fin() {
            return;
        }
        match self.step_info.step {
            Step::Player => {
                return;
            },
            Step::Monster => {},
        }
        let action = self.monster.get_monster_action(&self.player);
        match action {
            Action::Hit => {
                self.hit_player_with_rolls(variance_roll, dodge_roll);
                if !self.is_fin() {
                    self.toggle_step();
                }
            },
            Action::Run => self.run_away(),
            _ => {},
        }
    }

    /// Resolves one monster turn, drawing the damage rolls here. The same
    /// refusal rule applies as with the caller-supplied draws, and the
    /// outcome holds for some pair of in-range draws.
    pub fn resolve_monster_turn(&mut self)
        requires
            old(self).wf(),
        ensures
            final(self).wf(),
            old(self).spec_is_fin() ==> *final(self) == *old(self),
            exists|v: u16, d: u16| monster_turn_outcome(*old(self), *final(self), v, d),
    {
        let (variance_roll, dodge_roll) = draw_damage_rolls(self.monster.entity.damage);
        self.resolve_monster_turn_with_rolls(variance_roll, dodge_roll);
        proof {
            assert(monster_turn_outcome(*old(self), *self, variance_roll, dodge_roll));
        }
    }

    /// Turn alternation: across any resolved player intent that neither
    /// flees nor finishes the encounter, followed by a monster turn in which
    /// the monster neither flees nor finishes it, the side on turn strictly
    /// alternates and returns to the player.
    pub proof fn lemma_turns_alternate(
        c0: Combat,
        c1: Combat,
        c2: Combat,
        action: Action,
        v1: u16,
        d1: u16,
        v2: u16,
        d2: u16,
    )
        requires
            !c0.spec_is_fin(),
            c0.step_info.step == Step::Player,
            action != Action::Run,
            player_action_outcome(c0, c1, action, v1, d1),
            !c1.spec_is_fin(),
            !((c1.monster.entity.full_hp as int) * 3 < c1.player.entity.full_hp as int),
            monster_turn_outcome(c1, c2, v2, d2),
            !c2.spec_is_fin(),
        ensures
            c1.step_info.step == Step::Monster,
            c2.step_info.step == Step::Player,
    {
    }

    /// Hands the turn to the other side.
    pub fn toggle_step(&mut self)
        ensures
            final(self).player == old(self).player,
            final(self).monster == old(self).monster,
            final(self).text == old(self).text,
            final(self).step_info.counter == old(self).step_info.counter,
            final(self).step_info.step == other_side(old(self).step_info.step),
    {
        match self.step_info.step {
            Step::Monster => self.step_info.step = Step::Player,
            Step::Player => self.step_info.step = Step::Monster,
        }
    }
}

} // verus!
