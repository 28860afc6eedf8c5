//! Combatants, their derived stats, and the damage-application primitive.

use crate::rng::roll_between;
use crate::text::{decimal, join_name_num, join_name_suffix};
use vstd::arithmetic::div_mod::lemma_div_is_ordered;
use vstd::prelude::*;

verus! {

/// Upper bound, in percent, on a combatant's damage mitigation.
pub const ARMOR_CAP: u16 = 50;

/// Upper bound, in percent, on a combatant's chance to dodge a hit.
pub const DODGE_CAP: u16 = 20;

/// Half-width, in percent, of the uniform variance band around nominal damage.
pub const ERROR_RANGE_PERCENTAGE: u16 = 20;

/// Upper bound on a combatant's base damage; half the representable range,
/// so the damage arithmetic has headroom.
pub const DAMAGE_CAP: u16 = u16::MAX / 2;

/// A stat clamped to its cap.
pub open spec fn clamped(x: u16, cap: u16) -> u16 {
    if x > cap {
        cap
    } else {
        x
    }
}

/// Lowest damage the variance band allows for a nominal amount.
pub open spec fn variance_lo(damage: u16) -> int {
    (damage as int) * ((100 - ERROR_RANGE_PERCENTAGE) as int) / 100
}

/// Highest damage the variance band allows for a nominal amount.
pub open spec fn variance_hi(damage: u16) -> int {
    (damage as int) * ((100 + ERROR_RANGE_PERCENTAGE) as int) / 100
}

/// Damage left after percentage mitigation by armor.
pub open spec fn mitigated(armor: u16, rolled: u16) -> int {
    (100 - armor) * (rolled as int) / 100
}

/// Damage actually subtracted from health on a hit: the mitigated amount,
/// clamped to the damage cap.
pub open spec fn applied_damage(armor: u16, rolled: u16) -> int {
    if mitigated(armor, rolled) > DAMAGE_CAP {
        DAMAGE_CAP as int
    } else {
        mitigated(armor, rolled)
    }
}

/// The text announcing a dodged hit.
pub open spec fn dodges_text(name: Seq<char>) -> Seq<char> {
    name + " dodges."@
}

/// The text announcing a combatant's defeat.
pub open spec fn defeated_text(name: Seq<char>) -> Seq<char> {
    name + " is defeated."@
}

/// The text announcing a hit for `n` damage.
pub open spec fn damaged_text(name: Seq<char>, n: nat) -> Seq<char> {
    name + " takes "@ + decimal(n) + " damage."@
}

/// One side of the encounter: its display name and derived stats.
pub struct Entity {
    pub name: String,
    pub full_hp: u16,
    pub now_hp: u16,
    pub damage: u16,
    pub armor: u16,
    pub dodge: u16,
}

/// True when the two combatant values carry the same name and the same
/// constructed stats; only health may differ between them.
pub open spec fn same_stats(pre: Entity, post: Entity) -> bool {
    &&& post.name == pre.name
    &&& post.full_hp == pre.full_hp
    &&& post.damage == pre.damage
    &&& post.armor == pre.armor
    &&& post.dodge == pre.dodge
}

/// How one damage application relates the target before and after the hit,
/// the outcome text, and the two random draws that decided it.
pub open spec fn damage_outcome(
    pre: Entity,
    post: Entity,
    text: Seq<char>,
    nominal: u16,
    variance_roll: u16,
    dodge_roll: u16,
) -> bool {
    let applied = applied_damage(pre.armor, variance_roll);
    &&& variance_lo(nominal) <= variance_roll <= variance_hi(nominal)
    &&& dodge_roll <= 100
    &&& same_stats(pre, post)
    &&& if pre.dodge >= dodge_roll {
        &&& post.now_hp == pre.now_hp
        &&& text == dodges_text(pre.name@)
    } else {
        &&& post.now_hp == if pre.now_hp > applied {
            pre.now_hp - applied
        } else {
            0
        }
        &&& text == if post.now_hp == 0 {
            defeated_text(pre.name@)
        } else {
            damaged_text(pre.name@, applied as nat)
        }
    }
}

/// Draws the two random numbers one damage application consumes: a damage
/// amount inside the variance band around `damage`, and a dodge roll.
pub(crate) fn draw_damage_rolls(damage: u16) -> (r: (u16, u16))
    requires
        damage <= DAMAGE_CAP,
    ensures
        variance_lo(damage) <= r.0 <= variance_hi(damage),
        r.1 <= 100,
{
    proof {
        lemma_div_is_ordered((damage as int) * 80, (damage as int) * 120, 100);
        lemma_div_is_ordered((damage as int) * 120, 32767int * 120, 100);
    }
    let lo: u16 = ((damage as u32) * 80 / 100) as u16;
    let hi: u16 = ((damage as u32) * 120 / 100) as u16;
    let variance_roll = roll_between(lo, hi);
    let dodge_roll = roll_between(0, 100);
    (variance_roll, dodge_roll)
}

impl Entity {
    /// Well-formedness: health never exceeds its maximum, and every stat
    /// respects the cap applied at construction.
    pub open spec fn wf(self) -> bool {
        &&& self.now_hp <= self.full_hp
        &&& self.armor <= ARMOR_CAP
        &&& self.dodge <= DODGE_CAP
        &&& self.damage <= DAMAGE_CAP
    }

    /// Builds a combatant at full health, silently clamping each stat to its cap.
    pub fn new(name: String, full_hp: u16, damage: u16, armor: u16, dodge: u16) -> (e: Entity)
        ensures
            e.wf(),
            e.name == name,
            e.full_hp == full_hp,
            e.now_hp == full_hp,
            e.damage == clamped(damage, DAMAGE_CAP),
            e.armor == clamped(armor, ARMOR_CAP),
            e.dodge == clamped(dodge, DODGE_CAP),
    {
        let real_armor = if armor > ARMOR_CAP { ARMOR_CAP } else { armor };
        let real_dodge = if dodge > DODGE_CAP { DODGE_CAP } else { dodge };
        let real_damage = if damage > DAMAGE_CAP { DAMAGE_CAP } else { damage };
        Entity {
            name,
            full_hp,
            now_hp: full_hp,
            damage: real_damage,
            armor: real_armor,
            dodge: real_dodge,
        }
    }

    /// Applies one hit for `damage` nominal damage, with the two random draws
    /// given by the caller: first the rolled damage inside the variance band,
    /// then the dodge roll. Mitigates by armor, lets the target dodge when its
    /// dodge stat reaches the roll, floors health at zero, and reports the
    /// outcome.
    pub fn get_damage_with_rolls(
        &mut self,
        damage: u16,
        variance_roll: u16,
        dodge_roll: u16,
    ) -> (text: String)
        requires
            old(self).wf(),
            damage <= DAMAGE_CAP,
            variance_lo(damage) <= variance_roll <= variance_hi(damage),
            dodge_roll <= 100,
        ensures
            final(self).wf(),
            final(self).now_hp <= old(self).now_hp,
            damage_outcome(*old(self), *final(self), text@, damage, variance_roll, dodge_roll),
    {
        if self.dodge >= dodge_roll {
            return join_name_suffix(self.name.as_str(), " dodges.");
        }
        proof {
            assert((100 - self.armor as int) * (variance_roll as int) <= 100 * 65535)
                by (nonlinear_arith)
                requires
                    self.armor <= 100,
                    variance_roll <= 65535,
            ;
        }
        let rolled: u32 = (100 - self.armor as u32) * (variance_roll as u32) / 100;
        let real_damage: u16 = if rolled > DAMAGE_CAP as u32 {
            DAMAGE_CAP
        } else {
            rolled as u16
        };
        if self.now_hp > real_damage {
            self.now_hp = self.now_hp - real_damage;
        } else {
            self.now_hp = 0;
        }
        if self.now_hp == 0 {
            join_name_suffix(self.name.as_str(), " is defeated.")
        } else {
            join_name_num(self.name.as_str(), " takes ", real_damage, " damage.")
        }
    }

    /// Applies one hit for `damage` nominal damage, drawing the variance and
    /// dodge rolls itself. Whatever was drawn, health never rises, the
    /// constructed stats stay as they were, and the outcome relates the old
    /// and new state through some pair of in-range draws.
    pub fn get_damage(&mut self, damage: u16) -> (text: String)
        requires
            old(self).wf(),
            damage <= DAMAGE_CAP,
        ensures
            final(self).wf(),
            final(self).now_hp <= old(self).now_hp,
            same_stats(*old(self), *final(self)),
            exists|v: u16, d: u16|
                damage_outcome(*old(self), *final(self), text@, damage, v, d),
    {
        let (variance_roll, dodge_roll) = draw_damage_rolls(damage);
        let text = self.get_damage_with_rolls(damage, variance_roll, dodge_roll);
        proof {
            assert(damage_outcome(*old(self), *self, text@, damage, variance_roll, dodge_roll));
        }
        text
    }

    /// Remaining health as a whole percentage: exactly 100 at (or above) full
    /// health, otherwise rounded down.
    pub fn get_percent_hp(&self) -> (p: u16)
        ensures
            p <= 100,
            self.now_hp >= self.full_hp ==> p == 100,
            self.now_hp < self.full_hp ==> p == (self.now_hp as int) * 100 / (self.full_hp as int),
    {
        if self.now_hp >= self.full_hp {
            100
        } else {
            proof {
                assert((self.now_hp as int) * 100 / (self.full_hp as int) <= 100) by (nonlinear_arith)
                    requires
                        0 < self.full_hp,
                        self.now_hp < self.full_hp,
                ;
            }
            (((self.now_hp as u32) * 100) / (self.full_hp as u32)) as u16
        }
    }
}

/// A player intent. `Defense` and `Info` are deliberately inert placeholders:
/// they consume the turn without any other effect.
#[derive(Clone, Copy, Debug, PartialEq, Eq, Structural)]
pub enum Action {
    Hit,
    Defense,
    Info,
    Run,
}

/// The player-controlled side: a combatant plus the action menu and its
/// selection cursor.
pub struct Player {
    pub entity: Entity,
    pub actions: Vec<Action>,
    pub select: usize,
}

impl Player {
    /// Well-formedness: the combatant is well formed, the menu is never
    /// empty, and the cursor always points at one of its entries.
    pub open spec fn wf(self) -> bool {
        &&& self.entity.wf()
        &&& self.actions.len() >= 1
        &&& self.select < self.actions.len()
    }

    /// Builds the player side with the standard four-entry menu and the
    /// cursor on its first entry.
    pub fn new(name: String, full_hp: u16, damage: u16, armor: u16, dodge: u16) -> (p: Player)
        ensures
            p.wf(),
            p.entity.name == name,
            p.entity.full_hp == full_hp,
            p.entity.now_hp == full_hp,
            p.entity.damage == clamped(damage, DAMAGE_CAP),
            p.entity.armor == clamped(armor, ARMOR_CAP),
            p.entity.dodge == clamped(dodge, DODGE_CAP),
            p.actions@ == seq![Action::Hit, Action::Defense, Action::Info, Action::Run],
            p.select == 0,
    {
        let actions = vec![Action::Hit, Action::Defense, Action::Info, Action::Run];
        proof {
            assert(actions@ =~= seq![Action::Hit, Action::Defense, Action::Info, Action::Run]);
        }
        Player { entity: Entity::new(name, full_hp, damage, armor, dodge), actions, select: 0 }
    }

    /// Moves the selection cursor one entry up, stopping at the first entry.
    pub fn up(&mut self)
        ensures
            final(self).entity == old(self).entity,
            final(self).actions == old(self).actions,
            old(self).select > 0 ==> final(self).select == old(self).select - 1,
            old(self).select == 0 ==> final(self).select == 0,
            old(self).wf() ==> final(self).wf(),
    {
        if self.select > 0 {
            self.select = self.select - 1;
        }
    }

    /// Moves the selection cursor one entry down, stopping at the last entry.
    pub fn down(&mut self)
        requires
            old(self).wf(),
        ensures
            final(self).wf(),
            final(self).entity == old(self).entity,
            final(self).actions == old(self).actions,
            old(self).select + 1 < old(self).actions.len() ==> final(self).select == old(
                self,
            ).select + 1,
            old(self).select + 1 >= old(self).actions.len() ==> final(self).select == old(
                self,
            ).select,
    {
        if self.select < self.actions.len() - 1 {
            self.select = self.select + 1;
        }
    }

    /// The menu entry under the selection cursor.
    pub fn get_action(&self) -> (a: Action)
        requires
            self.wf(),
        ensures
            a == self.actions@[self.select as int],
    {
        self.actions[self.select]
    }
}

/// The computer-controlled side: a combatant alone.
pub struct Monster {
    pub entity: Entity,
}

impl Monster {
    /// Builds the monster side.
    pub fn new(name: String, full_hp: u16, damage: u16, armor: u16, dodge: u16) -> (m: Monster)
        ensures
            m.entity.wf(),
            m.entity.name == name,
            m.entity.full_hp == full_hp,
            m.entity.now_hp == full_hp,
            m.entity.damage == clamped(damage, DAMAGE_CAP),
            m.entity.armor == clamped(armor, ARMOR_CAP),
            m.entity.dodge == clamped(dodge, DODGE_CAP),
    {
        Monster { entity: Entity::new(name, full_hp, damage, armor, dodge) }
    }

    /// The monster's decision rule, a pure function of both sides' stats:
    /// flee when badly outmatched, otherwise attack.
    pub fn get_monster_action(&self, player: &Player) -> (a: Action)
        ensures
            a == (if (self.entity.full_hp as int) * 3 < player.entity.full_hp as int {
                Action::Run
            } else {
                Action::Hit
            }),
    {
        if (self.entity.full_hp as u32) * 3 < player.entity.full_hp as u32 {
            Action::Run
        } else {
            Action::Hit
        }
    }
}

} // verus!
