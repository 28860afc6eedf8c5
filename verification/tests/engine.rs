use combat_core::combat::{Combat, Step, StepInfo};
use combat_core::entity::{Action, Entity, Monster, Player};

fn hero() -> Player {
    Player::new("Held".to_string(), 100, 10, 10, 1)
}

fn brute() -> Monster {
    Monster::new("Ugly Bastard".to_string(), 50, 10, 10, 1)
}

#[test]
fn entity_caps_are_applied() {
    let e = Entity::new("A".to_string(), 100, 60000, 80, 50);
    assert_eq!(e.damage, u16::MAX / 2);
    assert_eq!(e.armor, 50);
    assert_eq!(e.dodge, 20);
}

#[test]
fn entity_starts_at_full_health() {
    let e = Entity::new("A".to_string(), 321, 10, 10, 10);
    assert_eq!(e.now_hp, 321);
    assert_eq!(e.full_hp, 321);
}

#[test]
fn entity_keeps_stats_below_caps() {
    let e = Entity::new("A".to_string(), 100, 7, 13, 4);
    assert_eq!(e.damage, 7);
    assert_eq!(e.armor, 13);
    assert_eq!(e.dodge, 4);
}

#[test]
fn health_percent_is_100_at_full() {
    let e = Entity::new("A".to_string(), 250, 10, 0, 0);
    assert_eq!(e.get_percent_hp(), 100);
}

#[test]
fn health_percent_rounds_down() {
    let mut e = Entity::new("A".to_string(), 3, 10, 0, 0);
    e.now_hp = 1;
    assert_eq!(e.get_percent_hp(), 33);
    let mut big = Entity::new("A".to_string(), 1000, 10, 0, 0);
    big.now_hp = 999;
    assert_eq!(big.get_percent_hp(), 99);
}

#[test]
fn health_percent_with_zero_max_is_100() {
    let e = Entity::new("A".to_string(), 0, 10, 0, 0);
    assert_eq!(e.get_percent_hp(), 100);
}

#[test]
fn damage_at_midpoint_is_mitigated_exactly() {
    let mut e = Entity::new("A".to_string(), 100, 5, 50, 0);
    let text = e.get_damage_with_rolls(20, 20, 100);
    assert_eq!(e.now_hp, 90);
    assert_eq!(text, "A takes 10 damage.");
}

#[test]
fn dodge_comparison_is_inclusive() {
    let mut e = Entity::new("A".to_string(), 100, 5, 50, 20);
    let text = e.get_damage_with_rolls(20, 20, 20);
    assert_eq!(e.now_hp, 100);
    assert_eq!(text, "A dodges.");
}

#[test]
fn roll_just_above_dodge_stat_hits() {
    let mut e = Entity::new("A".to_string(), 100, 5, 50, 20);
    let text = e.get_damage_with_rolls(20, 20, 21);
    assert_eq!(e.now_hp, 90);
    assert_eq!(text, "A takes 10 damage.");
}

#[test]
fn health_floors_at_zero_and_reports_defeat() {
    let mut e = Entity::new("A".to_string(), 100, 5, 0, 0);
    e.now_hp = 5;
    let text = e.get_damage_with_rolls(20, 20, 100);
    assert_eq!(e.now_hp, 0);
    assert_eq!(text, "A is defeated.");
}

#[test]
fn multi_digit_damage_amounts_are_spelled_out() {
    let mut e = Entity::new("A".to_string(), 60000, 20000, 0, 0);
    let text = e.get_damage_with_rolls(12345, 12345, 100);
    assert_eq!(e.now_hp, 60000 - 12345);
    assert_eq!(text, "A takes 12345 damage.");
}

#[test]
fn applied_damage_is_clamped_to_the_cap() {
    let mut e = Entity::new("A".to_string(), u16::MAX, u16::MAX, 0, 0);
    assert_eq!(e.damage, u16::MAX / 2);
    // The top of the variance band around the capped damage exceeds the cap;
    // the applied amount is clamped back to it.
    let text = e.get_damage_with_rolls(32767, 39320, 100);
    assert_eq!(e.now_hp, u16::MAX - 32767);
    assert_eq!(text, "A takes 32767 damage.");
}

#[test]
fn drawn_damage_stays_inside_the_variance_band() {
    let mut e = Entity::new("A".to_string(), 100, 5, 0, 0);
    let _text = e.get_damage(10);
    // The band around 10 is 8..=12, so at most 12 damage is applied.
    assert!(e.now_hp >= 88);
    assert!(e.now_hp <= 100);
    assert_eq!(e.full_hp, 100);
    assert_eq!(e.armor, 0);
}

#[test]
fn menu_cursor_stops_at_both_ends() {
    let mut p = hero();
    assert_eq!(p.select, 0);
    p.up();
    assert_eq!(p.select, 0);
    p.down();
    assert_eq!(p.select, 1);
    p.down();
    p.down();
    assert_eq!(p.select, 3);
    p.down();
    assert_eq!(p.select, 3);
    p.up();
    assert_eq!(p.select, 2);
}

#[test]
fn menu_returns_the_selected_action() {
    let mut p = hero();
    assert_eq!(p.get_action(), Action::Hit);
    p.down();
    assert_eq!(p.get_action(), Action::Defense);
    p.down();
    assert_eq!(p.get_action(), Action::Info);
    p.down();
    assert_eq!(p.get_action(), Action::Run);
}

#[test]
fn outmatched_monster_flees() {
    let p = Player::new("P".to_string(), 100, 10, 10, 1);
    let m = Monster::new("M".to_string(), 30, 10, 10, 10);
    assert_eq!(m.get_monster_action(&p), Action::Run);
}

#[test]
fn evenly_matched_monster_attacks() {
    let p = Player::new("P".to_string(), 100, 10, 10, 1);
    let m = Monster::new("M".to_string(), 40, 10, 10, 10);
    assert_eq!(m.get_monster_action(&p), Action::Hit);
}

#[test]
fn first_turn_roll_boundary() {
    let c = Combat::new_with_roll(hero(), brute(), 29);
    assert_eq!(c.step_info.step, Step::Monster);
    assert_eq!(c.text, "Ugly Bastard goes first.");
    let c2 = Combat::new_with_roll(hero(), brute(), 30);
    assert_eq!(c2.step_info.step, Step::Player);
    assert_eq!(c2.text, "Held goes first.");
}

#[test]
fn initial_turn_draw_names_one_of_the_sides() {
    let c = Combat::new(hero(), brute());
    match c.step_info.step {
        Step::Monster => assert_eq!(c.text, "Ugly Bastard goes first."),
        Step::Player => assert_eq!(c.text, "Held goes first."),
    }
    assert_eq!(c.step_info.counter, 0);
}

#[test]
fn step_info_draw_is_one_of_the_sides() {
    let s = StepInfo::new();
    assert!(s.step == Step::Player || s.step == Step::Monster);
    assert_eq!(s.counter, 0);
}

#[test]
fn player_flee_short_circuits_the_turn() {
    let mut c = Combat::new_with_roll(hero(), brute(), 100);
    assert_eq!(c.step_info.step, Step::Player);
    c.resolve_player_action_with_rolls(Action::Run, 10, 100);
    assert_eq!(c.player.entity.now_hp, 0);
    assert!(c.is_fin());
    assert_eq!(c.step_info.step, Step::Player);
    assert_eq!(c.text, "Held flees.");
    assert_eq!(c.monster.entity.now_hp, 50);
}

#[test]
fn monster_flee_short_circuits_the_turn() {
    let p = Player::new("P".to_string(), 100, 10, 10, 1);
    let m = Monster::new("M".to_string(), 30, 10, 10, 10);
    let mut c = Combat::new_with_roll(p, m, 0);
    assert_eq!(c.step_info.step, Step::Monster);
    c.resolve_monster_turn_with_rolls(10, 100);
    assert_eq!(c.monster.entity.now_hp, 0);
    assert!(c.is_fin());
    assert_eq!(c.step_info.step, Step::Monster);
    assert_eq!(c.text, "M flees.");
    assert_eq!(c.player.entity.now_hp, 100);
}

#[test]
fn finished_encounter_refuses_every_action() {
    let mut c = Combat::new_with_roll(hero(), brute(), 100);
    c.resolve_player_action_with_rolls(Action::Run, 10, 100);
    assert!(c.is_fin());
    let text_before = c.text.clone();
    let monster_hp = c.monster.entity.now_hp;
    c.resolve_player_action_with_rolls(Action::Hit, 10, 100);
    c.resolve_monster_turn_with_rolls(10, 100);
    c.resolve_player_action(Action::Hit);
    c.resolve_monster_turn();
    assert_eq!(c.text, text_before);
    assert_eq!(c.monster.entity.now_hp, monster_hp);
    assert_eq!(c.player.entity.now_hp, 0);
    assert_eq!(c.step_info.step, Step::Player);
}

#[test]
fn off_turn_calls_are_refused() {
    let mut c = Combat::new_with_roll(hero(), brute(), 100);
    assert_eq!(c.step_info.step, Step::Player);
    let text_before = c.text.clone();
    c.resolve_monster_turn_with_rolls(10, 100);
    assert_eq!(c.player.entity.now_hp, 100);
    assert_eq!(c.text, text_before);
    assert_eq!(c.step_info.step, Step::Player);
}

#[test]
fn non_flee_actions_alternate_the_turn() {
    let mut c = Combat::new_with_roll(hero(), brute(), 100);
    assert_eq!(c.step_info.step, Step::Player);
    c.resolve_player_action_with_rolls(Action::Defense, 10, 100);
    assert_eq!(c.step_info.step, Step::Monster);
    c.resolve_monster_turn_with_rolls(10, 100);
    assert_eq!(c.step_info.step, Step::Player);
    c.resolve_player_action_with_rolls(Action::Info, 10, 100);
    assert_eq!(c.step_info.step, Step::Monster);
    c.resolve_monster_turn_with_rolls(10, 100);
    assert_eq!(c.step_info.step, Step::Player);
    c.resolve_player_action_with_rolls(Action::Hit, 10, 100);
    assert_eq!(c.step_info.step, Step::Monster);
}

#[test]
fn inert_actions_consume_the_turn_without_effect() {
    let mut c = Combat::new_with_roll(hero(), brute(), 100);
    let text_before = c.text.clone();
    c.resolve_player_action_with_rolls(Action::Defense, 10, 100);
    assert_eq!(c.player.entity.now_hp, 100);
    assert_eq!(c.monster.entity.now_hp, 50);
    assert_eq!(c.text, text_before);
    assert_eq!(c.step_info.step, Step::Monster);
}

#[test]
fn fixed_rolls_make_the_encounter_deterministic() {
    let mut c = Combat::new_with_roll(hero(), brute(), 100);
    c.resolve_player_action_with_rolls(Action::Hit, 10, 100);
    // 10 nominal damage, 10% armor: exactly 9 applied.
    assert_eq!(c.monster.entity.now_hp, 41);
    assert_eq!(c.text, "Ugly Bastard takes 9 damage.");
    c.resolve_monster_turn_with_rolls(10, 100);
    assert_eq!(c.player.entity.now_hp, 91);
    assert_eq!(c.text, "Held takes 9 damage.");
}

#[test]
fn full_encounter_with_fixed_rolls() {
    let mut c = Combat::new_with_roll(hero(), brute(), 100);
    assert_eq!(c.step_info.step, Step::Player);
    // Five full rounds: each hit applies exactly 9 after 10% mitigation.
    for round in 1..=5u16 {
        c.resolve_player_action_with_rolls(Action::Hit, 10, 100);
        assert_eq!(c.monster.entity.now_hp, 50 - 9 * round);
        assert!(!c.is_fin());
        assert_eq!(c.step_info.step, Step::Monster);
        c.resolve_monster_turn_with_rolls(10, 100);
        assert_eq!(c.player.entity.now_hp, 100 - 9 * round);
        assert_eq!(c.step_info.step, Step::Player);
    }
    assert_eq!(c.monster.entity.now_hp, 5);
    // The sixth attack fells the monster; the turn never changes hands again.
    c.resolve_player_action_with_rolls(Action::Hit, 10, 100);
    assert_eq!(c.monster.entity.now_hp, 0);
    assert!(c.is_fin());
    assert_eq!(c.text, "Ugly Bastard is defeated.");
    assert_eq!(c.step_info.step, Step::Player);
    assert_eq!(c.player.entity.now_hp, 55);
}

#[test]
fn direct_hit_helpers_record_the_outcome() {
    let mut c = Combat::new_with_roll(hero(), brute(), 100);
    c.hit_monster_with_rolls(10, 100);
    assert_eq!(c.monster.entity.now_hp, 41);
    assert_eq!(c.text, "Ugly Bastard takes 9 damage.");
    c.hit_player_with_rolls(10, 20);
    // The player's dodge stat is 1; a roll of 20 is a hit.
    assert_eq!(c.player.entity.now_hp, 91);
    c.toggle_step();
    assert_eq!(c.step_info.step, Step::Monster);
    c.run_away();
    assert_eq!(c.monster.entity.now_hp, 0);
    assert_eq!(c.text, "Ugly Bastard flees.");
    assert!(c.is_fin());
}
