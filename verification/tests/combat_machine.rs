use game_scenes::combat::{
    CombatData, CombatInput, CombatTurn, ATTACK_TEXT, CHECK_TEXT, LAUGH_TEXT, OPENING_TEXT,
    SPARE_TEXT, TAUNT_TEXT,
};
use game_scenes::defs::Scene;
use game_scenes::game_state::GameState;
use game_scenes::geometry::Point;
use game_scenes::scenes::combat::update;

fn game() -> GameState {
    GameState {
        scene: Scene::Combat,
        current_stage: 1,
        player_pos: Point { x: 12_300, y: 45_600 },
        fade_alpha: 0,
        combat_data: CombatData::new(),
        eilish_pos: Point { x: 0, y: 0 },
        eilish_talking: false,
        eilish_dialogue_timer: 0,
        eilish_current_dialogue: String::new(),
    }
}

fn keys(left: bool, right: bool, confirm: bool) -> CombatInput {
    CombatInput { left, right, action: confirm, alt_action: false, submit: false }
}

fn in_phase(turn: CombatTurn) -> GameState {
    let mut state = game();
    state.combat_data.turn = turn;
    state
}

#[test]
fn new_encounter_opens_the_menu_on_fight() {
    let data = CombatData::new();
    assert_eq!(data.turn, CombatTurn::Menu);
    assert_eq!(data.menu_selection, 0);
    assert_eq!(data.sub_menu_selection, 0);
    assert_eq!(data.player_hp, 20);
    assert_eq!(data.player_max_hp, 20);
    assert_eq!(data.sans_hp, 1);
    assert_eq!(data.sans_max_hp, 1);
    assert_eq!(data.dialogue_text, OPENING_TEXT);
    assert_eq!(data.dialogue_text, "You feel like you're gonna have a bad time.");
    assert_eq!(data.action_text, "");
    assert_eq!(data.timer, 0);
    assert_eq!(data.sans_shake, 0);
}

#[test]
fn right_presses_stop_at_the_last_entry() {
    for presses in 0..6usize {
        let mut state = game();
        for _ in 0..presses {
            update(&keys(false, true, false), &mut state);
        }
        assert_eq!(state.combat_data.menu_selection, presses.min(2));
        assert_eq!(state.combat_data.turn, CombatTurn::Menu);
    }
}

#[test]
fn left_presses_stop_at_the_first_entry() {
    for presses in 0..6usize {
        let mut state = game();
        state.combat_data.menu_selection = 2;
        for _ in 0..presses {
            update(&keys(true, false, false), &mut state);
        }
        assert_eq!(state.combat_data.menu_selection, 2usize.saturating_sub(presses));
        assert_eq!(state.combat_data.turn, CombatTurn::Menu);
    }
}

#[test]
fn left_and_right_on_one_frame_move_left_first() {
    let mut state = game();
    update(&keys(true, true, false), &mut state);
    assert_eq!(state.combat_data.menu_selection, 1);
    update(&keys(true, true, false), &mut state);
    assert_eq!(state.combat_data.menu_selection, 1);
    state.combat_data.menu_selection = 2;
    update(&keys(true, true, false), &mut state);
    assert_eq!(state.combat_data.menu_selection, 2);
}

#[test]
fn cursor_moves_before_the_confirmation_counts() {
    let mut state = game();
    update(&keys(false, true, true), &mut state);
    assert_eq!(state.combat_data.menu_selection, 1);
    assert_eq!(state.combat_data.turn, CombatTurn::Acting);
}

#[test]
fn arrows_do_nothing_outside_the_menu() {
    for turn in [CombatTurn::Fighting, CombatTurn::Acting, CombatTurn::Mercy] {
        let mut state = in_phase(turn);
        state.combat_data.menu_selection = 1;
        update(&keys(true, false, false), &mut state);
        update(&keys(false, true, false), &mut state);
        assert_eq!(state.combat_data.menu_selection, 1);
        assert_eq!(state.combat_data.turn, turn);
    }
}

#[test]
fn confirming_fight_misses_and_shakes_the_enemy() {
    let mut data = CombatData::new();
    data.timer = 77;
    let leave = data.advance(&keys(false, false, true));
    assert!(!leave);
    assert_eq!(data.turn, CombatTurn::Fighting);
    assert_eq!(data.sans_shake, 1000);
    assert_eq!(data.timer, 0);
    assert_eq!(data.action_text, ATTACK_TEXT);
    assert_eq!(data.action_text, "You attacked Sans... MISS!");
    assert!(data.action_text.contains("MISS"));
    assert_eq!(data.sans_hp, 1);
    assert_eq!(data.player_hp, 20);
    assert_eq!(data.dialogue_text, OPENING_TEXT);
}

#[test]
fn frame_that_starts_the_attack_ends_with_the_full_shake() {
    let none = CombatInput::none();
    for input in [
        CombatInput { action: true, ..none },
        CombatInput { alt_action: true, ..none },
        CombatInput { submit: true, ..none },
    ] {
        let mut state = game();
        update(&input, &mut state);
        assert_eq!(state.combat_data.turn, CombatTurn::Fighting);
        assert_eq!(state.combat_data.sans_shake, 1000);
        assert!(state.combat_data.action_text.contains("MISS"));
        assert_eq!(state.combat_data.action_text, "You attacked Sans... MISS!");
        assert_eq!(state.combat_data.timer, 0);
        assert_eq!(state.combat_data.menu_selection, 0);
        assert_eq!(state.combat_data.player_hp, 20);
        assert_eq!(state.combat_data.sans_hp, 1);
        assert_eq!(state.scene, Scene::Combat);
    }
}

#[test]
fn attack_on_a_shaking_enemy_shakes_it_in_full_again() {
    let mut state = game();
    state.combat_data.sans_shake = 300;
    update(&keys(false, false, true), &mut state);
    assert_eq!(state.combat_data.sans_shake, 1000);
    update(&CombatInput::none(), &mut state);
    assert_eq!(state.combat_data.sans_shake, 950);
}

#[test]
fn each_confirm_key_confirms() {
    let none = CombatInput::none();
    assert!(!none.confirm());
    assert!(!none.left && !none.right);
    for input in [
        CombatInput { action: true, ..none },
        CombatInput { alt_action: true, ..none },
        CombatInput { submit: true, ..none },
        CombatInput { action: true, alt_action: true, submit: true, ..none },
    ] {
        assert!(input.confirm());
        let mut state = game();
        update(&input, &mut state);
        assert_eq!(state.combat_data.turn, CombatTurn::Fighting);
    }
    assert!(!CombatInput { left: true, right: true, ..none }.confirm());
}

#[test]
fn three_keys_at_once_advance_one_phase_only() {
    let mut state = game();
    let all = CombatInput { left: false, right: false, action: true, alt_action: true, submit: true };
    update(&all, &mut state);
    assert_eq!(state.combat_data.turn, CombatTurn::Fighting);
}

#[test]
fn confirming_act_shows_the_check() {
    let mut state = game();
    state.combat_data.menu_selection = 1;
    state.combat_data.timer = 9;
    update(&keys(false, false, true), &mut state);
    assert_eq!(state.combat_data.turn, CombatTurn::Acting);
    assert_eq!(
        state.combat_data.action_text,
        "Check: Sans 1 ATK 1 DEF.\nThe easiest enemy. Can only deal 1 damage."
    );
    assert_eq!(state.combat_data.action_text, CHECK_TEXT);
    assert_eq!(state.combat_data.sans_shake, 0);
    assert_eq!(state.combat_data.timer, 9);
}

#[test]
fn confirming_mercy_spares_the_enemy() {
    let mut state = game();
    state.combat_data.menu_selection = 2;
    update(&keys(false, false, true), &mut state);
    assert_eq!(state.combat_data.turn, CombatTurn::Mercy);
    assert_eq!(state.combat_data.action_text, "You spared Sans.");
    assert_eq!(state.combat_data.action_text, SPARE_TEXT);
    assert_eq!(state.scene, Scene::Combat);
    assert_eq!(state.player_pos, Point { x: 12_300, y: 45_600 });
}

#[test]
fn confirming_off_the_menu_moves_nothing() {
    let mut state = game();
    state.combat_data.menu_selection = 7;
    let before = state.clone();
    update(&keys(false, false, true), &mut state);
    assert_eq!(state, before);
    update(&keys(false, true, false), &mut state);
    assert_eq!(state.combat_data.menu_selection, 7);
    update(&keys(true, false, false), &mut state);
    assert_eq!(state.combat_data.menu_selection, 6);
}

#[test]
fn confirmation_after_fighting_starts_the_enemy_turn() {
    let mut state = in_phase(CombatTurn::Fighting);
    state.combat_data.timer = 55;
    update(&keys(false, false, true), &mut state);
    assert_eq!(state.combat_data.turn, CombatTurn::SansTurn);
    assert_eq!(state.combat_data.timer, 0);
    assert_eq!(state.combat_data.dialogue_text, "heh heh heh...");
    assert_eq!(state.combat_data.dialogue_text, LAUGH_TEXT);
}

#[test]
fn confirmation_after_acting_starts_the_enemy_turn() {
    let mut state = in_phase(CombatTurn::Acting);
    state.combat_data.timer = 55;
    update(&keys(false, false, true), &mut state);
    assert_eq!(state.combat_data.turn, CombatTurn::SansTurn);
    assert_eq!(state.combat_data.timer, 0);
    assert_eq!(state.combat_data.dialogue_text, LAUGH_TEXT);
}

#[test]
fn outcome_stays_until_confirmed() {
    for turn in [CombatTurn::Fighting, CombatTurn::Acting, CombatTurn::Mercy] {
        let mut state = in_phase(turn);
        let before = state.clone();
        for _ in 0..500 {
            update(&CombatInput::none(), &mut state);
        }
        assert_eq!(state, before);
    }
}

#[test]
fn enemy_turn_lasts_120_ticks() {
    let mut state = in_phase(CombatTurn::Fighting);
    update(&keys(false, false, true), &mut state);
    for tick in 1..=120u32 {
        update(&CombatInput::none(), &mut state);
        assert_eq!(state.combat_data.turn, CombatTurn::SansTurn);
        assert_eq!(state.combat_data.timer, tick);
        assert_eq!(state.combat_data.dialogue_text, LAUGH_TEXT);
    }
    update(&CombatInput::none(), &mut state);
    assert_eq!(state.combat_data.turn, CombatTurn::Menu);
    assert_eq!(state.combat_data.timer, 121);
    assert_eq!(state.combat_data.dialogue_text, "You feel your sins crawling on your back.");
    assert_eq!(state.combat_data.dialogue_text, TAUNT_TEXT);
}

#[test]
fn keys_do_not_shorten_the_enemy_turn() {
    let mut state = in_phase(CombatTurn::SansTurn);
    let all = CombatInput { left: true, right: true, action: true, alt_action: true, submit: true };
    for _ in 0..120 {
        update(&all, &mut state);
    }
    assert_eq!(state.combat_data.turn, CombatTurn::SansTurn);
    assert_eq!(state.combat_data.menu_selection, 0);
    update(&all, &mut state);
    assert_eq!(state.combat_data.turn, CombatTurn::Menu);
    assert_eq!(state.combat_data.menu_selection, 0);
}

#[test]
fn full_tick_counter_stays_full() {
    let mut state = in_phase(CombatTurn::SansTurn);
    state.combat_data.timer = u32::MAX;
    update(&CombatInput::none(), &mut state);
    assert_eq!(state.combat_data.timer, u32::MAX);
    assert_eq!(state.combat_data.turn, CombatTurn::Menu);
}

#[test]
fn menu_loop_comes_round() {
    let mut state = game();
    update(&keys(false, true, false), &mut state);
    update(&keys(false, false, true), &mut state);
    assert_eq!(state.combat_data.turn, CombatTurn::Acting);
    update(&keys(false, false, true), &mut state);
    assert_eq!(state.combat_data.turn, CombatTurn::SansTurn);
    for _ in 0..121 {
        update(&CombatInput::none(), &mut state);
    }
    assert_eq!(state.combat_data.turn, CombatTurn::Menu);
    assert_eq!(state.combat_data.menu_selection, 1);
    assert_eq!(state.combat_data.player_hp, 20);
    assert_eq!(state.combat_data.sans_hp, 1);
}

#[test]
fn confirmation_in_mercy_leaves_combat() {
    let mut state = in_phase(CombatTurn::Mercy);
    update(&keys(false, false, true), &mut state);
    assert_eq!(state.scene, Scene::Desktop);
    assert_eq!(state.player_pos, Point { x: 70_000, y: 45_600 });
    assert_eq!(state.combat_data.turn, CombatTurn::Mercy);
}

#[test]
fn only_mercy_leaves_combat() {
    for turn in [
        CombatTurn::Menu,
        CombatTurn::Fighting,
        CombatTurn::Acting,
        CombatTurn::SansTurn,
    ] {
        for selection in 0..3 {
            let mut state = in_phase(turn);
            state.combat_data.menu_selection = selection;
            update(&keys(false, false, true), &mut state);
            assert_eq!(state.scene, Scene::Combat);
            assert_eq!(state.player_pos, Point { x: 12_300, y: 45_600 });
        }
    }
    let mut data = CombatData::new();
    data.turn = CombatTurn::Mercy;
    assert!(!data.advance(&keys(true, true, false)));
    assert!(data.advance(&keys(false, false, true)));
}

#[test]
fn shake_decays_to_zero_and_rests() {
    let mut state = game();
    update(&keys(false, false, true), &mut state);
    assert_eq!(state.combat_data.sans_shake, 1000);
    for frame in 1..=20u32 {
        update(&CombatInput::none(), &mut state);
        assert_eq!(state.combat_data.sans_shake, 1000 - 50 * frame);
    }
    assert_eq!(state.combat_data.sans_shake, 0);
    for _ in 0..10 {
        update(&CombatInput::none(), &mut state);
        assert_eq!(state.combat_data.sans_shake, 0);
    }
}

#[test]
fn shake_below_one_step_drops_to_zero() {
    let mut data = CombatData::new();
    data.sans_shake = 30;
    data.decay_shake();
    assert_eq!(data.sans_shake, 0);
    data.sans_shake = 50;
    data.decay_shake();
    assert_eq!(data.sans_shake, 0);
    data.sans_shake = 51;
    data.decay_shake();
    assert_eq!(data.sans_shake, 1);
    data.sans_shake = u32::MAX;
    data.decay_shake();
    assert_eq!(data.sans_shake, u32::MAX - 50);
}

#[test]
fn shake_decays_in_every_phase() {
    for turn in [
        CombatTurn::Menu,
        CombatTurn::Fighting,
        CombatTurn::Acting,
        CombatTurn::Mercy,
        CombatTurn::SansTurn,
    ] {
        let mut state = in_phase(turn);
        state.combat_data.sans_shake = 400;
        update(&CombatInput::none(), &mut state);
        assert_eq!(state.combat_data.sans_shake, 350);
    }
}

#[test]
fn fade_clears_by_two_hundredths_a_frame() {
    let mut state = game();
    state.fade_alpha = 100;
    for frame in 1..=50u32 {
        update(&CombatInput::none(), &mut state);
        assert_eq!(state.fade_alpha, 100 - 2 * frame);
    }
    update(&CombatInput::none(), &mut state);
    assert_eq!(state.fade_alpha, 0);
    state.fade_alpha = 1;
    update(&CombatInput::none(), &mut state);
    assert_eq!(state.fade_alpha, 0);
    state.fade_alpha = 3;
    update(&CombatInput::none(), &mut state);
    assert_eq!(state.fade_alpha, 1);
}

#[test]
fn combat_frame_leaves_the_dialogue_machine_alone() {
    let mut state = game();
    state.eilish_talking = true;
    state.eilish_dialogue_timer = 200;
    state.eilish_current_dialogue = "Why are we here?".to_string();
    state.current_stage = 4;
    update(&keys(false, false, true), &mut state);
    assert!(state.eilish_talking);
    assert_eq!(state.eilish_dialogue_timer, 200);
    assert_eq!(state.eilish_current_dialogue, "Why are we here?");
    assert_eq!(state.current_stage, 4);
    assert_eq!(state.eilish_pos, Point { x: 0, y: 0 });
}
