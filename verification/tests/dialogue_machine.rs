use game_scenes::combat::CombatData;
use game_scenes::defs::Scene;
use game_scenes::game_state::GameState;
use game_scenes::geometry::Point;
use game_scenes::scenes::eilish::{
    dialogue_line, update, update_with, wants_line, DIALOGUE_LINES, DIALOGUE_TICKS, EILISH_STAGE,
    TALK_RADIUS,
};

const POOL: [&str; 8] = [
    "Don't go to the dead space!",
    "It drains your health...",
    "I heard strange noises from there.",
    "Why are we here?",
    "Do you like my hair?",
    "Linux is complicated...",
    "Have you tried turning it off and on again?",
    "sudo rm -rf / ... just kidding!",
];

fn overworld(player: Point) -> GameState {
    GameState {
        scene: Scene::Desktop,
        current_stage: 4,
        player_pos: player,
        fade_alpha: 0,
        combat_data: CombatData::new(),
        eilish_pos: Point { x: 40_000, y: 30_000 },
        eilish_talking: false,
        eilish_dialogue_timer: 0,
        eilish_current_dialogue: String::new(),
    }
}

fn near() -> Point {
    Point { x: 45_000, y: 30_000 }
}

fn far() -> Point {
    Point { x: 52_000, y: 30_000 }
}

#[test]
fn constants_of_the_dialogue() {
    assert_eq!(TALK_RADIUS, 12_000);
    assert_eq!(DIALOGUE_TICKS, 300);
    assert_eq!(DIALOGUE_LINES, 8);
    assert_eq!(EILISH_STAGE, 4);
}

#[test]
fn pool_holds_the_eight_lines() {
    for (index, line) in POOL.iter().enumerate() {
        assert_eq!(dialogue_line(index), *line);
    }
}

#[test]
fn out_of_reach_the_key_does_nothing() {
    let mut state = overworld(far());
    let before = state.clone();
    assert!(!wants_line(true, &state));
    for _ in 0..10 {
        update(true, &mut state);
        assert_eq!(state, before);
    }
    for pick in 0..8 {
        update_with(true, &mut state, pick);
        assert_eq!(state, before);
    }
}

#[test]
fn reach_ends_at_120_pixels() {
    let mut state = overworld(Point { x: 40_000 + 12_000, y: 30_000 });
    update_with(true, &mut state, 0);
    assert!(!state.eilish_talking);
    let mut state = overworld(Point { x: 40_000 + 11_999, y: 30_000 });
    update_with(true, &mut state, 0);
    assert!(state.eilish_talking);
    // 72 and 96 pixels off make exactly 120.
    let mut state = overworld(Point { x: 40_000 - 7_200, y: 30_000 + 9_600 });
    update_with(true, &mut state, 0);
    assert!(!state.eilish_talking);
    let mut state = overworld(Point { x: 40_000 - 7_200, y: 30_000 + 9_599 });
    update_with(true, &mut state, 0);
    assert!(state.eilish_talking);
}

#[test]
fn interact_in_reach_opens_the_box() {
    for pick in 0..8usize {
        let mut state = overworld(near());
        assert!(wants_line(true, &state));
        assert!(!wants_line(false, &state));
        update_with(true, &mut state, pick);
        assert!(state.eilish_talking);
        assert_eq!(state.eilish_dialogue_timer, 300);
        assert_eq!(state.eilish_current_dialogue, POOL[pick]);
        assert_eq!(state.player_pos, near());
        assert_eq!(state.eilish_pos, Point { x: 40_000, y: 30_000 });
    }
}

#[test]
fn drawn_line_is_of_the_pool() {
    let mut seen = [false; 8];
    for _ in 0..400 {
        let mut state = overworld(near());
        update(true, &mut state);
        assert!(state.eilish_talking);
        assert_eq!(state.eilish_dialogue_timer, 300);
        assert_eq!(state.player_pos, near());
        assert_eq!(state.eilish_pos, Point { x: 40_000, y: 30_000 });
        let index = POOL.iter().position(|line| *line == state.eilish_current_dialogue);
        assert!(index.is_some());
        seen[index.unwrap()] = true;
    }
    assert!(seen.iter().filter(|hit| **hit).count() >= 2);
}

#[test]
fn without_the_key_nothing_opens() {
    let mut state = overworld(near());
    let before = state.clone();
    for _ in 0..50 {
        update(false, &mut state);
    }
    assert_eq!(state, before);
}

#[test]
fn box_closes_after_300_ticks() {
    let mut state = overworld(near());
    state.eilish_talking = true;
    state.eilish_dialogue_timer = 300;
    state.eilish_current_dialogue = POOL[3].to_string();
    for tick in 1..300u32 {
        update(false, &mut state);
        assert!(state.eilish_talking);
        assert_eq!(state.eilish_dialogue_timer, 300 - tick);
        assert_eq!(state.eilish_current_dialogue, POOL[3]);
    }
    update(false, &mut state);
    assert!(!state.eilish_talking);
    assert_eq!(state.eilish_dialogue_timer, 0);
    assert_eq!(state.eilish_current_dialogue, POOL[3]);
    for _ in 0..100 {
        update(false, &mut state);
        assert!(!state.eilish_talking);
        assert_eq!(state.eilish_current_dialogue, POOL[3]);
    }
}

#[test]
fn opened_box_closes_by_itself_and_opens_again() {
    let mut state = overworld(near());
    update_with(true, &mut state, 5);
    assert_eq!(state.eilish_dialogue_timer, 300);
    for tick in 1..300u32 {
        update_with(false, &mut state, 0);
        assert!(state.eilish_talking);
        assert_eq!(state.eilish_dialogue_timer, 300 - tick);
    }
    update_with(false, &mut state, 0);
    assert!(!state.eilish_talking);
    assert_eq!(state.eilish_dialogue_timer, 0);
    assert_eq!(state.eilish_current_dialogue, POOL[5]);
    update_with(true, &mut state, 1);
    assert!(state.eilish_talking);
    assert_eq!(state.eilish_dialogue_timer, 300);
    assert_eq!(state.eilish_current_dialogue, POOL[1]);
}

#[test]
fn line_stays_while_the_box_is_open() {
    let mut state = overworld(near());
    update_with(true, &mut state, 2);
    for pick in 0..8 {
        update_with(true, &mut state, pick);
        assert_eq!(state.eilish_current_dialogue, POOL[2]);
    }
    assert!(state.eilish_talking);
    assert_eq!(state.eilish_dialogue_timer, 292);
    assert!(!wants_line(true, &state));
}

#[test]
fn walking_away_closes_the_box_at_once() {
    let mut state = overworld(near());
    update_with(true, &mut state, 6);
    state.player_pos = far();
    update(false, &mut state);
    assert!(!state.eilish_talking);
    assert_eq!(state.eilish_dialogue_timer, 300);
    assert_eq!(state.eilish_current_dialogue, POOL[6]);

    let mut state = overworld(near());
    update_with(true, &mut state, 6);
    state.player_pos = far();
    update(true, &mut state);
    assert!(!state.eilish_talking);
    assert_eq!(state.eilish_current_dialogue, POOL[6]);
}

#[test]
fn box_with_no_time_left_closes() {
    let mut state = overworld(near());
    state.eilish_talking = true;
    state.eilish_dialogue_timer = 0;
    update(false, &mut state);
    assert!(!state.eilish_talking);
    assert_eq!(state.eilish_dialogue_timer, 0);
    state.eilish_talking = true;
    state.eilish_dialogue_timer = 1;
    update(false, &mut state);
    assert!(!state.eilish_talking);
    assert_eq!(state.eilish_dialogue_timer, 0);
    state.eilish_talking = true;
    state.eilish_dialogue_timer = 2;
    update(false, &mut state);
    assert!(state.eilish_talking);
    assert_eq!(state.eilish_dialogue_timer, 1);
}

#[test]
fn on_another_stage_nothing_happens() {
    for stage in [0u32, 3, 5, u32::MAX] {
        let mut state = overworld(near());
        state.current_stage = stage;
        state.eilish_talking = true;
        state.eilish_dialogue_timer = 10;
        let before = state.clone();
        assert!(!wants_line(true, &state));
        update(true, &mut state);
        update(false, &mut state);
        assert_eq!(state, before);
        state.eilish_talking = false;
        let before = state.clone();
        update(true, &mut state);
        assert_eq!(state, before);
    }
}

#[test]
fn dialogue_frame_leaves_combat_and_scene_alone() {
    let mut state = overworld(near());
    state.fade_alpha = 40;
    state.combat_data.sans_shake = 500;
    update(true, &mut state);
    assert_eq!(state.scene, Scene::Desktop);
    assert_eq!(state.fade_alpha, 40);
    assert_eq!(state.combat_data, {
        let mut data = CombatData::new();
        data.sans_shake = 500;
        data
    });
}

#[test]
fn far_corners_of_the_world_are_out_of_reach() {
    let a = Point { x: i32::MIN, y: i32::MIN };
    let b = Point { x: i32::MAX, y: i32::MAX };
    assert!(!a.is_within(&b, u32::MAX));
    assert!(!a.is_within(&b, 12_000));
    assert!(!a.is_within(&a, 0));
    assert!(a.is_within(&a, 1));
    assert!(b.is_within(&Point { x: i32::MAX - 3, y: i32::MAX - 4 }, 6));
    assert!(!b.is_within(&Point { x: i32::MAX - 3, y: i32::MAX - 4 }, 5));
}
