use vstd::prelude::*;
use vstd::string::StringExecFns;
use crate::chance::uniform;
use crate::combat::{CombatData, CombatView};
use crate::defs::{SCREEN_HEIGHT, SCREEN_WIDTH};
use crate::geometry::ScreenPoint;
use crate::render::{plan_view, put, Color, DrawCommand, DrawOp, Rect, Texture, TextureSize};
use crate::text::{decimal, decimal_text};
use crate::combat::{
    CombatInput, CombatTurn, MENU_MERCY, SANS_TURN_TICKS, SHAKE_DECAY, SHAKE_ON_HIT,
};
use crate::counters::lowered;
use crate::defs::Scene;
use crate::game_state::{GameState, GameView};
use crate::geometry::Point;

verus! {

/// What the fade overlay loses on each frame: two hundredths of full opacity.
pub const FADE_STEP: u32 = 2;

/// Where the protagonist is put when the encounter ends: 700 pixels from the
/// left, clear of the place that starts it.
pub const EXIT_X: i32 = 70_000;

/// The game after one frame of the combat scene.
///
/// The overlay fades by one step and the shake of the enemy sprite decays by
/// one tick. Then the encounter makes its transition, so that the frame that
/// starts an attack ends with the full shake. If the transition ends the
/// encounter, the overworld becomes the scene and the protagonist is moved
/// to `EXIT_X`.
pub open spec fn frame(game: GameView, input: CombatInput) -> GameView {
    let leaves = game.combat_data.leaves(input);
    GameView {
        fade_alpha: lowered(game.fade_alpha, FADE_STEP),
        scene: if leaves { Scene::Desktop } else { game.scene },
        player_pos: if leaves {
            Point { x: EXIT_X, y: game.player_pos.y }
        } else {
            game.player_pos
        },
        combat_data: game.combat_data.settled().next(input),
        ..game
    }
}

/// Runs one frame of the combat scene on the keys that went down in it.
pub fn update(input: &CombatInput, state: &mut GameState)
    ensures
        final(state)@ == frame(old(state)@, *input),
{
    if state.fade_alpha > FADE_STEP {
        state.fade_alpha -= FADE_STEP;
    } else {
        state.fade_alpha = 0;
    }
    state.combat_data.decay_shake();
    let leave = state.combat_data.advance(input);
    if leave {
        state.scene = Scene::Desktop;
        state.player_pos.x = EXIT_X;
    }
}

/// The game after a run of frames, one for each input, the first one first.
pub open spec fn run(game: GameView, inputs: Seq<CombatInput>) -> GameView
    decreases inputs.len(),
{
    if inputs.len() == 0 {
        game
    } else {
        frame(run(game, inputs.drop_last()), inputs.last())
    }
}

/// Frames on which only Right went down.
pub open spec fn only_right(inputs: Seq<CombatInput>) -> bool {
    forall|i: int|
        0 <= i < inputs.len() ==> {
            &&& (#[trigger] inputs[i]).right
            &&& !inputs[i].left
            &&& !inputs[i].confirms()
        }
}

/// Frames on which only Left went down.
pub open spec fn only_left(inputs: Seq<CombatInput>) -> bool {
    forall|i: int|
        0 <= i < inputs.len() ==> {
            &&& (#[trigger] inputs[i]).left
            &&& !inputs[i].right
            &&& !inputs[i].confirms()
        }
}

/// Frames without a confirmation.
pub open spec fn unconfirmed(inputs: Seq<CombatInput>) -> bool {
    forall|i: int| 0 <= i < inputs.len() ==> !(#[trigger] inputs[i]).confirms()
}

/// Pressing Right `n` times in the menu moves the cursor up by `n` entries,
/// but not past the last one: from the first entry it stands on `min(n, 2)`.
pub proof fn lemma_right_presses(game: GameView, inputs: Seq<CombatInput>)
    requires
        game.combat_data.turn == CombatTurn::Menu,
        game.combat_data.menu_selection <= MENU_MERCY,
        only_right(inputs),
    ensures
        run(game, inputs).combat_data.turn == CombatTurn::Menu,
        run(game, inputs).combat_data.menu_selection == if game.combat_data.menu_selection
            + inputs.len() <= MENU_MERCY {
            game.combat_data.menu_selection + inputs.len()
        } else {
            MENU_MERCY as int
        },
    decreases inputs.len(),
{
    if inputs.len() > 0 {
        lemma_right_presses(game, inputs.drop_last());
    }
}

/// Pressing Left `n` times in the menu moves the cursor down by `n` entries,
/// but not past the first one: from the last entry it stands on
/// `max(2 - n, 0)`.
pub proof fn lemma_left_presses(game: GameView, inputs: Seq<CombatInput>)
    requires
        game.combat_data.turn == CombatTurn::Menu,
        only_left(inputs),
    ensures
        run(game, inputs).combat_data.turn == CombatTurn::Menu,
        run(game, inputs).combat_data.menu_selection == if game.combat_data.menu_selection
            >= inputs.len() {
            game.combat_data.menu_selection - inputs.len()
        } else {
            0
        },
    decreases inputs.len(),
{
    if inputs.len() > 0 {
        lemma_left_presses(game, inputs.drop_last());
    }
}

/// A confirmation in the menu with the cursor on Fight starts an attack:
/// the frame ends in `Fighting` with the shake at `SHAKE_ON_HIT`, the tick
/// count at zero, the text of the miss on display, and the cursor and the
/// health of both sides as they were.
pub proof fn lemma_fight_frame(game: GameView, input: CombatInput)
    requires
        game.combat_data.turn == CombatTurn::Menu,
        game.combat_data.menu_selection == 0,
        input.confirms(),
        !input.right,
    ensures
        frame(game, input).combat_data.turn == CombatTurn::Fighting,
        frame(game, input).combat_data.sans_shake == SHAKE_ON_HIT,
        frame(game, input).combat_data.timer == 0,
        frame(game, input).combat_data.action_text == crate::combat::ATTACK_TEXT@,
        frame(game, input).combat_data.menu_selection == 0,
        frame(game, input).combat_data.player_hp == game.combat_data.player_hp,
        frame(game, input).combat_data.sans_hp == game.combat_data.sans_hp,
        frame(game, input).scene == game.scene,
{
}

/// A confirmation while the outcome of an attack is shown hands the turn to
/// the enemy, whose tick count starts at zero.
pub proof fn lemma_fighting_confirmed(game: GameView, input: CombatInput)
    requires
        game.combat_data.turn == CombatTurn::Fighting,
        input.confirms(),
    ensures
        frame(game, input).combat_data.turn == CombatTurn::SansTurn,
        frame(game, input).combat_data.timer == 0,
        frame(game, input).scene == game.scene,
{
}

/// The enemy's turn, begun with a tick count of zero, lasts through 120
/// frames, whatever keys go down, and gives way to the menu on frame 121.
pub proof fn lemma_sans_turn_length(game: GameView, inputs: Seq<CombatInput>)
    requires
        game.combat_data.turn == CombatTurn::SansTurn,
        game.combat_data.timer == 0,
        inputs.len() <= SANS_TURN_TICKS + 1,
    ensures
        run(game, inputs).combat_data.timer == inputs.len(),
        inputs.len() <= SANS_TURN_TICKS ==> run(game, inputs).combat_data.turn
            == CombatTurn::SansTurn,
        inputs.len() == SANS_TURN_TICKS + 1 ==> run(game, inputs).combat_data.turn
            == CombatTurn::Menu,
    decreases inputs.len(),
{
    if inputs.len() > 0 {
        lemma_sans_turn_length(game, inputs.drop_last());
    }
}

/// A confirmation in `Mercy` ends the encounter: the overworld becomes the
/// scene and the protagonist stands at `EXIT_X`. No other frame touches the
/// scene or the protagonist, so each such confirmation signals the exit once.
pub proof fn lemma_mercy_exit(game: GameView, input: CombatInput)
    ensures
        game.combat_data.turn == CombatTurn::Mercy && input.confirms() ==> {
            &&& frame(game, input).scene == Scene::Desktop
            &&& frame(game, input).player_pos == (Point { x: EXIT_X, y: game.player_pos.y })
        },
        !(game.combat_data.turn == CombatTurn::Mercy && input.confirms()) ==> {
            &&& frame(game, input).scene == game.scene
            &&& frame(game, input).player_pos == game.player_pos
        },
{
}

/// As long as no attack starts, the shake loses half a pixel on each frame
/// until it is zero, where it stays: it is never negative.
pub proof fn lemma_shake_decay(game: GameView, inputs: Seq<CombatInput>)
    requires
        unconfirmed(inputs),
    ensures
        run(game, inputs).combat_data.sans_shake == if game.combat_data.sans_shake
            >= SHAKE_DECAY * inputs.len() {
            game.combat_data.sans_shake - SHAKE_DECAY * inputs.len()
        } else {
            0
        },
        run(game, inputs).combat_data.sans_shake >= 0,
    decreases inputs.len(),
{
    if inputs.len() > 0 {
        lemma_shake_decay(game, inputs.drop_last());
    }
}

/// The overlay never gets more opaque, and a frame on which it shows makes
/// it less so.
pub proof fn lemma_fade_falls(game: GameView, input: CombatInput)
    ensures
        frame(game, input).fade_alpha <= game.fade_alpha,
        game.fade_alpha > 0 ==> frame(game, input).fade_alpha < game.fade_alpha,
{
}

/// The pictures of the combat scene, each with its size if the front end
/// could load it.
#[derive(PartialEq, Eq, Structural, Clone, Copy, Debug)]
pub struct CombatSprites {
    /// The enemy.
    pub sans: Option<TextureSize>,
    /// The heart that marks the menu entry under the cursor.
    pub heart: Option<TextureSize>,
}

/// The shaking enemy is drawn up to this far to the left or right of its
/// place: 5 pixels.
pub const JITTER: i32 = 500;

/// Length of the health bar: 150 pixels.
pub const BAR_WIDTH: u32 = 15_000;

/// The text on a menu entry.
pub open spec fn entry_label(entry: int) -> Seq<char> {
    if entry == 0 {
        "FIGHT"@
    } else if entry == 1 {
        "ACT"@
    } else {
        "MERCY"@
    }
}

/// The text on display: the dialogue in the menu and on the enemy's turn,
/// the outcome of the player's move otherwise.
pub open spec fn shown_text(combat: CombatView) -> Seq<char> {
    match combat.turn {
        CombatTurn::Menu | CombatTurn::SansTurn => combat.dialogue_text,
        _ => combat.action_text,
    }
}

/// Whether the menu entry is lit: the menu is open and the cursor is on it.
pub open spec fn lit(combat: CombatView, entry: int) -> bool {
    combat.turn == CombatTurn::Menu && combat.menu_selection == entry
}

/// The enemy, if its picture is there: centred 400 pixels from the left and
/// 200 from the top, moved sideways by `jitter`, at three times its size.
pub open spec fn enemy_ops(sans: Option<TextureSize>, jitter: int) -> Seq<DrawOp> {
    match sans {
        Some(size) => seq![
            DrawOp::Picture {
                texture: Texture::SansCombat,
                position: ScreenPoint { x: (40_000 + jitter) as i64, y: 20_000 },
                origin: size.middle(),
                scale: 300,
            },
        ],
        None => Seq::empty(),
    }
}

/// One menu entry: its label, yellow if lit and orange if not, and left of a
/// lit one the heart, if its picture is there.
pub open spec fn entry_ops(combat: CombatView, heart: Option<TextureSize>, entry: int) -> Seq<
    DrawOp,
> {
    let x = 10_000 + entry * 20_000;
    let label = DrawOp::Text {
        content: entry_label(entry),
        position: ScreenPoint { x: x as i64, y: 53_000 },
        color: if lit(combat, entry) {
            Color::yellow()
        } else {
            Color::orange()
        },
    };
    if lit(combat, entry) && heart is Some {
        seq![
            label,
            DrawOp::Picture {
                texture: Texture::Heart,
                position: ScreenPoint { x: (x - 3_000) as i64, y: 53_000 },
                origin: ScreenPoint { x: 0, y: 0 },
                scale: 10,
            },
        ]
    } else {
        seq![label]
    }
}

/// What the label beside the health bar says.
pub open spec fn health_label(combat: CombatView) -> Seq<char> {
    "HP: "@ + decimal(combat.hp_percent() as nat) + "%"@
}

/// The health bar: its dark ground, over it in red the share of the health
/// in the maximum if that is more than nothing, and the label beside it.
pub open spec fn health_ops(combat: CombatView) -> Seq<DrawOp> {
    let ground = DrawOp::Fill {
        area: Rect { x: 2_000, y: 2_000, width: BAR_WIDTH as i64, height: 1_500 },
        color: Color::dark_grey(),
    };
    let label = DrawOp::Text {
        content: health_label(combat),
        position: ScreenPoint { x: 18_000, y: 2_000 },
        color: Color::white(),
    };
    if combat.bar_fill(BAR_WIDTH as int) > 0 {
        seq![
            ground,
            DrawOp::Fill {
                area: Rect {
                    x: 2_000,
                    y: 2_000,
                    width: combat.bar_fill(BAR_WIDTH as int) as i64,
                    height: 1_500,
                },
                color: Color::red(),
            },
            label,
        ]
    } else {
        seq![ground, label]
    }
}

/// The black overlay over the whole screen, while it is not yet clear.
pub open spec fn fade_ops(fade_alpha: u32) -> Seq<DrawOp> {
    if fade_alpha > 0 {
        seq![
            DrawOp::Fill {
                area: Rect {
                    x: 0,
                    y: 0,
                    width: (SCREEN_WIDTH * 100) as i64,
                    height: (SCREEN_HEIGHT * 100) as i64,
                },
                color: Color::shade(fade_alpha),
            },
        ]
    } else {
        Seq::empty()
    }
}

/// What the combat scene draws, in this order: a black ground, the enemy
/// (moved by `jitter` while it shakes), the text box with the text on
/// display, the three menu entries, the health bar, the fade overlay.
/// Drawing reads the state and changes nothing.
pub open spec fn plan(game: GameView, sprites: CombatSprites, jitter: int) -> Seq<DrawOp> {
    let combat = game.combat_data;
    seq![DrawOp::Clear { color: Color::black() }] + enemy_ops(
        sprites.sans,
        if combat.sans_shake > 0 {
            jitter
        } else {
            0
        },
    ) + seq![
        DrawOp::Outline {
            area: Rect { x: 5_000, y: 35_000, width: 70_000, height: 15_000 },
            thickness: 400,
            color: Color::white(),
        },
        DrawOp::Text {
            content: shown_text(combat),
            position: ScreenPoint { x: 7_000, y: 37_000 },
            color: Color::white(),
        },
    ] + entry_ops(combat, sprites.heart, 0) + entry_ops(combat, sprites.heart, 1) + entry_ops(
        combat,
        sprites.heart,
        2,
    ) + health_ops(combat) + fade_ops(game.fade_alpha)
}

/// Adds the enemy to a plan.
fn put_enemy(plan: &mut Vec<DrawCommand>, sans: Option<TextureSize>, jitter: i32)
    ensures
        plan_view(final(plan)@) == plan_view(old(plan)@) + enemy_ops(sans, jitter as int),
{
    if let Some(size) = sans {
        put(
            plan,
            DrawCommand::Picture {
                texture: Texture::SansCombat,
                position: ScreenPoint { x: 40_000 + jitter as i64, y: 20_000 },
                origin: size.center(),
                scale: 300,
            },
        );
    }
    assert(plan_view(plan@) =~= plan_view(old(plan)@) + enemy_ops(sans, jitter as int));
}

/// Adds one menu entry to a plan.
fn put_entry(
    plan: &mut Vec<DrawCommand>,
    combat: &CombatData,
    heart: Option<TextureSize>,
    entry: usize,
)
    requires
        entry <= 2,
    ensures
        plan_view(final(plan)@) == plan_view(old(plan)@) + entry_ops(combat@, heart, entry as int),
{
    let x: i64 = 10_000 + (entry as i64) * 20_000;
    let lit = combat.turn == CombatTurn::Menu && combat.menu_selection == entry;
    let label = if entry == 0 {
        "FIGHT"
    } else if entry == 1 {
        "ACT"
    } else {
        "MERCY"
    };
    put(
        plan,
        DrawCommand::Text {
            content: label.to_owned(),
            position: ScreenPoint { x, y: 53_000 },
            color: if lit {
                Color::yellow()
            } else {
                Color::orange()
            },
        },
    );
    if lit && heart.is_some() {
        put(
            plan,
            DrawCommand::Picture {
                texture: Texture::Heart,
                position: ScreenPoint { x: x - 3_000, y: 53_000 },
                origin: ScreenPoint { x: 0, y: 0 },
                scale: 10,
            },
        );
    }
    assert(plan_view(plan@) =~= plan_view(old(plan)@) + entry_ops(combat@, heart, entry as int));
}

/// Adds the health bar and its label to a plan.
fn put_health(plan: &mut Vec<DrawCommand>, combat: &CombatData)
    ensures
        plan_view(final(plan)@) == plan_view(old(plan)@) + health_ops(combat@),
{
    put(
        plan,
        DrawCommand::Fill {
            area: Rect { x: 2_000, y: 2_000, width: BAR_WIDTH as i64, height: 1_500 },
            color: Color::dark_grey(),
        },
    );
    let filled = combat.health_fill(BAR_WIDTH);
    if filled > 0 {
        put(
            plan,
            DrawCommand::Fill {
                area: Rect { x: 2_000, y: 2_000, width: filled as i64, height: 1_500 },
                color: Color::red(),
            },
        );
    }
    let mut label = "HP: ".to_owned();
    let percent = decimal_text(combat.health_percent());
    label.append(percent.as_str());
    label.append("%");
    put(
        plan,
        DrawCommand::Text {
            content: label,
            position: ScreenPoint { x: 18_000, y: 2_000 },
            color: Color::white(),
        },
    );
    assert(plan_view(plan@) =~= plan_view(old(plan)@) + health_ops(combat@));
}

/// Adds the fade overlay to a plan.
fn put_fade(plan: &mut Vec<DrawCommand>, fade_alpha: u32)
    ensures
        plan_view(final(plan)@) == plan_view(old(plan)@) + fade_ops(fade_alpha),
{
    if fade_alpha > 0 {
        put(
            plan,
            DrawCommand::Fill {
                area: Rect {
                    x: 0,
                    y: 0,
                    width: SCREEN_WIDTH as i64 * 100,
                    height: SCREEN_HEIGHT as i64 * 100,
                },
                color: Color::shade(fade_alpha),
            },
        );
    }
    assert(plan_view(plan@) =~= plan_view(old(plan)@) + fade_ops(fade_alpha));
}

/// Plans the drawing of the combat scene, with the shaking enemy moved
/// sideways by `jitter`.
pub fn draw_with(sprites: &CombatSprites, state: &GameState, jitter: i32) -> (commands: Vec<
    DrawCommand,
>)
    ensures
        plan_view(commands@) == plan(state@, *sprites, jitter as int),
{
    let mut commands: Vec<DrawCommand> = Vec::new();
    put(&mut commands, DrawCommand::Clear { color: Color::black() });
    let shake_x: i32 = if state.combat_data.sans_shake > 0 {
        jitter
    } else {
        0
    };
    put_enemy(&mut commands, sprites.sans, shake_x);
    put(
        &mut commands,
        DrawCommand::Outline {
            area: Rect { x: 5_000, y: 35_000, width: 70_000, height: 15_000 },
            thickness: 400,
            color: Color::white(),
        },
    );
    let content = match state.combat_data.turn {
        CombatTurn::Menu | CombatTurn::SansTurn => state.combat_data.dialogue_text.clone(),
        _ => state.combat_data.action_text.clone(),
    };
    put(
        &mut commands,
        DrawCommand::Text {
            content,
            position: ScreenPoint { x: 7_000, y: 37_000 },
            color: Color::white(),
        },
    );
    put_entry(&mut commands, &state.combat_data, sprites.heart, 0);
    put_entry(&mut commands, &state.combat_data, sprites.heart, 1);
    put_entry(&mut commands, &state.combat_data, sprites.heart, 2);
    put_health(&mut commands, &state.combat_data);
    put_fade(&mut commands, state.fade_alpha);
    assert(plan_view(commands@) =~= plan(state@, *sprites, jitter as int));
    commands
}

/// Plans the drawing of the combat scene. While the enemy shakes, each call
/// draws anew how far it is moved sideways, from `-JITTER` up to `JITTER`;
/// at rest it stands in its place.
pub fn draw(sprites: &CombatSprites, state: &GameState) -> (commands: Vec<DrawCommand>)
    ensures
        exists|jitter: int|
            -JITTER <= jitter < JITTER && plan_view(commands@) == #[trigger] plan(
                state@,
                *sprites,
                jitter,
            ),
        state.combat_data.sans_shake == 0 ==> plan_view(commands@) == plan(state@, *sprites, 0),
{
    let jitter: i32 = if state.combat_data.sans_shake > 0 {
        uniform(-JITTER, JITTER)
    } else {
        0
    };
    draw_with(sprites, state, jitter)
}

} // verus!
