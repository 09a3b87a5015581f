use vstd::prelude::*;
use crate::chance::uniform;
use crate::counters::lowered;
use crate::game_state::{GameState, GameView};
use crate::geometry::{closer_than, ScreenPoint};
use crate::render::{plan_view, put, Color, DrawCommand, DrawOp, Rect, Texture, TextureSize};

verus! {

/// The stage of the overworld on which Eilish stands. On any other stage she
/// is neither updated nor drawn.
pub const EILISH_STAGE: u32 = 4;

/// The protagonist can talk to her from less than this far away: 120 pixels.
pub const TALK_RADIUS: u32 = 12_000;

/// Ticks for which her dialogue box stays open (five seconds at 60 ticks a
/// second).
pub const DIALOGUE_TICKS: u32 = 300;

/// Number of lines that she can say.
pub const DIALOGUE_LINES: usize = 8;

/// The lines that she can say.
pub open spec fn dialogue_pool() -> Seq<Seq<char>> {
    seq![
        "Don't go to the dead space!"@,
        "It drains your health..."@,
        "I heard strange noises from there."@,
        "Why are we here?"@,
        "Do you like my hair?"@,
        "Linux is complicated..."@,
        "Have you tried turning it off and on again?"@,
        "sudo rm -rf / ... just kidding!"@,
    ]
}

/// The line at `index` of the pool.
pub fn dialogue_line(index: usize) -> (line: &'static str)
    requires
        index < DIALOGUE_LINES,
    ensures
        line@ == dialogue_pool()[index as int],
{
    match index {
        0 => "Don't go to the dead space!",
        1 => "It drains your health...",
        2 => "I heard strange noises from there.",
        3 => "Why are we here?",
        4 => "Do you like my hair?",
        5 => "Linux is complicated...",
        6 => "Have you tried turning it off and on again?",
        _ => "sudo rm -rf / ... just kidding!",
    }
}

/// Whether the protagonist stands within talking distance of her.
pub open spec fn in_reach(game: GameView) -> bool {
    closer_than(game.player_pos, game.eilish_pos, TALK_RADIUS as int)
}

/// Whether this frame opens the dialogue box: the box is closed, the
/// protagonist is in reach, and the interact key went down.
pub open spec fn starts_talking(game: GameView, interact: bool) -> bool {
    !game.eilish_talking && in_reach(game) && interact
}

/// The game after the transition that distance and the interact key decide.
///
/// Opening the box sets its timer and makes `line` the current line. Out of
/// reach the box is closed, whatever its timer says. Otherwise nothing
/// changes: while the box is open its line stays.
pub open spec fn approached(game: GameView, interact: bool, line: Seq<char>) -> GameView {
    if starts_talking(game, interact) {
        GameView {
            eilish_talking: true,
            eilish_dialogue_timer: DIALOGUE_TICKS,
            eilish_current_dialogue: line,
            ..game
        }
    } else if !in_reach(game) {
        GameView { eilish_talking: false, ..game }
    } else {
        game
    }
}

/// The game after one tick of the dialogue timer: an open box loses a tick
/// and closes when none is left.
pub open spec fn counted_down(game: GameView) -> GameView {
    if game.eilish_talking {
        GameView {
            eilish_dialogue_timer: lowered(game.eilish_dialogue_timer, 1),
            eilish_talking: lowered(game.eilish_dialogue_timer, 1) > 0,
            ..game
        }
    } else {
        game
    }
}

/// One step of the dialogue machine: the transition, then the tick. The
/// step that opens the box does not tick, so that it ends with the full time
/// on the timer.
pub open spec fn step(game: GameView, interact: bool, line: Seq<char>) -> GameView {
    if starts_talking(game, interact) {
        approached(game, interact, line)
    } else {
        counted_down(approached(game, interact, line))
    }
}

/// The game after one frame of her scene: a step on her stage, nothing
/// elsewhere.
pub open spec fn frame(game: GameView, interact: bool, line: Seq<char>) -> GameView {
    if game.current_stage == EILISH_STAGE {
        step(game, interact, line)
    } else {
        game
    }
}

/// Tells whether this frame will open the dialogue box, for which a line has
/// to be drawn.
pub fn wants_line(interact: bool, state: &GameState) -> (wanted: bool)
    ensures
        wanted == (state.current_stage == EILISH_STAGE && starts_talking(state@, interact)),
{
    state.current_stage == EILISH_STAGE && interact && !state.eilish_talking
        && state.player_pos.is_within(&state.eilish_pos, TALK_RADIUS)
}

/// Runs one frame of her scene, with line `pick` of the pool as the line to
/// say if the frame opens the dialogue box.
pub fn update_with(interact: bool, state: &mut GameState, pick: usize)
    requires
        pick < DIALOGUE_LINES,
    ensures
        final(state)@ == frame(old(state)@, interact, dialogue_pool()[pick as int]),
{
    if state.current_stage != EILISH_STAGE {
        return ;
    }
    if state.player_pos.is_within(&state.eilish_pos, TALK_RADIUS) {
        if interact && !state.eilish_talking {
            state.eilish_talking = true;
            state.eilish_dialogue_timer = DIALOGUE_TICKS;
            state.eilish_current_dialogue = dialogue_line(pick).to_owned();
            return ;
        }
    } else {
        state.eilish_talking = false;
    }
    if state.eilish_talking {
        if state.eilish_dialogue_timer > 1 {
            state.eilish_dialogue_timer -= 1;
        } else {
            state.eilish_dialogue_timer = 0;
            state.eilish_talking = false;
        }
    }
}

/// Runs one frame of her scene. A frame that opens the dialogue box draws
/// the line to say from the pool, each line with the same chance and
/// whatever she said before.
pub fn update(interact: bool, state: &mut GameState)
    ensures
        exists|pick: int|
            0 <= pick < DIALOGUE_LINES && final(state)@ == frame(
                old(state)@,
                interact,
                #[trigger] dialogue_pool()[pick],
            ),
        !(old(state).current_stage == EILISH_STAGE && starts_talking(old(state)@, interact))
            ==> final(state)@ == frame(
            old(state)@,
            interact,
            old(state)@.eilish_current_dialogue,
        ),
{
    let pick: usize = if wants_line(interact, state) {
        uniform(0, DIALOGUE_LINES as i32) as usize
    } else {
        0
    };
    update_with(interact, state, pick);
}

/// The game after `n` steps on which the interact key stays up. Nothing
/// moves in between: the positions are those of `game`.
pub open spec fn quiet_steps(game: GameView, n: nat) -> GameView
    decreases n,
{
    if n == 0 {
        game
    } else {
        step(quiet_steps(game, (n - 1) as nat), false, Seq::empty())
    }
}

/// Out of reach and with the box closed, no step changes anything, whether
/// the interact key goes down or not: the box stays closed and the current
/// line stays what it was.
pub proof fn lemma_out_of_reach_idle(game: GameView, interact: bool, line: Seq<char>)
    requires
        !game.eilish_talking,
        !in_reach(game),
    ensures
        step(game, interact, line) == game,
        frame(game, interact, line) == game,
{
}

/// In reach and with the box closed, the interact key opens the box with
/// the full time on its timer and a line of the pool in it, and moves
/// neither her nor the protagonist.
pub proof fn lemma_interact_opens(game: GameView, pick: int)
    requires
        !game.eilish_talking,
        in_reach(game),
        0 <= pick < DIALOGUE_LINES,
    ensures
        approached(game, true, dialogue_pool()[pick]).eilish_talking,
        approached(game, true, dialogue_pool()[pick]).eilish_dialogue_timer == 300,
        dialogue_pool().contains(approached(game, true, dialogue_pool()[pick]).eilish_current_dialogue),
        step(game, true, dialogue_pool()[pick]).eilish_talking,
        step(game, true, dialogue_pool()[pick]).eilish_dialogue_timer == DIALOGUE_TICKS,
        step(game, true, dialogue_pool()[pick]).eilish_dialogue_timer == 300,
        step(game, true, dialogue_pool()[pick]).eilish_current_dialogue == dialogue_pool()[pick],
        dialogue_pool().contains(step(game, true, dialogue_pool()[pick]).eilish_current_dialogue),
        step(game, true, dialogue_pool()[pick]).player_pos == game.player_pos,
        step(game, true, dialogue_pool()[pick]).eilish_pos == game.eilish_pos,
{
}

/// An open box with the full time on its timer stays open, with its line,
/// through 299 quiet steps in reach, and closes on step 300.
pub proof fn lemma_box_closes_in_time(game: GameView, n: nat)
    requires
        game.eilish_talking,
        game.eilish_dialogue_timer == DIALOGUE_TICKS,
        in_reach(game),
        n <= DIALOGUE_TICKS,
    ensures
        quiet_steps(game, n).eilish_dialogue_timer == DIALOGUE_TICKS - n,
        quiet_steps(game, n).eilish_talking == (n < DIALOGUE_TICKS),
        quiet_steps(game, n).eilish_current_dialogue == game.eilish_current_dialogue,
        quiet_steps(game, n).player_pos == game.player_pos,
        quiet_steps(game, n).eilish_pos == game.eilish_pos,
    decreases n,
{
    if n > 0 {
        lemma_box_closes_in_time(game, (n - 1) as nat);
    }
}

/// Once the box is closed, it stays closed and its line stays, until the
/// interact key goes down: no line is drawn in between.
pub proof fn lemma_closed_box_rests(game: GameView, line: Seq<char>)
    requires
        !game.eilish_talking,
    ensures
        step(game, false, line) == game,
        frame(game, false, line) == game,
{
}

/// Out of reach an open box closes at once, whatever its timer says and
/// whether the interact key goes down or not.
pub proof fn lemma_leaving_closes(game: GameView, interact: bool, line: Seq<char>)
    requires
        game.eilish_talking,
        !in_reach(game),
    ensures
        !step(game, interact, line).eilish_talking,
        step(game, interact, line).eilish_dialogue_timer == game.eilish_dialogue_timer,
        step(game, interact, line).eilish_current_dialogue == game.eilish_current_dialogue,
{
}

/// While the box is open, its line does not change.
pub proof fn lemma_line_stays_while_open(game: GameView, interact: bool, line: Seq<char>)
    requires
        game.eilish_talking,
    ensures
        step(game, interact, line).eilish_current_dialogue == game.eilish_current_dialogue,
{
}

/// The prompt shown above her while the protagonist is in reach.
pub const PROMPT: &'static str = "Press F to Talk";

/// The width taken for the prompt where the front end could not measure it:
/// 100 pixels.
pub const PROMPT_WIDTH_GUESS: u32 = 10_000;

/// What the front end brings to the drawing of her scene.
#[derive(PartialEq, Eq, Structural, Clone, Copy, Debug)]
pub struct EilishResources {
    /// The size of her picture, if it could be loaded.
    pub texture: Option<TextureSize>,
    /// The width of the prompt as the font renders it, in hundredths of a
    /// pixel, if it could be measured.
    pub prompt_width: Option<u32>,
}

/// Her picture, if it is there: centred on her position, at a tenth of its
/// size.
pub open spec fn picture_ops(game: GameView, texture: Option<TextureSize>) -> Seq<DrawOp> {
    match texture {
        Some(size) => seq![
            DrawOp::Picture {
                texture: Texture::Eilish,
                position: game.eilish_pos.on_screen(),
                origin: size.middle(),
                scale: 10,
            },
        ],
        None => Seq::empty(),
    }
}

/// The width that the prompt is centred by.
pub open spec fn prompt_width(measured: Option<u32>) -> int {
    match measured {
        Some(width) => width as int,
        None => PROMPT_WIDTH_GUESS as int,
    }
}

/// The prompt, while the protagonist is in reach: in green, 60 pixels above
/// her, with its middle over her.
pub open spec fn prompt_ops(game: GameView, measured: Option<u32>) -> Seq<DrawOp> {
    if in_reach(game) {
        seq![
            DrawOp::Text {
                content: PROMPT@,
                position: ScreenPoint {
                    x: (game.eilish_pos.x - prompt_width(measured) / 2) as i64,
                    y: (game.eilish_pos.y - 6_000) as i64,
                },
                color: Color::green(),
            },
        ]
    } else {
        Seq::empty()
    }
}

/// The dialogue box, while it is open: a dark ground, a white border, and
/// the current line in it. Place and size are fixed.
pub open spec fn box_ops(game: GameView) -> Seq<DrawOp> {
    if game.eilish_talking {
        seq![
            DrawOp::Fill {
                area: Rect { x: 5_000, y: 45_000, width: 70_000, height: 13_000 },
                color: Color::shade(80),
            },
            DrawOp::Outline {
                area: Rect { x: 5_000, y: 45_000, width: 70_000, height: 13_000 },
                thickness: 200,
                color: Color::white(),
            },
            DrawOp::Text {
                content: game.eilish_current_dialogue,
                position: ScreenPoint { x: 7_000, y: 47_000 },
                color: Color::white(),
            },
        ]
    } else {
        Seq::empty()
    }
}

/// What her scene draws: on her stage her picture, the prompt and the
/// dialogue box, in this order; nothing elsewhere. Drawing reads the state
/// and changes nothing.
pub open spec fn plan(game: GameView, resources: EilishResources) -> Seq<DrawOp> {
    if game.current_stage == EILISH_STAGE {
        picture_ops(game, resources.texture) + prompt_ops(game, resources.prompt_width) + box_ops(
            game,
        )
    } else {
        Seq::empty()
    }
}

/// Tells whether the prompt is on display, for which its width is needed.
pub fn shows_prompt(state: &GameState) -> (shown: bool)
    ensures
        shown == (state.current_stage == EILISH_STAGE && in_reach(state@)),
{
    state.current_stage == EILISH_STAGE && state.player_pos.is_within(
        &state.eilish_pos,
        TALK_RADIUS,
    )
}

/// Plans the drawing of her scene.
pub fn draw(resources: &EilishResources, state: &GameState) -> (commands: Vec<DrawCommand>)
    ensures
        plan_view(commands@) == plan(state@, *resources),
{
    let mut commands: Vec<DrawCommand> = Vec::new();
    if state.current_stage != EILISH_STAGE {
        assert(plan_view(commands@) =~= plan(state@, *resources));
        return commands;
    }
    if let Some(size) = resources.texture {
        put(
            &mut commands,
            DrawCommand::Picture {
                texture: Texture::Eilish,
                position: state.eilish_pos.to_screen(),
                origin: size.center(),
                scale: 10,
            },
        );
    }
    if state.player_pos.is_within(&state.eilish_pos, TALK_RADIUS) {
        let width: u32 = match resources.prompt_width {
            Some(measured) => measured,
            None => PROMPT_WIDTH_GUESS,
        };
        put(
            &mut commands,
            DrawCommand::Text {
                content: PROMPT.to_owned(),
                position: ScreenPoint {
                    x: state.eilish_pos.x as i64 - (width / 2) as i64,
                    y: state.eilish_pos.y as i64 - 6_000,
                },
                color: Color::green(),
            },
        );
    }
    if state.eilish_talking {
        put(
            &mut commands,
            DrawCommand::Fill {
                area: Rect { x: 5_000, y: 45_000, width: 70_000, height: 13_000 },
                color: Color::shade(80),
            },
        );
        put(
            &mut commands,
            DrawCommand::Outline {
                area: Rect { x: 5_000, y: 45_000, width: 70_000, height: 13_000 },
                thickness: 200,
                color: Color::white(),
            },
        );
        put(
            &mut commands,
            DrawCommand::Text {
                content: state.eilish_current_dialogue.clone(),
                position: ScreenPoint { x: 7_000, y: 47_000 },
                color: Color::white(),
            },
        );
    }
    assert(plan_view(commands@) =~= plan(state@, *resources));
    commands
}

} // verus!
