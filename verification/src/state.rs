//! The game as a whole: its three modes and what one frame does in each.

use vstd::prelude::*;
use vstd::string::StringExecFns;
use crate::constants::{
    FLAP_STRENGTH, FRAME_DURATION, GAP_ROW_MAX, GAP_ROW_MIN, GAP_SIZE_MAX, GRAVITY, SCREEN_HEIGHT,
    SCREEN_WIDTH, START_ROW, START_X, TERMINAL_VELOCITY,
};
use crate::draw::{centered, ops_of, printed, Color, DrawCommand, DrawOp, Frame};
use crate::fixed::UNIT;
use crate::obstacle::{gap_size, Obstacle};
use crate::player::Player;
use crate::text::{append_decimal, decimal};

verus! {

/// What the game is doing.
#[derive(Clone, Copy, Debug, PartialEq, Eq)]
pub enum GameMode {
    /// The opening menu.
    Menu,
    /// A game is under way.
    Playing,
    /// The dragon is dead; the score is shown.
    End,
}

/// The key that was pressed during a frame, as far as the game tells keys
/// apart.
#[derive(Clone, Copy, Debug, PartialEq, Eq)]
pub enum Key {
    /// The space bar: flap.
    Flap,
    /// `P`: start a game, or play again.
    Confirm,
    /// `Q`: leave.
    Quit,
    /// Any other key.
    Other,
}

/// Everything the game remembers from one frame to the next.
#[derive(Clone, Copy, Debug, PartialEq, Eq)]
pub struct State {
    /// What the game is doing.
    pub mode: GameMode,
    /// The dragon.
    pub player: Player,
    /// Time since the last physics step, in microseconds.
    pub frame_time: i64,
    /// Walls passed in this game.
    pub score: i32,
    /// The one wall that is in the world.
    pub obstacle: Obstacle,
}

/// What the menu shows.
pub open spec fn menu_ops() -> Seq<DrawOp> {
    seq![
        DrawOp::Clear,
        DrawOp::PrintCentered { y: 5, text: "Welcome to Flappy Dragon"@ },
        DrawOp::PrintCentered { y: 8, text: "(P) Play Game"@ },
        DrawOp::PrintCentered { y: 9, text: "(Q) Quit Game"@ },
    ]
}

/// What is shown once the dragon is dead, for the score it reached.
pub open spec fn dead_ops(score: int) -> Seq<DrawOp> {
    seq![
        DrawOp::Clear,
        DrawOp::PrintCentered { y: 5, text: "You are dead!"@ },
        DrawOp::PrintCentered { y: 6, text: "You earned "@ + decimal(score) + " points"@ },
        DrawOp::PrintCentered { y: 8, text: "(P) Play Again"@ },
        DrawOp::PrintCentered { y: 9, text: "(Q) Quit Game"@ },
    ]
}

/// What is shown while a game is under way: a navy background, the dragon,
/// the hint, the score, and the wall as seen from the dragon.
pub open spec fn play_ops(player: Player, score: int, obstacle: Obstacle) -> Seq<DrawOp> {
    seq![
        DrawOp::ClearTo { background: Color::Navy },
        player.sprite(),
        DrawOp::Print { x: 0, y: 0, text: "Press SPACE to flap."@ },
        DrawOp::Print { x: 0, y: 1, text: "Score: "@ + decimal(score) },
    ] + obstacle.wall_ops(player.x as int)
}

/// The moves between modes that a frame can make: the menu and the end
/// screen lead into a game, a game leads to the end screen, and every mode
/// may last.
pub open spec fn may_follow(before: GameMode, after: GameMode) -> bool {
    ||| after == before
    ||| before == GameMode::Menu && after == GameMode::Playing
    ||| before == GameMode::Playing && after == GameMode::End
    ||| before == GameMode::End && after == GameMode::Playing
}

impl State {
    /// The state that every game starts from, whatever the mode: the dragon
    /// at rest in column 5 of row 25, no time on the clock, no points, and a
    /// wall of the widest gap one screen width into the world.
    pub open spec fn is_reset(&self) -> bool {
        &&& self.player == (Player { x: START_X, y: (START_ROW * UNIT) as i64, velocity: 0 })
        &&& self.frame_time == 0
        &&& self.score == 0
        &&& self.obstacle.x == SCREEN_WIDTH
        &&& GAP_ROW_MIN <= self.obstacle.gap_y < GAP_ROW_MAX
        &&& self.obstacle.size == gap_size(0)
    }

    /// Whether this frame brings a physics step: the time since the last one,
    /// with the time of this frame, is more than the frame duration.
    pub open spec fn physics_due(&self, elapsed: i64) -> bool {
        self.frame_time + elapsed > FRAME_DURATION
    }

    /// The dragon after the frame: moved if a physics step is due, then
    /// flapped if the flap key was pressed.
    pub open spec fn player_after(&self, elapsed: i64, key: Option<Key>) -> Player {
        let moved = if self.physics_due(elapsed) {
            self.player.moved()
        } else {
            self.player
        };
        if key == Some(Key::Flap) {
            moved.flapped()
        } else {
            moved
        }
    }

    /// The dragon's column after the frame.
    pub open spec fn x_after(&self, elapsed: i64) -> int {
        if self.physics_due(elapsed) {
            self.player.x + 1
        } else {
            self.player.x as int
        }
    }

    /// Whether the dragon is past the wall after the frame.
    pub open spec fn passes(&self, elapsed: i64) -> bool {
        self.x_after(elapsed) > self.obstacle.x
    }

    /// Whether a frame of play stays within what the fields can hold: the
    /// clock, the dragon's step, the wall's place on the screen, and, where
    /// the dragon passes the wall, the score and the place of the next wall.
    pub open spec fn can_play(&self, elapsed: i64) -> bool {
        &&& i64::MIN <= self.frame_time + elapsed <= i64::MAX
        &&& self.physics_due(elapsed) ==> self.player.can_move()
        &&& self.obstacle.can_render(self.x_after(elapsed))
        &&& self.passes(elapsed) ==> {
            &&& self.score < i32::MAX
            &&& self.x_after(elapsed) + SCREEN_WIDTH <= i32::MAX
            &&& GAP_SIZE_MAX - (self.score + 1) <= i32::MAX
        }
    }

    /// Whether a tick stays within what the fields can hold. Only a frame of
    /// play can leave it.
    pub open spec fn can_tick(&self, elapsed: i64) -> bool {
        self.mode == GameMode::Playing ==> self.can_play(elapsed)
    }

    /// What a frame of the menu or of the end screen does, given what that
    /// screen shows: the frame shows it; the quit key, and nothing else, asks
    /// to leave; the confirm key starts a game from a reset state; without
    /// the confirm key nothing changes.
    pub open spec fn screen_step(
        &self,
        shown: Seq<DrawOp>,
        key: Option<Key>,
        next: State,
        frame: Frame,
    ) -> bool {
        &&& frame.ops() == shown
        &&& frame.quit == (key == Some(Key::Quit))
        &&& key == Some(Key::Confirm) ==> next.mode == GameMode::Playing && next.is_reset()
        &&& key != Some(Key::Confirm) ==> next == *self
    }

    /// What a frame of the menu does.
    pub open spec fn menu_step(&self, key: Option<Key>, next: State, frame: Frame) -> bool {
        self.screen_step(menu_ops(), key, next, frame)
    }

    /// What a frame of the end screen does. The score shown is the one of the
    /// game that ended, also where the same frame starts a new game.
    pub open spec fn dead_step(&self, key: Option<Key>, next: State, frame: Frame) -> bool {
        self.screen_step(dead_ops(self.score as int), key, next, frame)
    }

    /// What a frame of play does.
    ///
    /// The time of the frame goes on the clock; once the clock is past the
    /// frame duration it is set back to zero and the dragon makes one physics
    /// step. The flap key then makes the dragon flap. The frame shows the
    /// dragon as it is then, with the score and the wall as they were before
    /// the frame. A dragon that is now past the wall scores one point, and a
    /// new wall, sized for the new score and with its gap on one of the rows
    /// from 10 to 39, stands one screen width ahead of it; otherwise score
    /// and wall stay. Last, a dragon whose row is beyond the screen height,
    /// or that is in the wall, ends the game; otherwise the mode stays.
    pub open spec fn play_step(
        &self,
        elapsed: i64,
        key: Option<Key>,
        next: State,
        frame: Frame,
    ) -> bool {
        &&& next.frame_time == (if self.physics_due(elapsed) {
            0
        } else {
            self.frame_time + elapsed
        })
        &&& next.player == self.player_after(elapsed, key)
        &&& self.passes(elapsed) ==> {
            &&& next.score == self.score + 1
            &&& next.obstacle.x == next.player.x + SCREEN_WIDTH
            &&& next.obstacle.size == gap_size(self.score + 1)
            &&& GAP_ROW_MIN <= next.obstacle.gap_y < GAP_ROW_MAX
        }
        &&& !self.passes(elapsed) ==> {
            &&& next.score == self.score
            &&& next.obstacle == self.obstacle
        }
        &&& next.mode == (if next.player.spec_row() > SCREEN_HEIGHT || next.obstacle.hits(
            next.player,
        ) {
            GameMode::End
        } else {
            self.mode
        })
        &&& frame.ops() == play_ops(next.player, self.score as int, self.obstacle)
        &&& !frame.quit
    }

    /// What a tick does: the step of the mode that the game is in.
    pub open spec fn tick_step(
        &self,
        elapsed: i64,
        key: Option<Key>,
        next: State,
        frame: Frame,
    ) -> bool {
        match self.mode {
            GameMode::Menu => self.menu_step(key, next, frame),
            GameMode::End => self.dead_step(key, next, frame),
            GameMode::Playing => self.play_step(elapsed, key, next, frame),
        }
    }

    /// What holds of every state that the game reaches from its start by
    /// ticks with no negative time: the score counts the walls passed, which
    /// stand 81 cells apart; the wall is sized for the score and is at most a
    /// screen width ahead of the dragon, never behind it; the clock is within
    /// one frame duration; the dragon is on or below the top of the screen,
    /// no faster upward than a flap and no faster downward than one step of
    /// gravity above the terminal speed; and while a game is under way the
    /// dragon has not fallen out of the world.
    pub open spec fn wf(&self) -> bool {
        &&& 0 <= self.score
        &&& self.obstacle.x == SCREEN_WIDTH + (SCREEN_WIDTH + 1) * self.score
        &&& self.obstacle.size == gap_size(self.score as int)
        &&& GAP_ROW_MIN <= self.obstacle.gap_y < GAP_ROW_MAX
        &&& START_X <= self.player.x <= self.obstacle.x <= self.player.x + SCREEN_WIDTH
        &&& 0 <= self.frame_time <= FRAME_DURATION
        &&& 0 <= self.player.y < (SCREEN_HEIGHT + 1) * UNIT + TERMINAL_VELOCITY + GRAVITY
        &&& -FLAP_STRENGTH <= self.player.velocity < TERMINAL_VELOCITY + GRAVITY
        &&& self.mode == GameMode::Playing ==> self.player.spec_row() <= SCREEN_HEIGHT
    }

    /// The game before its first frame: the menu, over a reset state.
    pub fn new() -> (state: State)
        ensures
            state.mode == GameMode::Menu,
            state.is_reset(),
            state.wf(),
    {
        State {
            mode: GameMode::Menu,
            frame_time: 0,
            player: Player::new(START_X, START_ROW),
            obstacle: Obstacle::new(SCREEN_WIDTH, 0),
            score: 0,
        }
    }

    /// Starts a game: the state is reset, with a new wall, and play begins.
    pub fn restart(&mut self)
        ensures
            final(self).mode == GameMode::Playing,
            final(self).is_reset(),
            final(self).wf(),
    {
        self.player = Player::new(START_X, START_ROW);
        self.frame_time = 0;
        self.mode = GameMode::Playing;
        self.obstacle = Obstacle::new(SCREEN_WIDTH, 0);
        self.score = 0;
    }

    /// One frame of the menu: the menu is shown; the confirm key starts a
    /// game, the quit key asks to leave, and nothing else changes anything.
    pub fn main_menu(&mut self, key: Option<Key>) -> (frame: Frame)
        ensures
            old(self).menu_step(key, *final(self), frame),
            old(self).wf() ==> final(self).wf(),
    {
        let mut commands: Vec<DrawCommand> = Vec::new();
        commands.push(DrawCommand::Clear);
        commands.push(centered(5, String::from_str("Welcome to Flappy Dragon")));
        commands.push(centered(8, String::from_str("(P) Play Game")));
        commands.push(centered(9, String::from_str("(Q) Quit Game")));
        assert(ops_of(commands@) =~= menu_ops());
        let quit = self.answer(key);
        Frame { commands, quit }
    }

    /// One frame of the end screen: the score of the game that ended is
    /// shown; the confirm key starts a new game, the quit key asks to leave,
    /// and nothing else changes anything.
    pub fn dead(&mut self, key: Option<Key>) -> (frame: Frame)
        ensures
            old(self).dead_step(key, *final(self), frame),
            old(self).wf() ==> final(self).wf(),
    {
        let mut earned = String::from_str("You earned ");
        append_decimal(&mut earned, self.score);
        earned.append(" points");
        let mut commands: Vec<DrawCommand> = Vec::new();
        commands.push(DrawCommand::Clear);
        commands.push(centered(5, String::from_str("You are dead!")));
        commands.push(centered(6, earned));
        commands.push(centered(8, String::from_str("(P) Play Again")));
        commands.push(centered(9, String::from_str("(Q) Quit Game")));
        assert(ops_of(commands@) =~= dead_ops(old(self).score as int));
        let quit = self.answer(key);
        Frame { commands, quit }
    }

    /// What the menu and the end screen do with a key: the confirm key starts
    /// a game, the quit key asks to leave.
    fn answer(&mut self, key: Option<Key>) -> (quit: bool)
        ensures
            quit == (key == Some(Key::Quit)),
            key == Some(Key::Confirm) ==> final(self).mode == GameMode::Playing && final(self).is_reset(),
            key != Some(Key::Confirm) ==> *final(self) == *old(self),
            old(self).wf() ==> final(self).wf(),
    {
        match key {
            Some(Key::Confirm) => {
                self.restart();
                false
            },
            Some(Key::Quit) => true,
            _ => false,
        }
    }

    /// One frame of play: the clock, a physics step once it is due, the flap,
    /// the picture, the score with the next wall, and the end of the game.
    pub fn play(&mut self, elapsed: i64, key: Option<Key>) -> (frame: Frame)
        requires
            old(self).can_play(elapsed),
        ensures
            old(self).play_step(elapsed, key, *final(self), frame),
            old(self).wf() && old(self).mode == GameMode::Playing && elapsed >= 0 ==> final(self).wf(),
    {
        let mut commands: Vec<DrawCommand> = Vec::new();
        commands.push(DrawCommand::ClearTo { background: Color::Navy });

        self.frame_time = self.frame_time + elapsed;
        if self.frame_time > FRAME_DURATION {
            self.frame_time = 0;
            self.player.gravity_and_move();
        }
        match key {
            Some(Key::Flap) => {
                self.player.flap();
            },
            _ => {},
        }

        commands.push(self.player.render());
        commands.push(printed(0, 0, String::from_str("Press SPACE to flap.")));
        let mut score_line = String::from_str("Score: ");
        append_decimal(&mut score_line, self.score);
        commands.push(printed(0, 1, score_line));
        let ghost head = commands@;
        self.obstacle.draw_into(&mut commands, self.player.x);
        assert(ops_of(commands@) =~= play_ops(
            self.player,
            old(self).score as int,
            old(self).obstacle,
        )) by {
            assert(ops_of(head) =~= play_ops(
                self.player,
                old(self).score as int,
                old(self).obstacle,
            ).take(4));
        }

        if self.player.x > self.obstacle.x {
            self.score = self.score + 1;
            self.obstacle = Obstacle::new(self.player.x + SCREEN_WIDTH, self.score);
        }
        if self.player.row() > SCREEN_HEIGHT || self.obstacle.hit_obstacle(&self.player) {
            self.mode = GameMode::End;
        }
        Frame { commands, quit: false }
    }

    /// One frame: what the current mode does with the time that has passed
    /// since the last frame, in microseconds, and the key that was pressed
    /// during it.
    pub fn tick(&mut self, elapsed: i64, key: Option<Key>) -> (frame: Frame)
        requires
            old(self).can_tick(elapsed),
        ensures
            old(self).tick_step(elapsed, key, *final(self), frame),
            may_follow(old(self).mode, final(self).mode),
            old(self).wf() && elapsed >= 0 ==> final(self).wf(),
    {
        match self.mode {
            GameMode::Menu => self.main_menu(key),
            GameMode::End => self.dead(key),
            GameMode::Playing => self.play(elapsed, key),
        }
    }

    /// One frame, for a caller that cannot know whether the tick stays within
    /// what the fields can hold: where it does, the tick is made and its frame
    /// handed back; where it does not, nothing changes and there is no frame.
    pub fn try_tick(&mut self, elapsed: i64, key: Option<Key>) -> (outcome: Option<Frame>)
        ensures
            match outcome {
                Some(frame) => {
                    &&& old(self).can_tick(elapsed)
                    &&& old(self).tick_step(elapsed, key, *final(self), frame)
                    &&& may_follow(old(self).mode, final(self).mode)
                    &&& old(self).wf() && elapsed >= 0 ==> final(self).wf()
                },
                None => !old(self).can_tick(elapsed) && *final(self) == *old(self),
            },
    {
        if self.may_tick(elapsed) {
            Some(self.tick(elapsed, key))
        } else {
            None
        }
    }

    /// Whether a frame of play stays within what the fields can hold.
    pub fn may_play(&self, elapsed: i64) -> (ok: bool)
        ensures
            ok == self.can_play(elapsed),
    {
        match self.frame_time.checked_add(elapsed) {
            None => false,
            Some(clock) => {
                let due = clock > FRAME_DURATION;
                if due && !self.player.may_move() {
                    false
                } else {
                    let x_after: i32 = if due {
                        self.player.x + 1
                    } else {
                        self.player.x
                    };
                    let passes = x_after > self.obstacle.x;
                    self.obstacle.may_render(x_after) && (!passes || (self.score < i32::MAX
                        && x_after <= i32::MAX - SCREEN_WIDTH && self.score >= GAP_SIZE_MAX
                        - i32::MAX - 1))
                }
            },
        }
    }

    /// Whether a tick stays within what the fields can hold.
    pub fn may_tick(&self, elapsed: i64) -> (ok: bool)
        ensures
            ok == self.can_tick(elapsed),
    {
        match self.mode {
            GameMode::Playing => self.may_play(elapsed),
            _ => true,
        }
    }
}

/// A state that the game has reached is ready for a frame of any length that
/// is not negative, until the dragon has come within 81 cells of the
/// greatest column that there is.
pub proof fn lemma_reached_state_can_tick(state: State, elapsed: i64)
    requires
        state.wf(),
        0 <= elapsed <= i64::MAX - FRAME_DURATION,
        state.player.x <= i32::MAX - (SCREEN_WIDTH + 1),
    ensures
        state.can_tick(elapsed),
{
}

} // verus!
