use flappy_dragon::draw::{Color, DrawCommand, Frame};
use flappy_dragon::{GameMode, Key, Obstacle, Player, State, FRAME_DURATION, SCREEN_WIDTH};

fn playing(player: Player, frame_time: i64, score: i32, obstacle: Obstacle) -> State {
    State { mode: GameMode::Playing, player, frame_time, score, obstacle }
}

fn centered(y: i32, text: &str) -> DrawCommand {
    DrawCommand::PrintCentered { y, text: text.to_string() }
}

fn menu_commands() -> Vec<DrawCommand> {
    vec![
        DrawCommand::Clear,
        centered(5, "Welcome to Flappy Dragon"),
        centered(8, "(P) Play Game"),
        centered(9, "(Q) Quit Game"),
    ]
}

fn dead_commands(score: &str) -> Vec<DrawCommand> {
    vec![
        DrawCommand::Clear,
        centered(5, "You are dead!"),
        centered(6, &format!("You earned {} points", score)),
        centered(8, "(P) Play Again"),
        centered(9, "(Q) Quit Game"),
    ]
}

fn assert_reset(state: &State) {
    assert_eq!(state.player, Player { x: 5, y: 25_000, velocity: 0 });
    assert_eq!(state.frame_time, 0);
    assert_eq!(state.score, 0);
    assert_eq!(state.obstacle.x, 80);
    assert_eq!(state.obstacle.size, 20);
    assert!(10 <= state.obstacle.gap_y && state.obstacle.gap_y < 40);
}

fn holds_in_a_reached_state(state: &State) -> bool {
    0 <= state.score
        && state.obstacle.x == 80 + 81 * state.score
        && state.obstacle.size == (20 - state.score).max(2)
        && 10 <= state.obstacle.gap_y
        && state.obstacle.gap_y < 40
        && 5 <= state.player.x
        && state.player.x <= state.obstacle.x
        && state.obstacle.x <= state.player.x + 80
        && 0 <= state.frame_time
        && state.frame_time <= 75_000
        && 0 <= state.player.y
        && state.player.y < 53_200
        && -1_000 <= state.player.velocity
        && state.player.velocity < 2_200
        && (state.mode != GameMode::Playing || state.player.row() <= 50)
}

#[test]
fn game_begins_in_the_menu() {
    let state = State::new();
    assert_eq!(state.mode, GameMode::Menu);
    assert_reset(&state);
    assert!(holds_in_a_reached_state(&state));
}

#[test]
fn restart_resets_everything() {
    let mut state = State {
        mode: GameMode::End,
        player: Player { x: 900, y: 51_700, velocity: 2_100 },
        frame_time: 60_000,
        score: 11,
        obstacle: Obstacle { x: 971, gap_y: 12, size: 9 },
    };
    state.restart();
    assert_eq!(state.mode, GameMode::Playing);
    assert_reset(&state);
    assert_eq!(state.player.velocity, 0);
}

#[test]
fn restart_from_any_mode() {
    for mode in [GameMode::Menu, GameMode::Playing, GameMode::End] {
        let mut state = State::new();
        state.mode = mode;
        state.score = 3;
        state.player.velocity = -1_000;
        state.restart();
        assert_eq!(state.mode, GameMode::Playing);
        assert_reset(&state);
    }
}

#[test]
fn menu_confirm_starts_a_game() {
    let mut state = State::new();
    let frame = state.tick(16_000, Some(Key::Confirm));
    assert_eq!(state.mode, GameMode::Playing);
    assert_reset(&state);
    assert!(!frame.quit);
    assert_eq!(frame.commands, menu_commands());
}

#[test]
fn menu_quit_asks_to_leave() {
    let mut state = State::new();
    let before = state;
    let frame = state.main_menu(Some(Key::Quit));
    assert_eq!(frame, Frame { commands: menu_commands(), quit: true });
    assert_eq!(state, before);
}

#[test]
fn menu_ignores_other_keys() {
    for key in [None, Some(Key::Other), Some(Key::Flap)] {
        let mut state = State::new();
        let before = state;
        let frame = state.main_menu(key);
        assert_eq!(frame, Frame { commands: menu_commands(), quit: false });
        assert_eq!(state, before);
    }
}

#[test]
fn menu_takes_no_time() {
    let mut state = State::new();
    let before = state;
    state.tick(1_000_000, None);
    state.tick(i64::MAX, None);
    state.tick(i64::MIN, Some(Key::Flap));
    assert_eq!(state, before);
}

#[test]
fn end_screen_shows_the_score() {
    let mut state = State::new();
    state.mode = GameMode::End;
    state.score = 7;
    let before = state;
    let frame = state.dead(None);
    assert_eq!(frame, Frame { commands: dead_commands("7"), quit: false });
    assert_eq!(state, before);
    state.score = 0;
    assert_eq!(state.dead(None).commands, dead_commands("0"));
    state.score = 123;
    assert_eq!(state.dead(None).commands, dead_commands("123"));
    state.score = -4;
    assert_eq!(state.dead(None).commands, dead_commands("-4"));
}

#[test]
fn end_screen_confirm_plays_again_and_still_shows_the_old_score() {
    let mut state = State {
        mode: GameMode::End,
        player: Player { x: 300, y: 51_200, velocity: 2_000 },
        frame_time: 0,
        score: 3,
        obstacle: Obstacle { x: 323, gap_y: 20, size: 17 },
    };
    let frame = state.tick(16_000, Some(Key::Confirm));
    assert_eq!(frame, Frame { commands: dead_commands("3"), quit: false });
    assert_eq!(state.mode, GameMode::Playing);
    assert_reset(&state);
}

#[test]
fn end_screen_quit_asks_to_leave() {
    let mut state = State::new();
    state.mode = GameMode::End;
    let before = state;
    let frame = state.tick(16_000, Some(Key::Quit));
    assert!(frame.quit);
    assert_eq!(state, before);
}

#[test]
fn end_screen_ignores_other_keys() {
    for key in [None, Some(Key::Other), Some(Key::Flap)] {
        let mut state = State::new();
        state.mode = GameMode::End;
        let before = state;
        let frame = state.tick(90_000, key);
        assert!(!frame.quit);
        assert_eq!(state, before);
    }
}

#[test]
fn clock_below_the_frame_duration_only_accumulates() {
    let mut state = State::new();
    state.restart();
    let gap_y = state.obstacle.gap_y;
    state.tick(30_000, None);
    assert_eq!(state.frame_time, 30_000);
    assert_eq!(state.player, Player { x: 5, y: 25_000, velocity: 0 });
    state.tick(30_000, None);
    assert_eq!(state.frame_time, 60_000);
    assert_eq!(state.player, Player { x: 5, y: 25_000, velocity: 0 });
    assert_eq!(state.obstacle, Obstacle { x: 80, gap_y, size: 20 });
    assert_eq!(state.mode, GameMode::Playing);
}

#[test]
fn clock_past_the_frame_duration_gives_one_physics_step() {
    let mut state = State::new();
    state.restart();
    state.tick(30_000, None);
    state.tick(30_000, None);
    state.tick(30_000, None);
    assert_eq!(state.frame_time, 0);
    assert_eq!(state.player, Player { x: 6, y: 25_200, velocity: 200 });
    state.tick(30_000, None);
    assert_eq!(state.frame_time, 30_000);
    assert_eq!(state.player, Player { x: 6, y: 25_200, velocity: 200 });
}

#[test]
fn clock_at_exactly_the_frame_duration_does_not_step() {
    assert_eq!(FRAME_DURATION, 75_000);
    let mut state = State::new();
    state.restart();
    state.tick(75_000, None);
    assert_eq!(state.frame_time, 75_000);
    assert_eq!(state.player.x, 5);
    state.tick(1, None);
    assert_eq!(state.frame_time, 0);
    assert_eq!(state.player.x, 6);
}

#[test]
fn long_frame_gives_only_one_physics_step() {
    let mut state = State::new();
    state.restart();
    state.tick(1_000_000, None);
    assert_eq!(state.frame_time, 0);
    assert_eq!(state.player, Player { x: 6, y: 25_200, velocity: 200 });
}

#[test]
fn flap_acts_at_once_whatever_the_clock() {
    let mut state = State::new();
    state.restart();
    state.tick(10_000, Some(Key::Flap));
    assert_eq!(state.frame_time, 10_000);
    assert_eq!(state.player, Player { x: 5, y: 25_000, velocity: -1_000 });
}

#[test]
fn flap_comes_after_the_physics_step_of_its_frame() {
    let mut state = State::new();
    state.restart();
    state.tick(80_000, Some(Key::Flap));
    assert_eq!(state.player, Player { x: 6, y: 25_200, velocity: -1_000 });
    state.tick(80_000, None);
    assert_eq!(state.player, Player { x: 7, y: 24_400, velocity: -800 });
}

#[test]
fn other_keys_do_nothing_in_play() {
    for key in [Some(Key::Confirm), Some(Key::Quit), Some(Key::Other), None] {
        let mut state = State::new();
        state.restart();
        let gap_y = state.obstacle.gap_y;
        let frame = state.tick(10_000, key);
        assert!(!frame.quit);
        assert_eq!(
            state,
            playing(Player::new(5, 25), 10_000, 0, Obstacle { x: 80, gap_y, size: 20 })
        );
    }
}

#[test]
fn passing_the_wall_scores_and_places_the_next_wall() {
    let mut state = playing(
        Player { x: 80, y: 25_000, velocity: 0 },
        70_000,
        4,
        Obstacle { x: 80, gap_y: 25, size: 16 },
    );
    state.tick(6_000, None);
    assert_eq!(state.player.x, 81);
    assert_eq!(state.score, 5);
    assert_eq!(state.obstacle.x, 81 + SCREEN_WIDTH);
    assert_eq!(state.obstacle.x, 161);
    assert_eq!(state.obstacle.size, 15);
    assert!(10 <= state.obstacle.gap_y && state.obstacle.gap_y < 40);
    assert_eq!(state.mode, GameMode::Playing);
}

#[test]
fn passing_at_a_high_score_keeps_the_narrowest_gap() {
    let mut state = playing(
        Player { x: 80 + 81 * 40, y: 25_000, velocity: 0 },
        75_000,
        40,
        Obstacle { x: 80 + 81 * 40, gap_y: 25, size: 2 },
    );
    state.tick(1, None);
    assert_eq!(state.score, 41);
    assert_eq!(state.obstacle.x, 80 + 81 * 41);
    assert_eq!(state.obstacle.size, 2);
}

#[test]
fn reaching_the_wall_in_the_gap_does_not_score() {
    let mut state = playing(
        Player { x: 79, y: 25_000, velocity: 0 },
        70_000,
        4,
        Obstacle { x: 80, gap_y: 25, size: 16 },
    );
    state.tick(6_000, None);
    assert_eq!(state.player.x, 80);
    assert_eq!(state.score, 4);
    assert_eq!(state.obstacle, Obstacle { x: 80, gap_y: 25, size: 16 });
    assert_eq!(state.mode, GameMode::Playing);
}

#[test]
fn flying_into_the_wall_ends_the_game() {
    let mut state = playing(
        Player { x: 79, y: 5_000, velocity: 0 },
        70_000,
        4,
        Obstacle { x: 80, gap_y: 25, size: 16 },
    );
    state.tick(6_000, None);
    assert_eq!(state.player, Player { x: 80, y: 5_200, velocity: 200 });
    assert_eq!(state.mode, GameMode::End);
    assert_eq!(state.score, 4);
    assert_eq!(state.obstacle, Obstacle { x: 80, gap_y: 25, size: 16 });
}

#[test]
fn wall_is_only_felt_in_its_own_column() {
    let mut state = playing(
        Player { x: 70, y: 5_000, velocity: 0 },
        70_000,
        4,
        Obstacle { x: 80, gap_y: 25, size: 16 },
    );
    state.tick(6_000, None);
    assert_eq!(state.mode, GameMode::Playing);
}

#[test]
fn falling_below_the_screen_ends_the_game_and_keeps_the_score() {
    let mut state = playing(
        Player { x: 20, y: 51_000, velocity: 0 },
        0,
        6,
        Obstacle { x: 80, gap_y: 25, size: 14 },
    );
    let frame = state.tick(10_000, None);
    assert_eq!(state.mode, GameMode::End);
    assert_eq!(state.score, 6);
    assert!(!frame.quit);
    let frame = state.tick(10_000, None);
    assert_eq!(frame.commands, dead_commands("6"));
}

#[test]
fn row_fifty_is_still_in_the_world() {
    let mut state = playing(
        Player { x: 20, y: 50_999, velocity: 0 },
        0,
        6,
        Obstacle { x: 80, gap_y: 25, size: 14 },
    );
    state.tick(10_000, None);
    assert_eq!(state.mode, GameMode::Playing);
}

#[test]
fn play_leaves_another_mode_as_it_is_unless_the_game_ends() {
    let mut state = State::new();
    assert_eq!(state.mode, GameMode::Menu);
    state.play(80_000, None);
    assert_eq!(state.mode, GameMode::Menu);
    assert_eq!(state.player, Player { x: 6, y: 25_200, velocity: 200 });
    state.player.y = 60_000;
    state.play(80_000, None);
    assert_eq!(state.mode, GameMode::End);
}

#[test]
fn frame_of_play_shows_dragon_hint_score_and_wall() {
    let mut state = playing(
        Player { x: 70, y: 25_000, velocity: 0 },
        70_000,
        12,
        Obstacle { x: 80, gap_y: 25, size: 46 },
    );
    let frame = state.tick(6_000, Some(Key::Flap));
    let wall = |y: i32| DrawCommand::Put {
        x: 9,
        y,
        fg: Color::Red,
        bg: Color::Black,
        glyph: 124,
    };
    assert_eq!(
        frame,
        Frame {
            commands: vec![
                DrawCommand::ClearTo { background: Color::Navy },
                DrawCommand::Put { x: 0, y: 25, fg: Color::Yellow, bg: Color::Black, glyph: 64 },
                DrawCommand::Print { x: 0, y: 0, text: "Press SPACE to flap.".to_string() },
                DrawCommand::Print { x: 0, y: 1, text: "Score: 12".to_string() },
                wall(0),
                wall(1),
                wall(49),
            ],
            quit: false,
        }
    );
}

#[test]
fn frame_in_which_the_wall_is_passed_shows_the_old_wall_and_score() {
    let mut state = playing(
        Player { x: 80, y: 25_000, velocity: 0 },
        70_000,
        9,
        Obstacle { x: 80, gap_y: 25, size: 48 },
    );
    let frame = state.tick(6_000, None);
    assert_eq!(state.score, 10);
    assert_eq!(
        frame.commands,
        vec![
            DrawCommand::ClearTo { background: Color::Navy },
            DrawCommand::Put { x: 0, y: 25, fg: Color::Yellow, bg: Color::Black, glyph: 64 },
            DrawCommand::Print { x: 0, y: 0, text: "Press SPACE to flap.".to_string() },
            DrawCommand::Print { x: 0, y: 1, text: "Score: 9".to_string() },
            DrawCommand::Put { x: -1, y: 0, fg: Color::Red, bg: Color::Black, glyph: 124 },
        ]
    );
}

#[test]
fn tick_runs_the_step_of_the_mode() {
    let mut menu = State::new();
    assert_eq!(menu.tick(0, None).commands, menu_commands());
    let mut end = State::new();
    end.mode = GameMode::End;
    assert_eq!(end.tick(0, None).commands, dead_commands("0"));
    let mut play = State::new();
    play.mode = GameMode::Playing;
    assert_eq!(play.tick(0, None).commands[0], DrawCommand::ClearTo { background: Color::Navy });
}

#[test]
fn modes_follow_each_other_only_as_the_game_allows() {
    let keys = [None, Some(Key::Flap), Some(Key::Confirm), Some(Key::Quit), Some(Key::Other)];
    let mut state = State::new();
    let mut seen_end = false;
    for step in 0..4_000usize {
        let key = keys[(step * 7 + step / 13) % keys.len()];
        let before = state.mode;
        assert!(state.may_tick(40_000));
        state.tick(40_000, key);
        let allowed = state.mode == before
            || (before == GameMode::Menu && state.mode == GameMode::Playing)
            || (before == GameMode::Playing && state.mode == GameMode::End)
            || (before == GameMode::End && state.mode == GameMode::Playing);
        assert!(allowed, "{:?} to {:?}", before, state.mode);
        assert!(holds_in_a_reached_state(&state), "step {}: {:?}", step, state);
        seen_end = seen_end || state.mode == GameMode::End;
    }
    assert!(seen_end);
}

#[test]
fn steady_flapping_passes_walls_and_keeps_the_state_in_bounds() {
    let mut state = State::new();
    state.tick(0, Some(Key::Confirm));
    let mut best = 0;
    for step in 0..20_000usize {
        if state.mode == GameMode::End {
            state.tick(80_000, Some(Key::Confirm));
            continue;
        }
        // steer towards the centre of the gap
        let key = if state.player.row() > state.obstacle.gap_y { Some(Key::Flap) } else { None };
        assert!(state.may_tick(80_000));
        let score = state.score;
        let x = state.player.x;
        state.tick(80_000, key);
        assert_eq!(state.player.x, x + 1);
        assert!(state.score == score || state.score == score + 1);
        assert!(holds_in_a_reached_state(&state), "step {}: {:?}", step, state);
        best = best.max(state.score);
    }
    assert!(best >= 1);
}

#[test]
fn may_tick_is_true_outside_play() {
    let mut state = State::new();
    state.player.x = i32::MAX;
    state.frame_time = i64::MAX;
    assert!(state.may_tick(i64::MAX));
    state.mode = GameMode::End;
    assert!(state.may_tick(i64::MAX));
    state.mode = GameMode::Playing;
    assert!(!state.may_tick(i64::MAX));
}

#[test]
fn may_play_tells_when_a_frame_fits() {
    let base = playing(Player::new(5, 25), 0, 0, Obstacle { x: 80, gap_y: 25, size: 20 });
    assert!(base.may_play(0));
    assert!(base.may_play(i64::MAX));
    assert!(base.may_play(i64::MIN));

    let mut clock = base;
    clock.frame_time = 1;
    assert!(!clock.may_play(i64::MAX));
    clock.frame_time = -1;
    assert!(!clock.may_play(i64::MIN));

    let mut far = base;
    far.player.x = i32::MAX;
    far.obstacle.x = i32::MAX;
    assert!(far.may_play(75_000));
    assert!(!far.may_play(75_001));

    let mut last_wall = base;
    last_wall.player.x = i32::MAX - 80;
    last_wall.obstacle.x = i32::MAX - 80;
    assert!(!last_wall.may_play(80_000));
    last_wall.player.x = i32::MAX - 81;
    last_wall.obstacle.x = i32::MAX - 81;
    assert!(last_wall.may_play(80_000));

    let mut score = base;
    score.player.x = 80;
    score.score = i32::MAX;
    assert!(score.may_play(10_000));
    assert!(!score.may_play(80_000));
    score.score = i32::MAX - 1;
    assert!(score.may_play(80_000));
    score.score = 19 - i32::MAX;
    assert!(score.may_play(80_000));
    score.score = 18 - i32::MAX;
    assert!(!score.may_play(80_000));

    let mut wall = base;
    wall.obstacle.gap_y = i32::MAX;
    assert!(!wall.may_play(0));
    let mut apart = base;
    apart.obstacle.x = i32::MIN;
    assert!(!apart.may_play(0));
}

#[test]
fn play_at_the_last_column_that_fits() {
    let mut state = playing(
        Player { x: i32::MAX - 81, y: 25_000, velocity: 0 },
        0,
        i32::MAX - 1,
        Obstacle { x: i32::MAX - 81, gap_y: 25, size: 2 },
    );
    assert!(state.may_play(80_000));
    state.play(80_000, None);
    assert_eq!(state.player.x, i32::MAX - 80);
    assert_eq!(state.score, i32::MAX);
    assert_eq!(state.obstacle.x, i32::MAX);
    assert_eq!(state.obstacle.size, 2);
}

#[test]
fn try_tick_makes_the_tick_where_it_fits() {
    let mut state = State::new();
    state.restart();
    let mut twin = state;
    let frame = state.try_tick(80_000, Some(Key::Flap));
    let expected = twin.tick(80_000, Some(Key::Flap));
    assert_eq!(frame, Some(expected));
    assert_eq!(state, twin);
    assert_eq!(state.player, Player { x: 6, y: 25_200, velocity: -1_000 });
}

#[test]
fn try_tick_changes_nothing_where_the_tick_does_not_fit() {
    let mut state = playing(
        Player { x: i32::MAX, y: 25_000, velocity: 0 },
        0,
        0,
        Obstacle { x: i32::MAX, gap_y: 25, size: 20 },
    );
    let before = state;
    assert_eq!(state.try_tick(80_000, None), None);
    assert_eq!(state, before);
    assert!(state.try_tick(10_000, None).is_some());
    assert_eq!(state.frame_time, 10_000);
}

#[test]
fn try_tick_always_fits_outside_play() {
    let mut state = State::new();
    state.player.x = i32::MAX;
    assert_eq!(state.try_tick(i64::MAX, None).map(|frame| frame.commands), Some(menu_commands()));
    state.mode = GameMode::End;
    assert!(state.try_tick(i64::MIN, Some(Key::Quit)).unwrap().quit);
}
