use snake_term::clock::{frame_period_micros, needs_wait, Clock};
use snake_term::command::{Commands, KeyPress};
use snake_term::game::{Game, Poll};
use snake_term::vec2::Vec2;

#[test]
fn keys_map_to_commands() {
    assert_eq!(Commands::from_key(KeyPress::Char('q')), Some(Commands::Quit));
    assert_eq!(Commands::from_key(KeyPress::Char('e')), Some(Commands::Extend));
    assert_eq!(Commands::from_key(KeyPress::Char('r')), Some(Commands::Shrink));
    for k in [KeyPress::Right, KeyPress::Char('d'), KeyPress::Char('l')] {
        assert_eq!(Commands::from_key(k), Some(Commands::RotatePlayer(1)));
    }
    for k in [KeyPress::Left, KeyPress::Char('a'), KeyPress::Char('h')] {
        assert_eq!(Commands::from_key(k), Some(Commands::RotatePlayer(-1)));
    }
    assert_eq!(Commands::from_key(KeyPress::Char('x')), None);
    assert_eq!(Commands::from_key(KeyPress::Other), None);
}

#[test]
fn input_ends_on_quit_or_failed_send() {
    assert!(Commands::Quit.ends_input(true));
    assert!(Commands::Extend.ends_input(false));
    assert!(!Commands::Extend.ends_input(true));
}

#[test]
fn quit_ends_loop() {
    let cmd = Commands::from_key(KeyPress::Char('q')).unwrap();
    let mut g = Game::new(80, 24);
    assert!(!g.handle(Poll::Received(cmd)));
    assert_eq!(g.player.head, Vec2::new(30_000, 30_000));
}

#[test]
fn disconnect_ends_loop_and_empty_goes_on() {
    let mut g = Game::new(80, 24);
    assert!(!g.handle(Poll::Disconnected));
    assert!(g.handle(Poll::Empty));
    assert_eq!(g.player.body.len(), 0);
}

#[test]
fn commands_change_player() {
    let mut g = Game::new(80, 24);
    assert!(g.handle(Poll::Received(Commands::Extend)));
    assert_eq!(g.player.body.len(), 1);
    assert!(g.handle(Poll::Received(Commands::RotatePlayer(1))));
    assert_eq!(g.player.forward, Vec2::new(0, 110_000));
    assert!(g.handle(Poll::Received(Commands::Shrink)));
    assert_eq!(g.player.body.len(), 0);
}

#[test]
fn term_coord_scenario() {
    let g = Game::new(80, 24);
    assert_eq!(g.term_coord(Vec2::new(500_000, 500_000)), (41, 13));
    assert_eq!(g.term_coord(Vec2::new(0, 1_000_000)), (1, 25));
    assert_eq!(g.term_coord(Vec2::new(-500_000, 30_000)), (1, 1));
}

#[test]
fn game_coord_scales_by_ratio() {
    let g = Game::new(80, 20);
    assert_eq!(g.game_coord(3, 1), Vec2::new(12_000_000, 4_000_000));
}

#[test]
fn update_moves_inside_field() {
    let mut g = Game::new(80, 24);
    g.update(1_000_000);
    assert_eq!(g.player.head, Vec2::new(140_000, 30_000));
}

#[test]
fn update_stops_at_border() {
    let mut g = Game::new(80, 24);
    g.player.head = Vec2::new(950_000, 500_000);
    g.update(1_000_000);
    assert_eq!(g.player.head, Vec2::new(950_000, 500_000));
    g.update(0);
    assert_eq!(g.player.head, Vec2::new(950_000, 500_000));
}

#[test]
fn draw_snake_places_blocks() {
    let mut g = Game::new(80, 24);
    assert_eq!(g.draw_snake(), "\x1b[1;3H\u{2588}\x1b[?25l");
    g.player.extend();
    assert_eq!(
        g.draw_snake(),
        "\x1b[1;4H\u{2588}\x1b[?25l\x1b[1;3H\u{2588}\x1b[?25l"
    );
}

#[test]
fn draw_writes_whole_frame() {
    let mut g = Game::new(80, 24);
    let expected = "\x1b[2J\x1b[1;1Hsnake head gamecoord: (0.03,0.03)\n\
                    \rsnake head termcoord: (3,1)\n\x1b[1;3H\u{2588}\x1b[?25l";
    assert_eq!(g.draw(), expected);
    g.player.head = Vec2::new(-1_234, 615_000);
    let frame = g.draw();
    assert!(frame.contains("gamecoord: (-0.00,0.62)"));
}

#[test]
fn frame_period_and_wait() {
    assert_eq!(frame_period_micros(30), 33_333);
    assert!(needs_wait(0, 30));
    assert!(needs_wait(33_333, 30));
    assert!(!needs_wait(33_334, 30));
}

#[test]
fn clock_measures_time() {
    let mut c = Clock::new();
    let a = c.elapsed_micros();
    let b = c.elapsed_micros();
    assert!(b >= a);
    c.restart();
    assert!(c.elapsed_micros() < 60_000_000);
}
