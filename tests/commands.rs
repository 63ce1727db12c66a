use jigsaw_core::commands::{
    check_puzzle_params, create_puzzle, greet, create_puzzle_at, get_leaderboard, get_puzzles,
    load_game, load_game_at, save_game, save_game_at, PuzzleParamsError,
};
use jigsaw_core::models::{
    CreatePuzzleParams, DifficultyLevel, GameState, GridSize, LoadGameParams, PieceShape,
    PuzzleConfig, SaveGameParams,
};
use jigsaw_core::store::AppState;

fn request(name: &str, image: &str, rows: u32, cols: u32, shape: PieceShape) -> CreatePuzzleParams {
    CreatePuzzleParams {
        image_path: image.to_string(),
        grid_size: GridSize { rows, cols },
        piece_shape: shape,
        name: name.to_string(),
    }
}

fn config(id: &str, difficulty: DifficultyLevel) -> PuzzleConfig {
    PuzzleConfig {
        id: id.to_string(),
        name: "n".to_string(),
        original_image: "i.png".to_string(),
        grid_size: GridSize { rows: 3, cols: 3 },
        piece_shape: PieceShape::Square,
        difficulty,
        created_at: "t".to_string(),
        updated_at: "t".to_string(),
    }
}

fn game(id: &str, elapsed: u64, moves: u32, done: bool) -> GameState {
    GameState {
        config: config(id, DifficultyLevel::Hard),
        start_time: "s".to_string(),
        end_time: None,
        moves,
        is_completed: done,
        elapsed_time: elapsed,
    }
}

#[test]
fn create_puzzle_stores_the_new_puzzle() {
    let mut state = AppState::new();
    let r = create_puzzle(request("Cat", "cat.png", 4, 4, PieceShape::Triangle), &mut state);
    assert!(r.success);
    assert!(r.error.is_none());
    let cfg = r.data.unwrap();
    assert_eq!(cfg.name, "Cat");
    assert_eq!(cfg.original_image, "cat.png");
    assert_eq!(cfg.difficulty, DifficultyLevel::Hard);
    assert!(cfg.id.starts_with("puzzle_"));
    assert!(cfg.id.len() > "puzzle_".len());
    assert_eq!(state.puzzles.len(), 1);
    assert_eq!(state.puzzles[0].id, cfg.id);
    assert!(state.leaderboard.is_empty());
}

#[test]
fn create_puzzle_at_fills_id_and_stamps() {
    let mut state = AppState::new();
    let r = create_puzzle_at(
        request("Dog", "dog.png", 3, 3, PieceShape::Square),
        false,
        false,
        1700000000,
        "2023-11-14T22:13:20+00:00".to_string(),
        &mut state,
    );
    let cfg = r.data.unwrap();
    assert_eq!(cfg.id, "puzzle_1700000000");
    assert_eq!(cfg.created_at, "2023-11-14T22:13:20+00:00");
    assert_eq!(cfg.updated_at, "2023-11-14T22:13:20+00:00");
    assert_eq!(cfg.difficulty, DifficultyLevel::Easy);
}

#[test]
fn negative_clock_gives_signed_id() {
    let mut state = AppState::new();
    let r = create_puzzle_at(
        request("Dog", "dog.png", 3, 3, PieceShape::Square),
        false,
        false,
        -42,
        "x".to_string(),
        &mut state,
    );
    assert_eq!(r.data.unwrap().id, "puzzle_-42");
    let r = create_puzzle_at(
        request("Dog", "dog.png", 3, 3, PieceShape::Square),
        false,
        false,
        i64::MIN,
        "x".to_string(),
        &mut state,
    );
    assert_eq!(r.data.unwrap().id, "puzzle_-9223372036854775808");
}

#[test]
fn empty_name_is_refused() {
    let mut state = AppState::new();
    let r = create_puzzle(request("", "cat.png", 3, 3, PieceShape::Square), &mut state);
    assert!(!r.success);
    assert!(r.data.is_none());
    assert_eq!(r.error.unwrap(), "拼图名称不能为空");
    assert!(state.puzzles.is_empty());
}

#[test]
fn blank_name_is_refused_after_trimming() {
    let mut state = AppState::new();
    let r = create_puzzle(request(" \t\n ", "cat.png", 3, 3, PieceShape::Square), &mut state);
    assert_eq!(r.error.unwrap(), "拼图名称不能为空");
    assert!(state.puzzles.is_empty());
}

#[test]
fn empty_image_path_is_refused() {
    let mut state = AppState::new();
    let r = create_puzzle(request("Cat", "   ", 3, 3, PieceShape::Square), &mut state);
    assert!(!r.success);
    assert_eq!(r.error.unwrap(), "图片路径不能为空");
    assert!(state.puzzles.is_empty());
}

#[test]
fn zero_rows_or_cols_is_refused() {
    let mut state = AppState::new();
    let r = create_puzzle(request("Cat", "cat.png", 0, 3, PieceShape::Square), &mut state);
    assert_eq!(r.error.unwrap(), "网格大小必须大于0");
    let r = create_puzzle(request("Cat", "cat.png", 3, 0, PieceShape::Square), &mut state);
    assert_eq!(r.error.unwrap(), "网格大小必须大于0");
    assert!(state.puzzles.is_empty());
}

#[test]
fn name_is_checked_before_image_and_grid() {
    assert_eq!(check_puzzle_params(true, true, &GridSize { rows: 0, cols: 0 }), Some(PuzzleParamsError::EmptyName));
    assert_eq!(check_puzzle_params(false, true, &GridSize { rows: 0, cols: 0 }), Some(PuzzleParamsError::EmptyImagePath));
    assert_eq!(check_puzzle_params(false, false, &GridSize { rows: 0, cols: 1 }), Some(PuzzleParamsError::EmptyGrid));
    assert_eq!(check_puzzle_params(false, false, &GridSize { rows: 1, cols: 1 }), None);
}

#[test]
fn load_unknown_id_is_not_found_and_store_unchanged() {
    let mut state = AppState::new();
    state.add_puzzle(config("puzzle_1", DifficultyLevel::Easy));
    let r = load_game(LoadGameParams { game_id: "puzzle_2".to_string() }, &state);
    assert!(!r.success);
    assert!(r.data.is_none());
    assert_eq!(r.error.unwrap(), "未找到拼图配置");
    assert_eq!(state.puzzles.len(), 1);
    assert_eq!(state.puzzles[0].id, "puzzle_1");
    assert!(state.leaderboard.is_empty());
}

#[test]
fn load_empty_store_is_not_found() {
    let state = AppState::new();
    let r = load_game(LoadGameParams { game_id: String::new() }, &state);
    assert!(!r.success);
}

#[test]
fn load_known_id_starts_a_fresh_game() {
    let mut state = AppState::new();
    state.add_puzzle(config("a", DifficultyLevel::Easy));
    state.add_puzzle(config("b", DifficultyLevel::Expert));
    let r = load_game_at(LoadGameParams { game_id: "b".to_string() }, "now".to_string(), &state);
    assert!(r.success);
    let g = r.data.unwrap();
    assert_eq!(g.config.id, "b");
    assert_eq!(g.config.difficulty, DifficultyLevel::Expert);
    assert_eq!(g.start_time, "now");
    assert_eq!(g.moves, 0);
    assert_eq!(g.elapsed_time, 0);
    assert!(!g.is_completed);
    assert!(g.end_time.is_none());
}

#[test]
fn load_picks_the_first_of_equal_ids() {
    let mut state = AppState::new();
    state.add_puzzle(config("same", DifficultyLevel::Easy));
    state.add_puzzle(config("same", DifficultyLevel::Expert));
    let r = load_game(LoadGameParams { game_id: "same".to_string() }, &state);
    assert_eq!(r.data.unwrap().config.difficulty, DifficultyLevel::Easy);
}

#[test]
fn completed_save_appends_one_entry() {
    let mut state = AppState::new();
    let r = save_game(SaveGameParams { game_state: game("p1", 95, 40, true) }, &mut state);
    assert!(r.success);
    assert_eq!(r.data.unwrap(), "游戏已保存");
    assert_eq!(state.leaderboard.len(), 1);
    let e = &state.leaderboard[0];
    assert_eq!(e.puzzle_id, "p1");
    assert_eq!(e.player_name, "玩家");
    assert_eq!(e.completion_time, 95);
    assert_eq!(e.moves, 40);
    assert_eq!(e.difficulty, DifficultyLevel::Hard);
    assert!(e.id.starts_with("leaderboard_"));
}

#[test]
fn unfinished_save_appends_nothing() {
    let mut state = AppState::new();
    let r = save_game(SaveGameParams { game_state: game("p1", 95, 40, false) }, &mut state);
    assert!(r.success);
    assert_eq!(r.data.unwrap(), "游戏已保存");
    assert!(state.leaderboard.is_empty());
}

#[test]
fn save_at_fills_id_and_stamp() {
    let mut state = AppState::new();
    save_game_at(SaveGameParams { game_state: game("p1", 5, 6, true) }, 12, "t0".to_string(), &mut state);
    assert_eq!(state.leaderboard[0].id, "leaderboard_12");
    assert_eq!(state.leaderboard[0].completed_at, "t0");
}

#[test]
fn leaderboard_is_sorted_by_time() {
    let mut state = AppState::new();
    for (t, m) in [(300u64, 1u32), (100, 2), (200, 3), (100, 4), (50, 5)] {
        save_game(SaveGameParams { game_state: game("p", t, m, true) }, &mut state);
    }
    let board = get_leaderboard(&state).data.unwrap();
    let times: Vec<u64> = board.iter().map(|e| e.completion_time).collect();
    assert_eq!(times, vec![50, 100, 100, 200, 300]);
    let moves: Vec<u32> = board.iter().map(|e| e.moves).collect();
    assert_eq!(moves, vec![5, 2, 4, 3, 1]);
    assert_eq!(state.leaderboard.len(), 5);
    assert_eq!(state.leaderboard[0].completion_time, 300);
}

#[test]
fn empty_leaderboard() {
    let state = AppState::default();
    let r = get_leaderboard(&state);
    assert!(r.success);
    assert!(r.data.unwrap().is_empty());
}

#[test]
fn puzzles_are_listed_in_creation_order() {
    let mut state = AppState::new();
    create_puzzle(request("A", "a.png", 2, 2, PieceShape::Square), &mut state);
    create_puzzle(request("B", "b.png", 5, 5, PieceShape::Irregular), &mut state);
    let list = get_puzzles(&state).data.unwrap();
    assert_eq!(list.len(), 2);
    assert_eq!(list[0].name, "A");
    assert_eq!(list[1].name, "B");
    assert_eq!(list[1].difficulty, DifficultyLevel::Expert);
}

#[test]
fn ideographic_space_name_is_refused() {
    let mut state = AppState::new();
    let r = create_puzzle(request("\u{3000}\u{a0}", "cat.png", 3, 3, PieceShape::Square), &mut state);
    assert_eq!(r.error.unwrap(), "拼图名称不能为空");
    assert!(state.puzzles.is_empty());
}

#[test]
fn created_and_updated_stamps_agree() {
    let mut state = AppState::new();
    let cfg = create_puzzle(request("Cat", "cat.png", 2, 2, PieceShape::Square), &mut state).data.unwrap();
    assert_eq!(cfg.created_at, cfg.updated_at);
    assert!(cfg.id["puzzle_".len()..].chars().all(|c| c.is_ascii_digit()));
}

#[test]
fn greeting_wraps_the_name() {
    assert_eq!(greet("Ann"), "贵族的女儿： Ann！");
    assert_eq!(greet(""), "贵族的女儿： ！");
}
