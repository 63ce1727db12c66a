use vstd::prelude::*;
use crate::decimal::{numbered, signed_decimal_of};
use crate::difficulty::{calculate_difficulty, difficulty_of};
use crate::leaderboard::{lemma_sort_by_time, sort_by_time, sorted_by_time};
use crate::models::{
    ApiResponse, CreatePuzzleParams, GameState, GridSize, LeaderboardEntry, LoadGameParams,
    PuzzleConfig, SaveGameParams,
};
use crate::platform::{clock_error_message, is_blank, read_clock, trim_text};
use crate::store::{has_no_id, is_first_with_id, AppState};

verus! {

/// Why a create-puzzle request was refused.
#[derive(Debug, Clone, Copy, PartialEq, Eq, Structural)]
pub enum PuzzleParamsError {
    EmptyName,
    EmptyImagePath,
    EmptyGrid,
}

/// The message a refused create-puzzle request answers with.
pub open spec fn params_error_message(e: PuzzleParamsError) -> Seq<char> {
    match e {
        PuzzleParamsError::EmptyName => "拼图名称不能为空"@,
        PuzzleParamsError::EmptyImagePath => "图片路径不能为空"@,
        PuzzleParamsError::EmptyGrid => "网格大小必须大于0"@,
    }
}

impl PuzzleParamsError {
    /// The message this refusal answers with.
    pub fn message(&self) -> (r: &'static str)
        ensures
            r@ == params_error_message(*self),
    {
        match self {
            PuzzleParamsError::EmptyName => "拼图名称不能为空",
            PuzzleParamsError::EmptyImagePath => "图片路径不能为空",
            PuzzleParamsError::EmptyGrid => "网格大小必须大于0",
        }
    }
}

/// The first rule a request breaks, given whether its name and its image
/// path are blank: a blank name, then a blank image path, then a zero
/// dimension.
pub open spec fn params_check(name_blank: bool, image_blank: bool, grid: GridSize) -> Option<
    PuzzleParamsError,
> {
    if name_blank {
        Some(PuzzleParamsError::EmptyName)
    } else if image_blank {
        Some(PuzzleParamsError::EmptyImagePath)
    } else if !grid.is_positive() {
        Some(PuzzleParamsError::EmptyGrid)
    } else {
        None
    }
}

/// Validates a create-puzzle request from whether its name and its image
/// path are blank.
pub fn check_puzzle_params(name_blank: bool, image_blank: bool, grid: &GridSize) -> (r: Option<
    PuzzleParamsError,
>)
    ensures
        r == params_check(name_blank, image_blank, *grid),
{
    if name_blank {
        Some(PuzzleParamsError::EmptyName)
    } else if image_blank {
        Some(PuzzleParamsError::EmptyImagePath)
    } else if grid.rows == 0 || grid.cols == 0 {
        Some(PuzzleParamsError::EmptyGrid)
    } else {
        None
    }
}

/// `cfg` is the puzzle a request makes, apart from its id and timestamps.
pub open spec fn is_puzzle_of(cfg: PuzzleConfig, params: CreatePuzzleParams) -> bool {
    &&& cfg.name == params.name
    &&& cfg.original_image == params.image_path
    &&& cfg.grid_size == params.grid_size
    &&& cfg.piece_shape == params.piece_shape
    &&& cfg.difficulty == difficulty_of(params.grid_size.cells(), params.piece_shape)
}

/// `cfg` is the puzzle a request makes at `now` seconds, stamped `stamp`.
pub open spec fn is_puzzle_made_at(
    cfg: PuzzleConfig,
    params: CreatePuzzleParams,
    now: i64,
    stamp: Seq<char>,
) -> bool {
    &&& is_puzzle_of(cfg, params)
    &&& cfg.id@ == "puzzle_"@ + signed_decimal_of(now as int)
    &&& cfg.created_at@ == stamp
    &&& cfg.updated_at@ == stamp
}

/// Creates a puzzle from a request, given whether its name and image path
/// are blank, at `now` seconds since the epoch, stamped `stamp`.
pub fn create_puzzle_at(
    params: CreatePuzzleParams,
    name_blank: bool,
    image_blank: bool,
    now: i64,
    stamp: String,
    state: &mut AppState,
) -> (r: ApiResponse<PuzzleConfig>)
    ensures
        r.wf(),
        final(state).wf() == old(state).wf(),
        match params_check(name_blank, image_blank, params.grid_size) {
            Some(e) => {
                &&& r.is_error_with(params_error_message(e))
                &&& *final(state) == *old(state)
            },
            None => {
                &&& r.success
                &&& is_puzzle_made_at(r.data->0, params, now, stamp@)
                &&& r.data->0.wf()
                &&& final(state).puzzles@ == old(state).puzzles@.push(r.data->0)
                &&& final(state).leaderboard@ == old(state).leaderboard@
            },
        },
{
    match check_puzzle_params(name_blank, image_blank, &params.grid_size) {
        Some(e) => ApiResponse::error(e.message()),
        None => {
            proof {
                reveal_strlit("puzzle_");
            }
            let difficulty = calculate_difficulty(&params.grid_size, &params.piece_shape);
            let config = PuzzleConfig {
                id: numbered("puzzle_", now),
                name: params.name,
                original_image: params.image_path,
                grid_size: params.grid_size,
                piece_shape: params.piece_shape,
                difficulty,
                created_at: stamp.clone(),
                updated_at: stamp,
            };
            state.add_puzzle(config.duplicate());
            ApiResponse::success(config)
        },
    }
}

/// Creates a puzzle and stores it. A name or image path made only of
/// whitespace (or empty), or a zero dimension, is refused and the store is left as it was. A valid request fails only
/// when the clock cannot be read, and then leaves the store as it was.
pub fn create_puzzle(params: CreatePuzzleParams, state: &mut AppState) -> (r: ApiResponse<
    PuzzleConfig,
>)
    ensures
        r.wf(),
        final(state).wf() == old(state).wf(),
        match params_check(is_blank(params.name@), is_blank(params.image_path@), params.grid_size) {
            Some(e) => {
                &&& r.is_error_with(params_error_message(e))
                &&& *final(state) == *old(state)
            },
            None => if r.success {
                &&& is_puzzle_of(r.data->0, params)
                &&& r.data->0.wf()
                &&& exists|n: i64| r.data->0.id@ == "puzzle_"@ + signed_decimal_of(n as int)
                &&& r.data->0.created_at@ == r.data->0.updated_at@
                &&& final(state).puzzles@ == old(state).puzzles@.push(r.data->0)
                &&& final(state).leaderboard@ == old(state).leaderboard@
            } else {
                &&& r.is_error_with(clock_error_message())
                &&& *final(state) == *old(state)
            },
        },
        params.name@.len() == 0 ==> r.is_error_with(
            params_error_message(PuzzleParamsError::EmptyName),
        ),
        !is_blank(params.name@) && params.image_path@.len() == 0 ==> r.is_error_with(
            params_error_message(PuzzleParamsError::EmptyImagePath),
        ),
        (params.name@.len() == 0 || params.image_path@.len() == 0
            || !params.grid_size.is_positive()) ==> !r.success && *final(state) == *old(state),
{
    let name_blank = trim_text(params.name.as_str()).is_empty();
    let image_blank = trim_text(params.image_path.as_str()).is_empty();
    if let Some(e) = check_puzzle_params(name_blank, image_blank, &params.grid_size) {
        return ApiResponse::error(e.message());
    }
    match read_clock() {
        None => ApiResponse::error("无法读取系统时间"),
        Some(t) => {
            let now = t.secs;
            let r = create_puzzle_at(params, name_blank, image_blank, now, t.text, state);
            assert(r.data->0.id@ == "puzzle_"@ + signed_decimal_of(now as int));
            r
        },
    }
}

/// The name recorded for every leaderboard entry.
pub open spec fn default_player_name() -> Seq<char> {
    "玩家"@
}

/// The message a saved game is acknowledged with.
pub open spec fn saved_message() -> Seq<char> {
    "游戏已保存"@
}

/// `e` records the completed game `g` at `now` seconds, stamped `stamp`.
pub open spec fn is_entry_of(e: LeaderboardEntry, g: GameState, now: i64, stamp: Seq<char>) -> bool {
    &&& e.id@ == "leaderboard_"@ + signed_decimal_of(now as int)
    &&& e.puzzle_id == g.config.id
    &&& e.player_name@ == default_player_name()
    &&& e.completion_time == g.elapsed_time
    &&& e.moves == g.moves
    &&& e.difficulty == g.config.difficulty
    &&& e.completed_at@ == stamp
}

/// Saves a game at `now` seconds, stamped `stamp`: a completed game adds
/// one leaderboard entry, an unfinished one changes nothing.
pub fn save_game_at(params: SaveGameParams, now: i64, stamp: String, state: &mut AppState) -> (r:
    ApiResponse<String>)
    ensures
        r.wf(),
        r.success && r.data->0@ == saved_message(),
        final(state).puzzles@ == old(state).puzzles@,
        final(state).wf() == old(state).wf(),
        if params.game_state.is_completed {
            &&& final(state).leaderboard@.len() == old(state).leaderboard@.len() + 1
            &&& final(state).leaderboard@.drop_last() == old(state).leaderboard@
            &&& is_entry_of(final(state).leaderboard@.last(), params.game_state, now, stamp@)
        } else {
            final(state).leaderboard@ == old(state).leaderboard@
        },
{
    proof {
        reveal_strlit("leaderboard_");
    }
    let g = params.game_state;
    if g.is_completed {
        let entry = LeaderboardEntry {
            id: numbered("leaderboard_", now),
            puzzle_id: g.config.id,
            player_name: String::from_str("玩家"),
            completion_time: g.elapsed_time,
            moves: g.moves,
            difficulty: g.config.difficulty,
            completed_at: stamp,
        };
        state.add_entry(entry);
        assert(final(state).leaderboard@.drop_last() =~= old(state).leaderboard@);
    }
    ApiResponse::success(String::from_str("游戏已保存"))
}

/// Saves a game: a completed game adds exactly one leaderboard entry for
/// its puzzle, time, move count and difficulty; an unfinished one adds none.
/// A completed game fails to save only when the clock cannot be read, and
/// then adds nothing.
pub fn save_game(params: SaveGameParams, state: &mut AppState) -> (r: ApiResponse<String>)
    ensures
        r.wf(),
        final(state).puzzles@ == old(state).puzzles@,
        final(state).wf() == old(state).wf(),
        !params.game_state.is_completed ==> r.success,
        r.success ==> r.data->0@ == saved_message(),
        !r.success ==> r.is_error_with(clock_error_message()),
        if params.game_state.is_completed && r.success {
            let e = final(state).leaderboard@.last();
            &&& final(state).leaderboard@.len() == old(state).leaderboard@.len() + 1
            &&& final(state).leaderboard@.drop_last() == old(state).leaderboard@
            &&& exists|n: i64| e.id@ == "leaderboard_"@ + signed_decimal_of(n as int)
            &&& e.puzzle_id == params.game_state.config.id
            &&& e.player_name@ == default_player_name()
            &&& e.completion_time == params.game_state.elapsed_time
            &&& e.moves == params.game_state.moves
            &&& e.difficulty == params.game_state.config.difficulty
        } else {
            final(state).leaderboard@ == old(state).leaderboard@
        },
{
    if !params.game_state.is_completed {
        return save_game_at(params, 0, String::new(), state);
    }
    match read_clock() {
        None => ApiResponse::error("无法读取系统时间"),
        Some(t) => {
            let now = t.secs;
            let r = save_game_at(params, now, t.text, state);
            assert(final(state).leaderboard@.last().id@ == "leaderboard_"@ + signed_decimal_of(
                now as int,
            ));
            r
        },
    }
}

/// The message a load of an unknown puzzle answers with.
pub open spec fn not_found_message() -> Seq<char> {
    "未找到拼图配置"@
}

/// `g` is a new game on `cfg`, started at `stamp`.
pub open spec fn is_new_game(g: GameState, cfg: PuzzleConfig, stamp: Seq<char>) -> bool {
    &&& g.config == cfg
    &&& g.start_time@ == stamp
    &&& g.end_time is None
    &&& g.moves == 0
    &&& !g.is_completed
    &&& g.elapsed_time == 0
}

/// Starts a new game, stamped `stamp`, on the first puzzle whose id is the
/// requested one; fails with a not-found message when there is none.
pub fn load_game_at(params: LoadGameParams, stamp: String, state: &AppState) -> (r: ApiResponse<
    GameState,
>)
    ensures
        r.wf(),
        r.success <==> !has_no_id(state.puzzles@, params.game_id@),
        r.success ==> exists|i: int|
            is_first_with_id(state.puzzles@, params.game_id@, i) && is_new_game(
                r.data->0,
                state.puzzles@[i],
                stamp@,
            ),
        !r.success ==> r.is_error_with(not_found_message()),
{
    match state.find_puzzle(&params.game_id) {
        Some(i) => {
            let game = GameState {
                config: state.puzzles[i].duplicate(),
                start_time: stamp,
                end_time: None,
                moves: 0,
                is_completed: false,
                elapsed_time: 0,
            };
            ApiResponse::success(game)
        },
        None => ApiResponse::error("未找到拼图配置"),
    }
}

/// Starts a new game on the first puzzle with the requested id; fails with
/// a not-found message when there is none, and with a clock message when
/// the clock cannot be read. The store is only read.
pub fn load_game(params: LoadGameParams, state: &AppState) -> (r: ApiResponse<GameState>)
    ensures
        r.wf(),
        r.success ==> exists|i: int|
            is_first_with_id(state.puzzles@, params.game_id@, i) && r.data->0.config
                == state.puzzles@[i] && r.data->0.moves == 0 && !r.data->0.is_completed
                && r.data->0.elapsed_time == 0 && r.data->0.end_time is None,
        has_no_id(state.puzzles@, params.game_id@) ==> r.is_error_with(not_found_message()),
        !has_no_id(state.puzzles@, params.game_id@) && !r.success ==> r.is_error_with(
            clock_error_message(),
        ),
{
    if state.find_puzzle(&params.game_id).is_none() {
        return ApiResponse::error("未找到拼图配置");
    }
    match read_clock() {
        None => ApiResponse::error("无法读取系统时间"),
        Some(t) => load_game_at(params, t.text, state),
    }
}

/// The leaderboard in ascending order of completion time; entries of equal
/// time stay in order of arrival.
pub fn get_leaderboard(state: &AppState) -> (r: ApiResponse<Vec<LeaderboardEntry>>)
    ensures
        r.wf(),
        r.success && r.data->0@ == sort_by_time(state.leaderboard@),
        sorted_by_time(r.data->0@),
        r.data->0@.to_multiset() == state.leaderboard@.to_multiset(),
{
    proof {
        lemma_sort_by_time(state.leaderboard@);
    }
    ApiResponse::success(state.leaderboard_sorted())
}

/// Every puzzle, in order of creation.
pub fn get_puzzles(state: &AppState) -> (r: ApiResponse<Vec<PuzzleConfig>>)
    ensures
        r.wf(),
        r.success && r.data->0@ == state.puzzles@,
{
    ApiResponse::success(state.puzzles_copy())
}

/// The greeting the host shows for `name`.
pub fn greet(name: &str) -> (r: String)
    ensures
        r@ == "贵族的女儿： "@ + name@ + "！"@,
{
    let mut out = String::from_str("贵族的女儿： ");
    out.append(name);
    out.append("！");
    out
}

} // verus!
