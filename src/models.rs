use vstd::prelude::*;
use crate::difficulty::difficulty_of;

verus! {

/// The outline that every piece of a puzzle is cut to.
#[derive(Debug, Clone, Copy, PartialEq, Eq, Structural)]
pub enum PieceShape {
    Square,
    Triangle,
    Irregular,
}

/// How hard a puzzle is, derived from its piece count and piece shape.
#[derive(Debug, Clone, Copy, PartialEq, Eq, Structural)]
pub enum DifficultyLevel {
    Easy,
    Medium,
    Hard,
    Expert,
}

/// The number of piece rows and columns a picture is cut into.
#[derive(Debug, Clone, Copy, PartialEq, Eq, Structural)]
pub struct GridSize {
    pub rows: u32,
    pub cols: u32,
}

impl GridSize {
    /// Number of cells of the grid, as a mathematical integer.
    pub open spec fn cells(self) -> int {
        self.rows as int * self.cols as int
    }

    /// Both dimensions are strictly positive.
    pub open spec fn is_positive(self) -> bool {
        self.rows > 0 && self.cols > 0
    }
}

/// A puzzle as kept by the store. The cut pieces are not held here: the
/// store never produces any, so a configuration always has none.
#[derive(Debug, Clone)]
pub struct PuzzleConfig {
    pub id: String,
    pub name: String,
    pub original_image: String,
    pub grid_size: GridSize,
    pub piece_shape: PieceShape,
    pub difficulty: DifficultyLevel,
    pub created_at: String,
    pub updated_at: String,
}

impl PuzzleConfig {
    /// The grid is positive and the tier is the one its size and shape give.
    pub open spec fn wf(self) -> bool {
        &&& self.grid_size.is_positive()
        &&& self.difficulty == difficulty_of(self.grid_size.cells(), self.piece_shape)
    }

    /// A field-by-field copy.
    pub fn duplicate(&self) -> (r: PuzzleConfig)
        ensures
            r == *self,
    {
        PuzzleConfig {
            id: self.id.clone(),
            name: self.name.clone(),
            original_image: self.original_image.clone(),
            grid_size: self.grid_size,
            piece_shape: self.piece_shape,
            difficulty: self.difficulty,
            created_at: self.created_at.clone(),
            updated_at: self.updated_at.clone(),
        }
    }
}

/// A game in progress on one puzzle. The move history is not held here.
#[derive(Debug, Clone)]
pub struct GameState {
    pub config: PuzzleConfig,
    pub start_time: String,
    pub end_time: Option<String>,
    pub moves: u32,
    pub is_completed: bool,
    pub elapsed_time: u64,
}

/// What a single move did to a piece.
#[derive(Debug, Clone, Copy, PartialEq, Eq, Structural)]
pub enum MoveAction {
    Move,
    Rotate,
    Flip,
}

/// A picture that puzzles can be made from.
#[derive(Debug, Clone)]
pub struct Asset {
    pub id: String,
    pub name: String,
    pub category: String,
    pub tags: Vec<String>,
    pub file_path: String,
    pub thumbnail: String,
    pub width: u32,
    pub height: u32,
    pub file_size: u64,
    pub created_at: String,
}

/// One finished game on the leaderboard.
#[derive(Debug, Clone)]
pub struct LeaderboardEntry {
    pub id: String,
    pub puzzle_id: String,
    pub player_name: String,
    pub completion_time: u64,
    pub moves: u32,
    pub difficulty: DifficultyLevel,
    pub completed_at: String,
}

impl LeaderboardEntry {
    /// A field-by-field copy.
    pub fn duplicate(&self) -> (r: LeaderboardEntry)
        ensures
            r == *self,
    {
        LeaderboardEntry {
            id: self.id.clone(),
            puzzle_id: self.puzzle_id.clone(),
            player_name: self.player_name.clone(),
            completion_time: self.completion_time,
            moves: self.moves,
            difficulty: self.difficulty,
            completed_at: self.completed_at.clone(),
        }
    }
}

/// Input of the create-puzzle command.
#[derive(Debug, Clone)]
pub struct CreatePuzzleParams {
    pub image_path: String,
    pub grid_size: GridSize,
    pub piece_shape: PieceShape,
    pub name: String,
}

/// Input of the save-game command.
#[derive(Debug, Clone)]
pub struct SaveGameParams {
    pub game_state: GameState,
}

/// Input of the load-game command.
#[derive(Debug, Clone)]
pub struct LoadGameParams {
    pub game_id: String,
}

/// The envelope every command answers with: a payload on success, a
/// message on failure, never both.
#[derive(Debug, Clone)]
pub struct ApiResponse<T> {
    pub success: bool,
    pub data: Option<T>,
    pub error: Option<String>,
}

impl<T> ApiResponse<T> {
    /// The envelope is a success carrying exactly `d`.
    pub open spec fn is_success_with(self, d: T) -> bool {
        self.success && self.data == Some(d) && self.error is None
    }

    /// The envelope is a failure carrying exactly the message `m`.
    pub open spec fn is_error_with(self, m: Seq<char>) -> bool {
        &&& !self.success
        &&& self.data is None
        &&& self.error is Some
        &&& self.error->0@ == m
    }

    /// Exactly one of payload and message is present, as `success` says.
    pub open spec fn wf(self) -> bool {
        if self.success {
            self.data is Some && self.error is None
        } else {
            self.data is None && self.error is Some
        }
    }

    /// A success carrying `data`.
    pub fn success(data: T) -> (r: Self)
        ensures
            r.is_success_with(data),
            r.wf(),
    {
        ApiResponse { success: true, data: Some(data), error: None }
    }

    /// A failure carrying a copy of `message`.
    pub fn error(message: &str) -> (r: Self)
        ensures
            r.is_error_with(message@),
            r.wf(),
    {
        ApiResponse { success: false, data: None, error: Some(String::from_str(message)) }
    }
}

} // verus!
