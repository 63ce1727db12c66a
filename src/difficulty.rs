use vstd::prelude::*;
use crate::models::{DifficultyLevel, GridSize, PieceShape};

verus! {

/// The difficulty tier of a puzzle with `total` pieces of the given shape.
pub open spec fn difficulty_of(total: int, shape: PieceShape) -> DifficultyLevel {
    if total <= 9 {
        if shape == PieceShape::Square { DifficultyLevel::Easy } else { DifficultyLevel::Medium }
    } else if total <= 16 {
        if shape == PieceShape::Square { DifficultyLevel::Medium } else { DifficultyLevel::Hard }
    } else if total <= 25 {
        if shape == PieceShape::Square { DifficultyLevel::Hard } else { DifficultyLevel::Expert }
    } else {
        DifficultyLevel::Expert
    }
}

/// Classifies a grid and piece shape. The piece count is computed without
/// overflow for every pair of `u32` dimensions.
pub fn calculate_difficulty(grid_size: &GridSize, piece_shape: &PieceShape) -> (r: DifficultyLevel)
    ensures
        r == difficulty_of(grid_size.cells(), *piece_shape),
{
    let rows = grid_size.rows as u64;
    let cols = grid_size.cols as u64;
    assert(rows * cols <= u32::MAX as int * u32::MAX as int) by (nonlinear_arith)
        requires
            rows <= u32::MAX,
            cols <= u32::MAX,
    ;
    let total_pieces: u64 = rows * cols;
    let square = match piece_shape {
        PieceShape::Square => true,
        _ => false,
    };
    if total_pieces <= 9 {
        if square { DifficultyLevel::Easy } else { DifficultyLevel::Medium }
    } else if total_pieces <= 16 {
        if square { DifficultyLevel::Medium } else { DifficultyLevel::Hard }
    } else if total_pieces <= 25 {
        if square { DifficultyLevel::Hard } else { DifficultyLevel::Expert }
    } else {
        DifficultyLevel::Expert
    }
}

/// The tiers at the edges of each piece-count band, for every shape and
/// every positive grid: up to 9 pieces, 10 to 16, 17 to 25, and above 25.
pub proof fn lemma_difficulty_bands(grid: GridSize, shape: PieceShape)
    requires
        grid.is_positive(),
    ensures
        grid.cells() <= 9 ==> difficulty_of(grid.cells(), shape) == (if shape == PieceShape::Square {
            DifficultyLevel::Easy
        } else {
            DifficultyLevel::Medium
        }),
        10 <= grid.cells() <= 16 ==> difficulty_of(grid.cells(), shape) == (if shape
            == PieceShape::Square {
            DifficultyLevel::Medium
        } else {
            DifficultyLevel::Hard
        }),
        17 <= grid.cells() <= 25 ==> difficulty_of(grid.cells(), shape) == (if shape
            == PieceShape::Square {
            DifficultyLevel::Hard
        } else {
            DifficultyLevel::Expert
        }),
        grid.cells() >= 26 ==> difficulty_of(grid.cells(), shape) == DifficultyLevel::Expert,
        grid.cells() >= 1,
{
    assert(grid.cells() >= 1) by (nonlinear_arith)
        requires
            grid.rows >= 1,
            grid.cols >= 1,
            grid.cells() == grid.rows as int * grid.cols as int,
    ;
}

} // verus!
