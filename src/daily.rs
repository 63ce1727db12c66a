use vstd::prelude::*;
use crate::decimal::{numbered, signed_decimal_of};
use crate::models::ApiResponse;
use crate::platform::{clock_error_message, read_clock};

verus! {

/// What finishing a daily challenge earns.
#[derive(Debug, Clone, Copy, PartialEq, Eq, Structural)]
pub struct DailyRewards {
    pub coins: u32,
    pub experience: u32,
}

/// The rewards for a finished daily challenge: a perfect run earns double.
pub open spec fn rewards_for(is_perfect: bool) -> DailyRewards {
    if is_perfect {
        DailyRewards { coins: 100, experience: 50 }
    } else {
        DailyRewards { coins: 50, experience: 25 }
    }
}

/// The rewards for a finished daily challenge.
pub fn daily_rewards(is_perfect: bool) -> (r: DailyRewards)
    ensures
        r == rewards_for(is_perfect),
{
    if is_perfect {
        DailyRewards { coins: 100, experience: 50 }
    } else {
        DailyRewards { coins: 50, experience: 25 }
    }
}

/// The answer to a submitted daily challenge. No ranking is kept, so every
/// submission is a new record at rank one.
#[derive(Debug, Clone)]
pub struct DailySubmission {
    pub game_id: String,
    pub rewards: DailyRewards,
    pub is_new_record: bool,
    pub rank: u32,
}

/// Answers a daily-challenge submission made at `now` seconds.
pub fn submit_daily_challenge_at(is_perfect: bool, now: i64) -> (r: DailySubmission)
    ensures
        r.game_id@ == "daily_"@ + signed_decimal_of(now as int),
        r.rewards == rewards_for(is_perfect),
        r.is_new_record,
        r.rank == 1,
{
    proof {
        reveal_strlit("daily_");
    }
    DailySubmission {
        game_id: numbered("daily_", now),
        rewards: daily_rewards(is_perfect),
        is_new_record: true,
        rank: 1,
    }
}

/// Answers a daily-challenge submission, given whether the run was perfect.
/// Fails only when the clock cannot be read.
pub fn submit_daily_challenge(is_perfect: bool) -> (r: ApiResponse<DailySubmission>)
    ensures
        r.wf(),
        r.success ==> {
            &&& exists|n: i64| r.data->0.game_id@ == "daily_"@ + signed_decimal_of(n as int)
            &&& r.data->0.rewards == rewards_for(is_perfect)
            &&& r.data->0.is_new_record
            &&& r.data->0.rank == 1
        },
        !r.success ==> r.is_error_with(clock_error_message()),
{
    match read_clock() {
        None => ApiResponse::error("无法读取系统时间"),
        Some(t) => {
            let now = t.secs;
            let d = submit_daily_challenge_at(is_perfect, now);
            assert(d.game_id@ == "daily_"@ + signed_decimal_of(now as int));
            ApiResponse::success(d)
        },
    }
}

/// One row of the daily-challenge leaderboard.
#[derive(Debug, Clone)]
pub struct DailyLeaderboardEntry {
    pub id: String,
    pub date: String,
    pub player_name: String,
    pub score: u32,
    pub completion_time: u32,
    pub moves: u32,
    pub difficulty: String,
    pub is_perfect: bool,
    pub consecutive_days: u32,
    pub total_challenges_completed: u32,
    pub average_score: u32,
    pub total_stars: u32,
    pub completed_at: String,
}

/// A page of the daily-challenge leaderboard.
#[derive(Debug, Clone)]
pub struct DailyLeaderboard {
    pub leaderboard: Vec<DailyLeaderboardEntry>,
    pub user_rank: u32,
    pub page: u32,
    pub limit: u64,
    pub total: usize,
    pub total_pages: u32,
}

/// The two sample rows every daily leaderboard shows, for `date`, stamped
/// `stamp`.
pub open spec fn is_sample_board(b: DailyLeaderboard, date: Seq<char>, limit: u64, stamp: Seq<char>) -> bool {
    let rows = b.leaderboard@;
    &&& rows.len() == 2
    &&& rows[0].id@ == "daily_1"@ && rows[1].id@ == "daily_2"@
    &&& rows[0].player_name@ == "玩家1"@ && rows[1].player_name@ == "玩家2"@
    &&& rows[0].score == 950 && rows[1].score == 880
    &&& rows[0].completion_time == 120 && rows[1].completion_time == 150
    &&& rows[0].moves == 25 && rows[1].moves == 30
    &&& rows[0].is_perfect && !rows[1].is_perfect
    &&& rows[0].consecutive_days == 5 && rows[1].consecutive_days == 3
    &&& rows[0].total_challenges_completed == 10 && rows[1].total_challenges_completed == 8
    &&& rows[0].average_score == 850 && rows[1].average_score == 800
    &&& rows[0].total_stars == 3 && rows[1].total_stars == 2
    &&& forall|k: int|
        0 <= k < 2 ==> {
            &&& rows[k].date@ == date
            &&& rows[k].difficulty@ == "medium"@
            &&& rows[k].completed_at@ == stamp
        }
    &&& b.user_rank == 1
    &&& b.page == 1
    &&& b.limit == limit
    &&& b.total == 2
    &&& b.total_pages == 1
}

/// One sample row of the daily leaderboard, dated `date`, stamped `stamp`.
fn sample_row(
    id: &str,
    date: &String,
    player_name: &str,
    score: u32,
    completion_time: u32,
    moves: u32,
    is_perfect: bool,
    days: u32,
    completed: u32,
    average_score: u32,
    stars: u32,
    stamp: &String,
) -> (r: DailyLeaderboardEntry)
    ensures
        r.id@ == id@,
        r.date@ == date@,
        r.player_name@ == player_name@,
        r.score == score,
        r.completion_time == completion_time,
        r.moves == moves,
        r.difficulty@ == "medium"@,
        r.is_perfect == is_perfect,
        r.consecutive_days == days,
        r.total_challenges_completed == completed,
        r.average_score == average_score,
        r.total_stars == stars,
        r.completed_at@ == stamp@,
{
    DailyLeaderboardEntry {
        id: String::from_str(id),
        date: date.clone(),
        player_name: String::from_str(player_name),
        score,
        completion_time,
        moves,
        difficulty: String::from_str("medium"),
        is_perfect,
        consecutive_days: days,
        total_challenges_completed: completed,
        average_score,
        total_stars: stars,
        completed_at: stamp.clone(),
    }
}

/// The daily leaderboard for `date`, stamped `stamp`. No results are kept,
/// so it always holds the same two sample rows.
pub fn daily_leaderboard_at(date: String, limit: u64, stamp: String) -> (r: DailyLeaderboard)
    ensures
        is_sample_board(r, date@, limit, stamp@),
{
    let first = sample_row("daily_1", &date, "玩家1", 950, 120, 25, true, 5, 10, 850, 3, &stamp);
    let second = sample_row("daily_2", &date, "玩家2", 880, 150, 30, false, 3, 8, 800, 2, &stamp);
    let mut rows: Vec<DailyLeaderboardEntry> = Vec::new();
    rows.push(first);
    rows.push(second);
    let total = rows.len();
    DailyLeaderboard { leaderboard: rows, user_rank: 1, page: 1, limit, total, total_pages: 1 }
}

/// The daily leaderboard for `date`, stamped with the current time. Fails
/// only when the clock cannot be read.
pub fn get_daily_challenge_leaderboard(date: String, limit: u64) -> (r: ApiResponse<
    DailyLeaderboard,
>)
    ensures
        r.wf(),
        r.success ==> is_sample_board(
            r.data->0,
            date@,
            limit,
            r.data->0.leaderboard@[0].completed_at@,
        ),
        !r.success ==> r.is_error_with(clock_error_message()),
{
    match read_clock() {
        None => ApiResponse::error("无法读取系统时间"),
        Some(t) => ApiResponse::success(daily_leaderboard_at(date, limit, t.text)),
    }
}

/// A player's daily-challenge statistics.
#[derive(Debug, Clone, Copy, PartialEq, Eq, Structural)]
pub struct DailyChallengeStats {
    pub total_challenges: u32,
    pub average_score: u32,
    pub consecutive_days: u32,
    pub best_score: u32,
    pub completion_rate: u32,
    pub avg_completion_time: u32,
    pub best_time: u32,
    pub avg_moves: u32,
    pub best_moves: u32,
}

/// The statistics every player is shown: no results are kept.
pub open spec fn sample_stats() -> DailyChallengeStats {
    DailyChallengeStats {
        total_challenges: 15,
        average_score: 850,
        consecutive_days: 7,
        best_score: 1000,
        completion_rate: 100,
        avg_completion_time: 135,
        best_time: 90,
        avg_moves: 28,
        best_moves: 20,
    }
}

/// A player's daily-challenge statistics.
pub fn get_daily_challenge_stats() -> (r: ApiResponse<DailyChallengeStats>)
    ensures
        r.wf(),
        r.is_success_with(sample_stats()),
{
    ApiResponse::success(
        DailyChallengeStats {
            total_challenges: 15,
            average_score: 850,
            consecutive_days: 7,
            best_score: 1000,
            completion_rate: 100,
            avg_completion_time: 135,
            best_time: 90,
            avg_moves: 28,
            best_moves: 20,
        },
    )
}

} // verus!
