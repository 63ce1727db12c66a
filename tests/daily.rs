use jigsaw_core::daily::{
    daily_leaderboard_at, daily_rewards, get_daily_challenge_leaderboard, get_daily_challenge_stats,
    submit_daily_challenge, submit_daily_challenge_at,
};
use jigsaw_core::models::ApiResponse;

#[test]
fn perfect_run_earns_double() {
    let r = daily_rewards(true);
    assert_eq!((r.coins, r.experience), (100, 50));
    let r = daily_rewards(false);
    assert_eq!((r.coins, r.experience), (50, 25));
}

#[test]
fn submission_is_rank_one() {
    let r = submit_daily_challenge(false);
    assert!(r.success);
    let d = r.data.unwrap();
    assert_eq!(d.rank, 1);
    assert!(d.is_new_record);
    assert!(d.game_id.starts_with("daily_"));
    let d = submit_daily_challenge_at(true, 77);
    assert_eq!(d.game_id, "daily_77");
    assert_eq!(d.rewards.coins, 100);
}

#[test]
fn daily_board_has_two_sample_rows() {
    let b = daily_leaderboard_at("2024-05-01".to_string(), 10, "t".to_string());
    assert_eq!(b.leaderboard.len(), 2);
    assert_eq!(b.total, 2);
    assert_eq!(b.limit, 10);
    assert_eq!(b.page, 1);
    assert_eq!(b.total_pages, 1);
    assert_eq!(b.user_rank, 1);
    assert_eq!(b.leaderboard[0].id, "daily_1");
    assert_eq!(b.leaderboard[0].player_name, "玩家1");
    assert_eq!(b.leaderboard[0].score, 950);
    assert_eq!(b.leaderboard[1].score, 880);
    assert_eq!(b.leaderboard[1].date, "2024-05-01");
    assert_eq!(b.leaderboard[1].difficulty, "medium");
    assert!(!b.leaderboard[1].is_perfect);
    let r = get_daily_challenge_leaderboard("d".to_string(), 3);
    assert!(r.success);
    assert_eq!(r.data.unwrap().leaderboard[0].date, "d");
}

#[test]
fn daily_stats_are_fixed() {
    let s = get_daily_challenge_stats().data.unwrap();
    assert_eq!(s.total_challenges, 15);
    assert_eq!(s.best_score, 1000);
    assert_eq!(s.best_moves, 20);
}

#[test]
fn envelope_holds_payload_or_message() {
    let ok: ApiResponse<u32> = ApiResponse::success(7);
    assert!(ok.success && ok.data == Some(7) && ok.error.is_none());
    let err: ApiResponse<u32> = ApiResponse::error("boom");
    assert!(!err.success && err.data.is_none());
    assert_eq!(err.error.unwrap(), "boom");
}
