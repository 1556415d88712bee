use legasi::state::Reputation;

fn rep(successful_repayments: u32, gad_events: u32, account_age_days: u32) -> Reputation {
    Reputation { successful_repayments, total_repaid_usd: 0, gad_events, account_age_days }
}

#[test]
fn score_counts_fifty_per_repayment_up_to_five_hundred() {
    assert_eq!(rep(0, 0, 0).get_score(), 0);
    assert_eq!(rep(3, 0, 0).get_score(), 150);
    assert_eq!(rep(10, 0, 0).get_score(), 500);
    assert_eq!(rep(11, 0, 0).get_score(), 500);
    assert_eq!(rep(u32::MAX, 0, 0).get_score(), 500);
}

#[test]
fn score_counts_ten_per_thirty_days_up_to_one_hundred() {
    assert_eq!(rep(0, 0, 29).get_score(), 0);
    assert_eq!(rep(0, 0, 30).get_score(), 10);
    assert_eq!(rep(0, 0, 299).get_score(), 90);
    assert_eq!(rep(0, 0, 300).get_score(), 100);
    assert_eq!(rep(0, 0, u32::MAX).get_score(), 100);
    assert_eq!(rep(10, 0, 300).get_score(), 600);
}

#[test]
fn score_loses_one_hundred_per_gad_event_and_stops_at_zero() {
    assert_eq!(rep(10, 1, 300).get_score(), 500);
    assert_eq!(rep(4, 1, 0).get_score(), 100);
    assert_eq!(rep(1, 1, 0).get_score(), 0);
    assert_eq!(rep(10, 6, 300).get_score(), 0);
    assert_eq!(rep(10, u32::MAX, 300).get_score(), 0);
}

#[test]
fn bonus_tiers_are_inclusive_at_their_boundaries() {
    // 1 repayment + 490 days: 50 + 100 = 150; boundaries built from 50s and 10s
    assert_eq!(rep(1, 0, 120).get_score(), 90);
    assert_eq!(rep(1, 0, 120).get_ltv_bonus_bps(), 0);
    assert_eq!(rep(2, 0, 0).get_score(), 100);
    assert_eq!(rep(2, 0, 0).get_ltv_bonus_bps(), 100);
    assert_eq!(rep(3, 0, 120).get_score(), 190);
    assert_eq!(rep(3, 0, 120).get_ltv_bonus_bps(), 100);
    assert_eq!(rep(4, 0, 0).get_score(), 200);
    assert_eq!(rep(4, 0, 0).get_ltv_bonus_bps(), 300);
    assert_eq!(rep(7, 0, 120).get_score(), 390);
    assert_eq!(rep(7, 0, 120).get_ltv_bonus_bps(), 300);
    assert_eq!(rep(8, 0, 0).get_score(), 400);
    assert_eq!(rep(8, 0, 0).get_ltv_bonus_bps(), 500);
    assert_eq!(rep(10, 0, 300).get_ltv_bonus_bps(), 500);
}

#[test]
fn default_reputation_is_empty() {
    let r = Reputation::default();
    assert_eq!(r, rep(0, 0, 0));
    assert_eq!(r.get_score(), 0);
    assert_eq!(r.get_ltv_bonus_bps(), 0);
}
