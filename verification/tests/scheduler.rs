use rust_nuke::scheduler::{plan_round, FundingSchedule, MAX_SPENDS_PER_TX};

#[test]
fn the_fan_out_limit_is_four() {
    assert_eq!(MAX_SPENDS_PER_TX, 4);
}

#[test]
fn one_source_funds_last_four() {
    let funded: Vec<u64> = vec![100];
    let mut not_funded: Vec<u64> = vec![1, 2, 3, 4];
    let (to_fund, new_funded) = plan_round(&funded, &mut not_funded, 100_000, 100, 3_900);
    // to_lamports = (100_000 - 3_900 - 100) / 4 = 24_000
    assert_eq!(to_fund.len(), 1);
    assert_eq!(to_fund[0].from, 100);
    let spends = &to_fund[0].spends;
    assert_eq!(spends.len(), 4);
    for (j, s) in spends.iter().enumerate() {
        assert_eq!(s.to, (j + 1) as u64);
        assert_eq!(s.lamports, 24_000);
    }
    assert_eq!(new_funded, vec![1, 2, 3, 4]);
    assert!(not_funded.is_empty());
}

#[test]
fn sources_take_destinations_from_the_back() {
    let funded: Vec<u64> = vec![1, 2];
    let mut not_funded: Vec<u64> = vec![10, 11, 12, 13, 14, 15, 16, 17];
    let (to_fund, new_funded) = plan_round(&funded, &mut not_funded, 4_004, 2, 2);
    // to_lamports = (4_004 - 2 - 2) / 4 = 1_000
    assert_eq!(to_fund.len(), 2);
    let dests0: Vec<u64> = to_fund[0].spends.iter().map(|s| s.to).collect();
    let dests1: Vec<u64> = to_fund[1].spends.iter().map(|s| s.to).collect();
    assert_eq!(dests0, vec![14, 15, 16, 17]);
    assert_eq!(dests1, vec![10, 11, 12, 13]);
    assert_eq!(new_funded, vec![14, 15, 16, 17, 10, 11, 12, 13]);
    assert!(not_funded.is_empty());
}

#[test]
fn a_round_conserves_the_source_balance() {
    let funded: Vec<u64> = vec![7];
    let mut not_funded: Vec<u64> = vec![1, 2, 3, 4];
    let funded_funds: u64 = 1_000_003;
    let max_fee: u64 = 5_000;
    let reserve: u64 = 200_000;
    let (to_fund, _) = plan_round(&funded, &mut not_funded, funded_funds, max_fee, reserve);
    let spent: u64 = to_fund[0].spends.iter().map(|s| s.lamports).sum();
    assert!(spent <= funded_funds - reserve - max_fee);
    // (1_000_003 - 200_000 - 5_000) / 4 = 198_750, spent = 4 * 198_750
    assert_eq!(spent, 795_000);
}

#[test]
fn schedule_advances_the_frontier() {
    let dests: Vec<u64> = (1..=20).collect();
    let mut schedule = FundingSchedule::new(0, 4_040, dests);
    assert!(!schedule.is_complete());

    let round1 = schedule.next_round(10, 10);
    // to_lamports = (4_040 - 10 - 10) / 4 = 1_005
    assert_eq!(round1.len(), 1);
    assert_eq!(round1[0].from, 0);
    assert_eq!(schedule.funded, vec![17, 18, 19, 20]);
    assert_eq!(schedule.funded_funds, 1_005);
    assert_eq!(schedule.not_funded, (1..=16).collect::<Vec<u64>>());
    assert!(!schedule.is_complete());

    let round2 = schedule.next_round(1, 1);
    // to_lamports = (1_005 - 1 - 1) / 4 = 250
    assert_eq!(round2.len(), 4);
    assert_eq!(round2[0].from, 17);
    let dests0: Vec<u64> = round2[0].spends.iter().map(|s| s.to).collect();
    assert_eq!(dests0, vec![13, 14, 15, 16]);
    assert_eq!(schedule.funded.len(), 16);
    assert_eq!(schedule.funded_funds, 250);
    assert!(schedule.not_funded.is_empty());
    assert!(schedule.is_complete());
}
