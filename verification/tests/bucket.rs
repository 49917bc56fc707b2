use a2a_wasm::bucket::{check_token_bucket, RateState};

#[test]
fn test_token_bucket_allows_valid_request() {
    let (allowed, remaining) = check_token_bucket(100, 1000, 10, 1, 50);
    assert!(allowed);
    assert_eq!(remaining, 60);
}

#[test]
fn test_token_bucket_denies_excessive_request() {
    let (allowed, _) = check_token_bucket(10, 1000, 1, 1, 500);
    assert!(!allowed);
}

#[test]
fn denied_request_keeps_what_replenishment_added() {
    assert_eq!(check_token_bucket(10, 1000, 1, 1, 500), (false, 11));
}

#[test]
fn admitted_request_pays_its_cost() {
    assert_eq!(check_token_bucket(100, 1000, 10, 1, 50), (true, 60));
    assert_eq!(check_token_bucket(100, 1000, 10, 1, 110), (true, 0));
    assert_eq!(check_token_bucket(100, 1000, 10, 1, 111), (false, 110));
}

#[test]
fn replenishment_stops_at_capacity() {
    assert_eq!(check_token_bucket(900, 1000, 10, 60, 0), (true, 1000));
    assert_eq!(check_token_bucket(900, 1000, 10, 10, 1000), (true, 0));
    assert_eq!(check_token_bucket(900, 1000, 10, 10, 1001), (false, 1000));
    assert_eq!(check_token_bucket(5000, 1000, 0, 0, 0), (true, 1000));
}

#[test]
fn no_time_elapsed_means_no_replenishment() {
    for rate in [0, 1, 10, u64::MAX] {
        assert_eq!(check_token_bucket(100, 1000, rate, 0, 100), (true, 0));
        assert_eq!(check_token_bucket(100, 1000, rate, 0, 101), (false, 100));
        assert_eq!(check_token_bucket(2000, 1000, rate, 0, 1000), (true, 0));
        assert_eq!(check_token_bucket(2000, 1000, rate, 0, 1001), (false, 1000));
    }
}

#[test]
fn remaining_tokens_stay_within_the_capacity() {
    let samples = [0, 1, 7, 1000, u64::MAX / 2, u64::MAX];
    for stored in samples {
        for capacity in samples {
            for rate in samples {
                for elapsed in samples {
                    for cost in samples {
                        let (_, remaining) =
                            check_token_bucket(stored, capacity, rate, elapsed, cost);
                        assert!(remaining <= capacity);
                    }
                }
            }
        }
    }
}

#[test]
fn huge_replenishment_fills_the_bucket_without_overflow() {
    assert_eq!(check_token_bucket(1, 1000, u64::MAX, u64::MAX, 1), (true, 999));
    assert_eq!(check_token_bucket(u64::MAX, u64::MAX, 1, 1, 0), (true, u64::MAX));
    assert_eq!(check_token_bucket(u64::MAX, u64::MAX, 2, 3, u64::MAX), (true, 0));
}

#[test]
fn new_bucket_is_full() {
    let state = RateState::new(1000, 42);
    assert_eq!(state.stored_tokens, 1000);
    assert_eq!(state.last_update_time, 42);
}

#[test]
fn charge_replenishes_for_the_time_passed_and_dates_the_bucket() {
    let mut state = RateState { stored_tokens: 100, last_update_time: 5 };
    assert!(state.charge(1000, 10, 6, 50));
    assert_eq!(state.stored_tokens, 60);
    assert_eq!(state.last_update_time, 6);
    assert!(!state.charge(1000, 10, 8, 500));
    assert_eq!(state.stored_tokens, 80);
    assert_eq!(state.last_update_time, 8);
    assert!(state.charge(1000, 10, 8, 80));
    assert_eq!(state.stored_tokens, 0);
    assert_eq!(state.last_update_time, 8);
}
