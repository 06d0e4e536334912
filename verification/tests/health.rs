use signaged::health::{health_verdict, reply_limit, Verdict};

fn retry(due_seconds: u64) -> Verdict {
    Verdict::Retry { due_seconds }
}

#[test]
fn a_server_that_is_up_is_ready() {
    for cached in [false, true] {
        for retries in [0, 1, 1000] {
            for waited in [0, 29, 30, 1000] {
                assert_eq!(health_verdict(Some(200), cached, retries, waited), Verdict::Ready);
            }
        }
    }
}

#[test]
fn a_player_with_nothing_to_show_asks_once_a_second() {
    assert_eq!(health_verdict(None, false, 0, 0), retry(0));
    assert_eq!(health_verdict(None, false, 1, 0), retry(1));
    assert_eq!(health_verdict(Some(404), false, 2, 1), retry(2));
    assert_eq!(health_verdict(Some(204), false, 29, 29), retry(29));
    assert_eq!(health_verdict(Some(503), false, 31, 30), retry(31));
    assert_eq!(health_verdict(None, false, u64::MAX, u64::MAX), retry(u64::MAX));
}

#[test]
fn an_internal_error_puts_no_retry_off() {
    assert_eq!(health_verdict(Some(500), false, 0, 0), retry(0));
    assert_eq!(health_verdict(Some(500), false, 7, 6), retry(7));
    assert_eq!(health_verdict(Some(500), true, 7, 6), retry(7));
}

#[test]
fn overdue_retries_are_made_up_for() {
    // The first reply has taken forty seconds.
    assert_eq!(health_verdict(Some(502), false, 0, 40), retry(0));
    assert_eq!(health_verdict(Some(502), false, 1, 40), retry(1));
    assert_eq!(health_verdict(Some(502), false, 2, 40), retry(2));
}

#[test]
fn a_player_with_a_playlist_goes_offline_after_half_a_minute() {
    assert_eq!(health_verdict(None, true, 0, 0), retry(0));
    assert_eq!(health_verdict(None, true, 29, 28), retry(29));
    assert_eq!(health_verdict(None, true, 30, 29), retry(30));
    assert_eq!(health_verdict(None, true, 31, 29), retry(30));
    assert_eq!(health_verdict(None, true, 31, 30), Verdict::Offline);
    assert_eq!(health_verdict(None, true, 0, 30), Verdict::Offline);
    assert_eq!(health_verdict(Some(500), true, 3, u64::MAX), Verdict::Offline);
}

#[test]
fn a_reply_is_given_up_only_with_a_playlist() {
    assert_eq!(reply_limit(false, 0), None);
    assert_eq!(reply_limit(false, 1000), None);
    assert_eq!(reply_limit(true, 0), Some(30));
    assert_eq!(reply_limit(true, 29), Some(1));
    assert_eq!(reply_limit(true, 30), Some(1));
    assert_eq!(reply_limit(true, u64::MAX), Some(1));
}
