use spider::channel::channel_capacity_for;
use spider::channel::Channel;
use spider::channel::RecvOutcome;
use spider::channel::SendOutcome;
use spider::dest::build_upload_url;
use spider::limiter::TokenBucket;
use spider::pump::pump_feed;
use spider::pump::PumpStep;
use spider::transfer::run_transfer;
use spider::transfer::HttpReply;
use spider::transfer::TransferOutcome;

fn batch(urls: &[&str]) -> Vec<String> {
    urls.iter().map(|u| u.to_string()).collect()
}

#[test]
fn channel_is_fifo() {
    let mut chan = Channel::new(4);
    for u in ["a", "b", "c"] {
        assert!(matches!(chan.try_send(u.to_string()), SendOutcome::Sent));
    }
    for u in ["a", "b", "c"] {
        match chan.try_recv() {
            RecvOutcome::Item(it) => assert_eq!(it, u),
            _ => panic!("expected an item"),
        }
    }
    assert!(matches!(chan.try_recv(), RecvOutcome::Empty));
}

#[test]
fn send_at_capacity_gives_the_item_back() {
    let mut chan = Channel::new(2);
    assert!(matches!(chan.try_send("a".to_string()), SendOutcome::Sent));
    assert!(matches!(chan.try_send("b".to_string()), SendOutcome::Sent));
    match chan.try_send("c".to_string()) {
        SendOutcome::Full(it) => assert_eq!(it, "c"),
        _ => panic!("expected the channel to be full"),
    }
    assert_eq!(chan.len(), 2);
}

#[test]
fn closed_channel_turns_everything_away() {
    let mut chan = Channel::new(2);
    assert!(matches!(chan.try_send("a".to_string()), SendOutcome::Sent));
    chan.close();
    match chan.try_send("b".to_string()) {
        SendOutcome::Disconnected(it) => assert_eq!(it, "b"),
        _ => panic!("expected a disconnect"),
    }
    assert!(matches!(chan.try_recv(), RecvOutcome::Item(_)));
    assert!(matches!(chan.try_recv(), RecvOutcome::Disconnected));
}

#[test]
fn capacity_is_four_slots_per_worker() {
    assert_eq!(channel_capacity_for(256), 1024);
}

#[test]
fn empty_batch_asks_for_a_sleep() {
    let mut chan = Channel::new(4);
    assert!(matches!(pump_feed(&mut chan, Vec::new()), PumpStep::Idle));
    assert_eq!(chan.len(), 0);
}

#[test]
fn pump_on_a_torn_down_pipeline_terminates() {
    let mut chan = Channel::new(4);
    chan.close();
    assert!(matches!(pump_feed(&mut chan, batch(&["a"])), PumpStep::TornDown));
}

#[test]
fn burst_past_capacity_suspends_the_excess() {
    let mut chan = Channel::new(4);
    let step = pump_feed(&mut chan, batch(&["a", "b", "c", "d", "e", "f"]));
    match step {
        PumpStep::Delivered(rest) => assert_eq!(rest, batch(&["e", "f"])),
        _ => panic!("expected a delivery"),
    }
    assert_eq!(chan.len(), 4);
    for u in ["a", "b", "c", "d"] {
        match chan.try_recv() {
            RecvOutcome::Item(it) => assert_eq!(it, u),
            _ => panic!("expected an item"),
        }
    }
}

#[test]
fn acquires_past_the_quota_suspend() {
    let mut bucket = TokenBucket::new(5);
    let mut granted: usize = 0;
    let mut suspended: usize = 0;
    for _ in 0..8 {
        if bucket.try_acquire() {
            granted += 1;
        } else {
            suspended += 1;
        }
    }
    assert_eq!(granted, 5);
    assert_eq!(suspended, 3);
    bucket.refill();
    assert!(bucket.try_acquire());
}

#[test]
fn burst_acquire_grants_at_most_the_quota() {
    let mut bucket = TokenBucket::new(5);
    assert_eq!(bucket.acquire_burst(8), 5);
    assert_eq!(bucket.acquire_burst(8), 0);
    bucket.refill();
    assert_eq!(bucket.acquire_burst(3), 3);
    assert_eq!(bucket.acquire_burst(3), 2);
}

#[test]
fn two_urls_end_as_two_uploads() {
    let workers = 2;
    let mut chan = Channel::new(channel_capacity_for(workers));
    let step = pump_feed(&mut chan, batch(&["http://src/a.png", "http://src/b"]));
    match step {
        PumpStep::Delivered(rest) => assert!(rest.is_empty()),
        _ => panic!("expected a delivery"),
    }
    let mut uploads: Vec<String> = Vec::new();
    loop {
        let url = match chan.try_recv() {
            RecvOutcome::Item(it) => it,
            _ => break,
        };
        let (outcome, dest) = run_transfer(&url, HttpReply::Status(200), HttpReply::Status(201));
        assert_eq!(outcome, TransferOutcome::Success);
        uploads.push(build_upload_url("http://dest/", &dest.unwrap()));
    }
    assert_eq!(uploads, vec!["http://dest/a.png".to_string(), "http://dest/b".to_string()]);
}

#[test]
fn a_failed_fetch_is_logged_and_the_worker_moves_on() {
    let mut chan = Channel::new(8);
    match pump_feed(&mut chan, batch(&["http://src/bad.png", "http://src/good.png"])) {
        PumpStep::Delivered(rest) => assert!(rest.is_empty()),
        _ => panic!("expected a delivery"),
    }
    let first = match chan.try_recv() {
        RecvOutcome::Item(it) => it,
        _ => panic!("expected an item"),
    };
    let (outcome, dest) = run_transfer(&first, HttpReply::Status(500), HttpReply::Status(200));
    assert_eq!(outcome, TransferOutcome::SourceFetchFailed(HttpReply::Status(500)));
    assert!(dest.is_none(), "no upload may be issued for a failed fetch");
    let second = match chan.try_recv() {
        RecvOutcome::Item(it) => it,
        _ => panic!("the next URL must be ready at once"),
    };
    let (outcome, dest) = run_transfer(&second, HttpReply::Status(200), HttpReply::Status(204));
    assert_eq!(outcome, TransferOutcome::Success);
    assert_eq!(dest.as_deref(), Some("/good.png"));
}
