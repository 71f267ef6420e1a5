use runescape_wiki_crawler::batcher::Batcher;
use runescape_wiki_crawler::batcher::TITLE_LIMIT;

fn title(n: usize) -> String {
    format!("Page {}", n)
}

#[test]
fn batcher_refuses_a_cap_of_zero() {
    assert!(Batcher::new(0).is_none());
}

#[test]
fn batcher_refuses_a_cap_above_the_endpoint_limit() {
    assert_eq!(TITLE_LIMIT, 50);
    assert!(Batcher::new(51).is_none());
    assert!(Batcher::new(usize::MAX).is_none());
}

#[test]
fn batcher_takes_every_cap_within_the_limit() {
    for cap in 1..=50usize {
        let worker = Batcher::new(cap).unwrap();
        assert_eq!(worker.batch_size(), cap);
        assert_eq!(worker.pending(), 0);
    }
}

#[test]
fn size_trigger_flushes_when_the_cap_is_reached() {
    let mut worker = Batcher::new(3).unwrap();
    assert_eq!(worker.on_title(title(1)), None);
    assert_eq!(worker.pending(), 1);
    assert_eq!(worker.on_title(title(2)), None);
    assert_eq!(worker.pending(), 2);
    assert_eq!(worker.on_title(title(3)), Some(vec![title(1), title(2), title(3)]));
    assert_eq!(worker.pending(), 0);
    assert_eq!(worker.on_title(title(4)), None);
    assert_eq!(worker.pending(), 1);
}

#[test]
fn cap_of_one_flushes_every_title_alone() {
    let mut worker = Batcher::new(1).unwrap();
    for n in 0..10 {
        assert_eq!(worker.on_title(title(n)), Some(vec![title(n)]));
        assert_eq!(worker.pending(), 0);
    }
}

#[test]
fn tick_flushes_a_partial_batch() {
    let mut worker = Batcher::new(5).unwrap();
    assert_eq!(worker.on_title(title(1)), None);
    assert_eq!(worker.on_title(title(2)), None);
    assert_eq!(worker.on_tick(), Some(vec![title(1), title(2)]));
    assert_eq!(worker.pending(), 0);
}

#[test]
fn tick_with_nothing_waiting_does_nothing() {
    let mut worker = Batcher::new(5).unwrap();
    assert_eq!(worker.on_tick(), None);
    assert_eq!(worker.on_title(title(1)), None);
    assert_eq!(worker.on_tick(), Some(vec![title(1)]));
    assert_eq!(worker.on_tick(), None);
    assert_eq!(worker.on_tick(), None);
    assert_eq!(worker.pending(), 0);
}

#[test]
fn close_flushes_the_batch_that_waits() {
    let mut worker = Batcher::new(5).unwrap();
    assert_eq!(worker.on_title(title(1)), None);
    assert_eq!(worker.on_title(title(2)), None);
    assert_eq!(worker.on_title(title(3)), None);
    assert_eq!(worker.on_close(), Some(vec![title(1), title(2), title(3)]));
}

#[test]
fn close_with_nothing_waiting_flushes_nothing() {
    let worker = Batcher::new(5).unwrap();
    assert_eq!(worker.on_close(), None);

    let mut worker = Batcher::new(2).unwrap();
    assert_eq!(worker.on_title(title(1)), None);
    assert_eq!(worker.on_title(title(2)), Some(vec![title(1), title(2)]));
    assert_eq!(worker.on_close(), None);
}

#[test]
fn no_batch_exceeds_the_cap() {
    for cap in [1usize, 2, 5, 7, 50] {
        let mut worker = Batcher::new(cap).unwrap();
        for n in 0..173 {
            if n % 11 == 10 {
                if let Some(batch) = worker.on_tick() {
                    assert!(1 <= batch.len() && batch.len() <= cap);
                }
            }
            if let Some(batch) = worker.on_title(title(n)) {
                assert_eq!(batch.len(), cap);
            }
            assert!(worker.pending() < cap);
        }
        if let Some(batch) = worker.on_close() {
            assert!(1 <= batch.len() && batch.len() < cap);
        }
    }
}

#[test]
fn every_title_is_flushed_once_and_in_order() {
    let mut worker = Batcher::new(4).unwrap();
    let mut flushed: Vec<String> = Vec::new();
    let mut sent: Vec<String> = Vec::new();
    for n in 0..30 {
        if n % 7 == 3 {
            if let Some(batch) = worker.on_tick() {
                flushed.extend(batch);
            }
        }
        sent.push(title(n));
        if let Some(batch) = worker.on_title(title(n)) {
            flushed.extend(batch);
        }
    }
    if let Some(batch) = worker.on_close() {
        flushed.extend(batch);
    }
    assert_eq!(flushed, sent);
}

#[test]
fn standard_batches_of_five() {
    let mut worker = Batcher::new(5).unwrap();
    let mut batches: Vec<Vec<String>> = Vec::new();
    for n in 0..12 {
        if let Some(batch) = worker.on_title(title(n)) {
            batches.push(batch);
        }
    }
    if let Some(batch) = worker.on_close() {
        batches.push(batch);
    }
    assert_eq!(
        batches,
        vec![
            vec![title(0), title(1), title(2), title(3), title(4)],
            vec![title(5), title(6), title(7), title(8), title(9)],
            vec![title(10), title(11)],
        ]
    );
}
