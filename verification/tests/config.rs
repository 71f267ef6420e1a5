use runescape_wiki_crawler::config::Config;

#[test]
fn default_config_is_the_standard_crawl() {
    let config = Config::default();
    assert_eq!(config.batch_size, 5);
    assert_eq!(config.flush_interval_ms, 500);
    assert_eq!(config.worker_count, 5);
    assert_eq!(config.queue_capacity, 5000);
    assert!(config.is_valid());
}

#[test]
fn config_needs_a_batch_size_within_the_limit() {
    let mut config = Config::default();
    config.batch_size = 0;
    assert!(!config.is_valid());
    config.batch_size = 1;
    assert!(config.is_valid());
    config.batch_size = 50;
    assert!(config.is_valid());
    config.batch_size = 51;
    assert!(!config.is_valid());
}

#[test]
fn config_needs_a_timer_period_and_a_worker() {
    let mut config = Config::default();
    config.flush_interval_ms = 0;
    assert!(!config.is_valid());
    config.flush_interval_ms = 1;
    assert!(config.is_valid());
    config.worker_count = 0;
    assert!(!config.is_valid());
    config.worker_count = 1;
    assert!(config.is_valid());
    config.queue_capacity = 0;
    assert!(config.is_valid());
}
