use peregrine::config::AppConfig;
use peregrine::error::ConfigError;
use peregrine::notifier::{ConfigNotifier, ConfigWatcher};
use peregrine::storage::ConfigStorage;

#[test]
fn update_without_subscribers_is_closed() {
    let notifier = ConfigNotifier::new(AppConfig::default_config());
    assert_eq!(notifier.subscriber_count(), 0);
    assert_eq!(notifier.update(AppConfig::default_config()), Err(ConfigError::NotifierClosed));
}

#[test]
fn subscriber_receives_updates() {
    let notifier = ConfigNotifier::new(AppConfig::default_config());
    let mut rx = notifier.subscribe();
    assert_eq!(notifier.subscriber_count(), 1);
    assert_eq!(rx.borrow_and_update().active_profile, "default");
    let mut updated = AppConfig::default_config();
    updated.active_profile = "game_a".to_string();
    assert_eq!(notifier.update(updated), Ok(()));
    assert!(rx.has_changed().unwrap());
    assert_eq!(rx.borrow_and_update().active_profile, "game_a");
}

#[test]
fn dropped_subscribers_close_the_channel() {
    let notifier = ConfigNotifier::new(AppConfig::default_config());
    let rx1 = notifier.subscribe();
    let rx2 = notifier.subscribe();
    assert_eq!(notifier.subscriber_count(), 2);
    drop(rx1);
    assert_eq!(notifier.subscriber_count(), 1);
    drop(rx2);
    assert_eq!(notifier.update(AppConfig::default_config()), Err(ConfigError::NotifierClosed));
}

#[test]
fn watcher_keeps_its_storage() {
    let storage = ConfigStorage::new("/tmp/peregrine/config.json".to_string());
    let watcher = ConfigWatcher::new(storage, ConfigNotifier::new(AppConfig::default_config()));
    assert_eq!(watcher.config_storage().path(), "/tmp/peregrine/config.json");
    assert_eq!(watcher.notifier().subscriber_count(), 0);
}

#[test]
fn subscriber_count_tracks_receivers() {
    let notifier = ConfigNotifier::new(AppConfig::default_config());
    assert_eq!(notifier.subscriber_count(), 0);
    let _rx1 = notifier.subscribe();
    assert_eq!(notifier.subscriber_count(), 1);
    let _rx2 = notifier.subscribe();
    assert_eq!(notifier.subscriber_count(), 2);
}
