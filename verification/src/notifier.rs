//! Broadcast of configuration changes: every subscriber sees the latest
//! configuration snapshot. The channel is a `tokio::sync::watch` channel.

use vstd::prelude::*;
use std::sync::Arc;
use tokio::sync::watch::{Receiver, Sender};
use tokio::sync::watch::error::SendError;
use crate::config::AppConfig;
use crate::error::ConfigError;
use crate::storage::ConfigStorage;

verus! {

#[verifier::external_type_specification]
#[verifier::external_body]
#[verifier::reject_recursive_types(T)]
pub struct ExWatchSender<T>(Sender<T>);

#[verifier::external_type_specification]
#[verifier::external_body]
#[verifier::reject_recursive_types(T)]
pub struct ExWatchReceiver<T>(Receiver<T>);

#[verifier::external_type_specification]
#[verifier::external_body]
#[verifier::reject_recursive_types(T)]
pub struct ExWatchSendError<T>(SendError<T>);

/// The value a watch channel was created with, named by its sending half.
pub uninterp spec fn initial_value(sender: Sender<Arc<AppConfig>>) -> AppConfig;

/// `tokio::sync::watch::channel`: a new channel holding `init`, as its
/// sending half and one receiving half. Claimed: the channel was created
/// with `init`. Nothing is claimed of the value it holds after later sends.
#[verifier::external_body]
fn watch_channel(init: Arc<AppConfig>) -> (r: (Sender<Arc<AppConfig>>, Receiver<Arc<AppConfig>>))
    ensures
        initial_value(r.0) == *init,
{
    tokio::sync::watch::channel(init)
}

/// `Sender::send`: replaces the value and notifies the receivers, or fails
/// when no receiver exists at the time of the call. Which of the two
/// happens depends on the receivers alive elsewhere, so nothing about the
/// outcome is claimed.
#[verifier::external_body]
fn watch_send(sender: &Sender<Arc<AppConfig>>, value: Arc<AppConfig>) -> (r: Result<(), SendError<Arc<AppConfig>>>) {
    sender.send(value)
}

/// `Sender::clone`: another sending half of the same channel (it shares
/// the channel's state and counts one more sender). The specification is
/// generic over the channel's value type, so nothing is claimed of the
/// result.
pub assume_specification<T>[<Sender<T> as Clone>::clone](sender: &Sender<T>) -> Sender<T>;

/// `Sender::subscribe`: a new receiver that sees the current value and
/// every later one. Nothing about it is claimed.
#[verifier::external_body]
fn watch_subscribe(sender: &Sender<Arc<AppConfig>>) -> Receiver<Arc<AppConfig>> {
    sender.subscribe()
}

/// `Sender::receiver_count`: how many receivers exist at the time of the
/// call; that depends on receivers held elsewhere, so nothing is claimed.
#[verifier::external_body]
fn watch_receiver_count(sender: &Sender<Arc<AppConfig>>) -> usize {
    sender.receiver_count()
}

/// The broadcaster of configuration snapshots.
#[derive(Debug, Clone)]
pub struct ConfigNotifier {
    sender: Sender<Arc<AppConfig>>,
}

/// The outcome of an update: success, or the closed-channel error and no
/// other.
pub open spec fn update_outcome(r: Result<(), ConfigError>) -> bool {
    r matches Err(e) ==> e == ConfigError::NotifierClosed
}

/// The snapshot that publishing `config` hands to the channel.
pub fn config_snapshot(config: AppConfig) -> (s: Arc<AppConfig>)
    ensures
        *s == config,
{
    Arc::new(config)
}

impl ConfigNotifier {
    /// The snapshot the broadcaster was created with.
    pub closed spec fn initial(&self) -> AppConfig {
        initial_value(self.sender)
    }

    /// A broadcaster whose current snapshot is `config`. Its first receiver
    /// is dropped at once, so updates fail until someone subscribes.
    pub fn new(config: AppConfig) -> (n: Self)
        ensures
            n.initial() == config,
    {
        let (sender, receiver) = watch_channel(config_snapshot(config));
        let _ = receiver;
        ConfigNotifier { sender }
    }

    /// Publishes `config` as the new snapshot: the snapshot handed to the
    /// channel is `config_snapshot(config)`, which holds exactly `config`.
    /// Fails with `NotifierClosed` when every receiver is gone (which
    /// depends on receivers held elsewhere); no other error is possible.
    pub fn update(&self, config: AppConfig) -> (r: Result<(), ConfigError>)
        ensures
            update_outcome(r),
    {
        let snapshot = config_snapshot(config);
        match watch_send(&self.sender, snapshot) {
            Ok(()) => Ok(()),
            Err(_) => Err(ConfigError::NotifierClosed),
        }
    }

    /// A receiver of the current snapshot and of every later update.
    pub fn subscribe(&self) -> Receiver<Arc<AppConfig>> {
        watch_subscribe(&self.sender)
    }

    /// The number of receivers that currently exist.
    pub fn subscriber_count(&self) -> usize {
        watch_receiver_count(&self.sender)
    }
}

/// The configuration file watcher: the storage it reloads from and the
/// broadcaster it publishes to. The loop that drives it runs outside the
/// library, one decision at a time through `watcher::watch_step`.
pub struct ConfigWatcher {
    storage: ConfigStorage,
    notifier: ConfigNotifier,
}

impl ConfigWatcher {
    /// A watcher over `storage` that publishes to `notifier`.
    pub fn new(storage: ConfigStorage, notifier: ConfigNotifier) -> (w: Self)
        ensures
            w.storage().spec_path() == storage.spec_path(),
            w.broadcaster() == notifier,
    {
        ConfigWatcher { storage, notifier }
    }

    /// The broadcaster the watcher publishes to.
    pub closed spec fn broadcaster(&self) -> ConfigNotifier {
        self.notifier
    }

    /// The storage the watcher reloads from.
    pub closed spec fn storage(&self) -> ConfigStorage {
        self.storage
    }

    /// The storage the watcher reloads from.
    pub fn config_storage(&self) -> (s: &ConfigStorage)
        ensures
            s.spec_path() == self.storage().spec_path(),
    {
        &self.storage
    }

    /// The broadcaster the watcher publishes to.
    pub fn notifier(&self) -> (n: &ConfigNotifier)
        ensures
            *n == self.broadcaster(),
    {
        &self.notifier
    }
}

} // verus!
