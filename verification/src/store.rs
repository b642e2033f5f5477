//! The structured configuration record and the in-memory slot that holds it.

use vstd::prelude::*;

verus! {

/// The structured configuration record owned by the host application.
///
/// It is replaced wholesale on each save and never partially mutated.
#[derive(Debug, PartialEq, Eq)]
pub struct AppConfig {
    /// Name of the upstream provider the proxy talks to.
    pub provider: String,
    /// Local port the proxy listens on.
    pub port: u16,
    /// Whether the proxy starts together with the application.
    pub auto_start: bool,
}

/// Mathematical view of an [`AppConfig`]: the same record over plain values.
pub struct AppConfigV {
    pub provider: Seq<char>,
    pub port: u16,
    pub auto_start: bool,
}

impl View for AppConfig {
    type V = AppConfigV;

    open spec fn view(&self) -> AppConfigV {
        AppConfigV { provider: self.provider@, port: self.port, auto_start: self.auto_start }
    }
}

impl Clone for AppConfig {
    fn clone(&self) -> (r: Self)
        ensures
            r@ == self@,
    {
        AppConfig { provider: self.provider.clone(), port: self.port, auto_start: self.auto_start }
    }
}

/// What the in-memory slot holds after a save: the new value, whatever was
/// there before and whatever later happens to the disk write.
pub open spec fn store_after_save(current: AppConfigV, saved: AppConfigV) -> AppConfigV {
    saved
}

/// What a read of the slot returns: the current value, unchanged.
pub open spec fn get_result(current: AppConfigV) -> AppConfigV {
    current
}

/// The in-memory slot holding the current configuration.
///
/// Callers that share one slot across threads wrap it in a lock; exclusive
/// access during a save is expressed here by `&mut`.
pub struct ConfigStore {
    config: AppConfig,
}

impl View for ConfigStore {
    type V = AppConfigV;

    closed spec fn view(&self) -> AppConfigV {
        self.config@
    }
}

impl ConfigStore {
    /// Starts the slot at the value loaded when the application came up.
    pub fn new(initial: AppConfig) -> (s: Self)
        ensures
            s@ == initial@,
    {
        ConfigStore { config: initial }
    }

    /// Returns a copy of the current configuration. Never fails.
    pub fn get_config(&self) -> (r: AppConfig)
        ensures
            r@ == get_result(self@),
    {
        self.config.clone()
    }

    /// Replaces the in-memory value unconditionally, before any attempt to
    /// persist it, and hands back the snapshot to be written to disk.
    ///
    /// The slot holds the new value however the later disk write goes.
    pub fn save_config(&mut self, config: AppConfig) -> (persist: AppConfig)
        ensures
            final(self)@ == store_after_save(old(self)@, config@),
            persist@ == config@,
    {
        self.config = config.clone();
        config
    }
}

/// Law: saving a value and then reading gives back exactly that value
/// (in-memory round trip).
pub proof fn lemma_save_then_get(current: AppConfigV, v: AppConfigV)
    ensures
        get_result(store_after_save(current, v)) == v,
{
}

/// Law: of two saves applied in turn to one slot, the second one's value is
/// what remains; no mixture of the two is ever held.
pub proof fn lemma_last_save_wins(current: AppConfigV, first: AppConfigV, second: AppConfigV)
    ensures
        store_after_save(store_after_save(current, first), second) == second,
{
}

} // verus!
