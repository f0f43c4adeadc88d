//! The connection configuration and the store that holds the current one.
//!
//! A store starts out unset and then answers with the default configuration.
//! A configuration is replaced as a whole or not at all: a text that does not
//! parse leaves the store as it was.

use vstd::prelude::*;
use vstd::string::StringExecFns;

verus! {

/// How to reach the engine.
#[derive(Debug, PartialEq, Eq)]
pub struct RustAnalyzerConfig {
    /// Path to the engine's executable.
    pub executable_path: String,
    /// Working directory for the engine.
    pub working_dir: Option<String>,
}

/// Why a configuration was not accepted.
#[derive(Debug, Clone, Copy, PartialEq, Eq, Structural)]
pub enum ConfigError {
    /// The configuration text does not parse as a configuration.
    Malformed,
}

impl ConfigError {
    /// What the error says, in words.
    pub open spec fn text(self) -> Seq<char> {
        "Failed to parse config"@
    }

    /// Says in words what went wrong.
    pub fn message(&self) -> (message: String)
        ensures
            message@ == self.text(),
    {
        String::from_str("Failed to parse config")
    }
}

/// Holds the configuration that requests read.
#[derive(Debug, PartialEq, Eq)]
pub struct ConfigStore {
    current: Option<RustAnalyzerConfig>,
}

/// The mathematical content of a [`RustAnalyzerConfig`].
pub struct ConfigView {
    pub executable_path: Seq<char>,
    pub working_dir: Option<Seq<char>>,
}

/// The mathematical content of a [`ConfigStore`]: the configuration that was
/// set last, if one was ever set.
pub struct StoreView {
    pub current: Option<ConfigView>,
}

impl ConfigView {
    /// The configuration that holds where none was set: the engine under its
    /// canonical name, and no working directory.
    pub open spec fn standard() -> ConfigView {
        ConfigView { executable_path: "rust-analyzer"@, working_dir: None }
    }
}

impl StoreView {
    /// The store in which nothing was set yet.
    pub open spec fn fresh() -> StoreView {
        StoreView { current: None }
    }

    /// The configuration that a request reads from the store.
    pub open spec fn effective(self) -> ConfigView {
        match self.current {
            Some(config) => config,
            None => ConfigView::standard(),
        }
    }

    /// The store after an attempt to set what a configuration text parsed
    /// to, `None` standing for a text that did not parse.
    pub open spec fn updated(self, parsed: Option<ConfigView>) -> StoreView {
        match parsed {
            Some(config) => StoreView { current: Some(config) },
            None => self,
        }
    }
}

impl DeepView for RustAnalyzerConfig {
    type V = ConfigView;

    open spec fn deep_view(&self) -> ConfigView {
        ConfigView {
            executable_path: self.executable_path@,
            working_dir: self.working_dir.deep_view(),
        }
    }
}

impl DeepView for ConfigStore {
    type V = StoreView;

    closed spec fn deep_view(&self) -> StoreView {
        StoreView { current: self.current.deep_view() }
    }
}

impl Clone for RustAnalyzerConfig {
    fn clone(&self) -> (copy: Self)
        ensures
            copy.deep_view() == self.deep_view(),
    {
        RustAnalyzerConfig {
            executable_path: self.executable_path.clone(),
            working_dir: match &self.working_dir {
                Some(dir) => Some(dir.clone()),
                None => None,
            },
        }
    }
}

impl Default for RustAnalyzerConfig {
    fn default() -> (config: Self)
        ensures
            config.deep_view() == ConfigView::standard(),
    {
        RustAnalyzerConfig { executable_path: String::from_str("rust-analyzer"), working_dir: None }
    }
}

impl ConfigStore {
    /// A store in which nothing was set yet.
    pub fn new() -> (store: ConfigStore)
        ensures
            store.deep_view() == StoreView::fresh(),
    {
        ConfigStore { current: None }
    }
}

/// Replaces the stored configuration by `parsed`, the outcome of parsing a
/// configuration text. Where the text did not parse (`None`), the store stays
/// as it was and the error is `Malformed`. Nothing beyond its structure is
/// asked of a configuration here: whether the executable exists shows when
/// the engine is launched.
pub fn set_config(store: &mut ConfigStore, parsed: Option<RustAnalyzerConfig>) -> (done: Result<
    (),
    ConfigError,
>)
    ensures
        final(store).deep_view() == old(store).deep_view().updated(parsed.deep_view()),
        parsed is Some ==> done == Ok::<(), ConfigError>(()),
        parsed is None ==> done == Err::<(), ConfigError>(ConfigError::Malformed),
        parsed is None ==> *final(store) == *old(store),
{
    match parsed {
        Some(config) => {
            store.current = Some(config);
            Ok(())
        },
        None => Err(ConfigError::Malformed),
    }
}

/// Reads the current configuration: the one set last, or the default if none
/// was ever set. The caller gets a snapshot that later updates do not touch.
pub fn get_config(store: &ConfigStore) -> (config: RustAnalyzerConfig)
    ensures
        config.deep_view() == store.deep_view().effective(),
{
    match &store.current {
        Some(config) => config.clone(),
        None => RustAnalyzerConfig::default(),
    }
}

/// Before any configuration is set, the store answers with the default.
pub proof fn lemma_fresh_store_is_default()
    ensures
        StoreView::fresh().effective() == ConfigView::standard(),
{
}

/// A configuration that was set stays in force through any number of failed
/// attempts to replace it.
pub proof fn lemma_failed_update_keeps_config(store: StoreView, valid: ConfigView)
    ensures
        store.updated(Some(valid)).effective() == valid,
        store.updated(Some(valid)).updated(None).effective() == valid,
        store.updated(None) == store,
{
}

} // verus!
