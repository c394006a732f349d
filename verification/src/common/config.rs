//! The settings shared by the launcher and the patch, and the store that
//! holds the current ones.
use vstd::prelude::*;

verus! {

/// The settings of Rust Faction.
#[derive(Debug)]
pub struct Config {
    /// The folder that holds the game's executable.
    pub game_directory: String,
    /// The highest frame rate the game may run at.
    pub fps_limit: u32,
    /// Whether files in the "overrides" folder replace the game's own.
    pub use_overrides: bool,
    /// Whether the intro videos are skipped.
    pub fast_start: bool,
    /// Whether the launcher stays open once the game runs.
    pub keep_launcher_open: bool,
    /// Whether the game gets a console that shows the log.
    pub show_console: bool,
}

/// The settings as plain values.
pub struct ConfigView {
    pub game_directory: Seq<char>,
    pub fps_limit: u32,
    pub use_overrides: bool,
    pub fast_start: bool,
    pub keep_launcher_open: bool,
    pub show_console: bool,
}

impl View for Config {
    type V = ConfigView;

    open spec fn view(&self) -> ConfigView {
        ConfigView {
            game_directory: self.game_directory@,
            fps_limit: self.fps_limit,
            use_overrides: self.use_overrides,
            fast_start: self.fast_start,
            keep_launcher_open: self.keep_launcher_open,
            show_console: self.show_console,
        }
    }
}

/// The settings used when none were saved: no game folder, 120 frames per
/// second, overrides on, intro skipped, launcher closed after launch, no
/// console.
pub open spec fn default_config() -> ConfigView {
    ConfigView {
        game_directory: Seq::empty(),
        fps_limit: 120,
        use_overrides: true,
        fast_start: true,
        keep_launcher_open: false,
        show_console: false,
    }
}

impl Default for Config {
    fn default() -> (config: Self)
        ensures
            config@ == default_config(),
    {
        Config {
            game_directory: String::new(),
            fps_limit: 120,
            use_overrides: true,
            fast_start: true,
            keep_launcher_open: false,
            show_console: false,
        }
    }
}

impl Clone for Config {
    fn clone(&self) -> (copy: Self)
        ensures
            copy@ == self@,
    {
        Config {
            game_directory: self.game_directory.clone(),
            fps_limit: self.fps_limit,
            use_overrides: self.use_overrides,
            fast_start: self.fast_start,
            keep_launcher_open: self.keep_launcher_open,
            show_console: self.show_console,
        }
    }
}

/// The current settings of a process. It starts with the defaults.
pub struct ConfigStore {
    current: Config,
}

impl View for ConfigStore {
    type V = ConfigView;

    closed spec fn view(&self) -> ConfigView {
        self.current@
    }
}

impl ConfigStore {
    /// A store that holds the default settings.
    pub fn new() -> (store: ConfigStore)
        ensures
            store@ == default_config(),
    {
        ConfigStore { current: Config::default() }
    }
}

impl Config {
    /// Takes the settings read from the settings file, or, where they could
    /// not be read or parsed (`None`), the defaults. Returns the settings that
    /// must now be written to the file: the defaults where nothing could be
    /// read, else nothing.
    pub fn init(store: &mut ConfigStore, loaded: Option<Config>) -> (to_save: Option<Config>)
        ensures
            match loaded {
                Some(config) => final(store)@ == config@ && to_save is None,
                None => final(store)@ == default_config() && to_save is Some
                    && to_save->0@ == default_config(),
            },
    {
        match loaded {
            Some(config) => {
                store.current = config;
                None
            },
            None => {
                let defaults = Config::default();
                store.current = defaults.clone();
                Some(defaults)
            },
        }
    }

    /// A copy of the current settings.
    pub fn get(store: &ConfigStore) -> (config: Config)
        ensures
            config@ == store@,
            config@ == read_config(store@),
    {
        store.current.clone()
    }

    /// Replaces the current settings. Returns the settings that must now be
    /// written to the settings file: the new ones.
    pub fn set(store: &mut ConfigStore, new_config: Config) -> (to_save: Config)
        ensures
            final(store)@ == new_config@,
            final(store)@ == store_after_set(old(store)@, new_config@),
            to_save@ == new_config@,
    {
        let to_save = new_config.clone();
        store.current = new_config;
        to_save
    }
}

/// The settings that `Config::get` reads from a store.
pub open spec fn read_config(store: ConfigView) -> ConfigView {
    store
}

/// The store that `Config::set` leaves behind: it holds the new settings,
/// whatever it held before.
pub open spec fn store_after_set(store: ConfigView, new_config: ConfigView) -> ConfigView {
    new_config
}

/// What is read after a write is what was written: a read gives exactly
/// the settings the store holds, a write leaves exactly the new settings in
/// the store whatever it held before, so a read after a write gives what was
/// written, and of two writes the second wins.
pub proof fn lemma_get_after_set(store: ConfigView, first: ConfigView, second: ConfigView)
    ensures
        read_config(store) == store,
        store_after_set(store, first) == first,
        read_config(store_after_set(store, first)) == first,
        read_config(store_after_set(store_after_set(store, first), second)) == second,
{
}

/// The default settings: no game folder, a limit of 120 frames per second,
/// overrides on, intro skipped, the launcher closed after launch and no
/// console.
pub proof fn lemma_default_settings()
    ensures
        default_config().game_directory.len() == 0,
        default_config().fps_limit == 120,
        default_config().use_overrides,
        default_config().fast_start,
        !default_config().keep_launcher_open,
        !default_config().show_console,
{
}

} // verus!
