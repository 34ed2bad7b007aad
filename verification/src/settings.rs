use vstd::prelude::*;

use crate::path::{FilePath, PathModel};

verus! {

/// What the tool remembers between runs: the chosen output folder.
#[derive(Debug)]
pub struct Settings {
    pub output_dir: FilePath,
}

/// Where the settings are stored: a JSON file.
#[derive(Debug)]
pub struct SettingsStore {
    path: FilePath,
}

impl View for SettingsStore {
    type V = PathModel;

    closed spec fn view(&self) -> PathModel {
        self.path@
    }
}

impl SettingsStore {
    /// A store that keeps the settings in the file at `path`.
    pub fn new(path: FilePath) -> (r: SettingsStore)
        ensures
            r@ == path@,
    {
        SettingsStore { path }
    }

    /// The file that holds the settings.
    pub fn path(&self) -> (r: &FilePath)
        ensures
            r@ == self@,
    {
        &self.path
    }
}

} // verus!
