//! The settings store: one opaque text blob at
//! `<user-config-dir>/desk-reminder/settings.json`.
//!
//! The store is modelled by [`StoreState`]: whether the parent directory
//! exists, and the file's contents (`None` when the file is missing or
//! unreadable). Loading never fails; saving creates the directory first and
//! surfaces any I/O failure as an error string.

use vstd::prelude::*;

verus! {

/// Where the settings blob lives: a base directory, one folder under it,
/// and one file inside that folder.
pub struct SettingsLocation {
    pub base: String,
    pub folder: String,
    pub file: String,
}

/// The folder under the per-user configuration directory.
pub open spec fn folder_name() -> Seq<char> {
    "desk-reminder"@
}

/// The settings file's name.
pub open spec fn file_name() -> Seq<char> {
    "settings.json"@
}

/// The base used when no per-user configuration directory is discoverable:
/// the current working directory.
pub open spec fn fallback_base() -> Seq<char> {
    "."@
}

/// The location is a pure function of the configuration directory.
pub open spec fn location_resolves(l: SettingsLocation, config_dir: Option<Seq<char>>) -> bool {
    &&& l.folder@ == folder_name()
    &&& l.file@ == file_name()
    &&& l.base@ == match config_dir {
        Some(d) => d,
        None => fallback_base(),
    }
}

/// Resolves the settings location from the platform's configuration
/// directory, falling back to the current working directory when none is
/// known.
pub fn settings_location(config_dir: Option<String>) -> (r: SettingsLocation)
    ensures
        location_resolves(
            r,
            match config_dir {
                Some(d) => Some(d@),
                None => None,
            },
        ),
{
    let base = match config_dir {
        Some(d) => d,
        None => ".".to_owned(),
    };
    SettingsLocation { base, folder: "desk-reminder".to_owned(), file: "settings.json".to_owned() }
}

/// Relies on dirs::config_dir: the platform's per-user configuration
/// directory, if the environment defines one. The result depends on the
/// environment, so nothing is promised of it.
#[verifier::external_body]
fn os_config_dir() -> (r: Option<String>) {
    dirs::config_dir().map(|p| p.to_string_lossy().into_owned())
}

/// The settings location for the current user. The folder and file names
/// are fixed; the base comes from the environment and never changes during
/// a run.
pub fn current_settings_location() -> (r: SettingsLocation)
    ensures
        r.folder@ == folder_name(),
        r.file@ == file_name(),
{
    settings_location(os_config_dir())
}

/// What is on disk, as the store sees it: whether the settings folder
/// exists, and the file's contents. `None` stands for a file that is
/// missing or unreadable for any reason.
pub struct StoreState {
    pub dir_exists: bool,
    pub contents: Option<String>,
}

/// The mathematical model of [`StoreState`].
pub ghost struct StoreModel {
    pub dir_exists: bool,
    pub contents: Option<Seq<char>>,
}

impl View for StoreState {
    type V = StoreModel;

    open spec fn view(&self) -> StoreModel {
        StoreModel {
            dir_exists: self.dir_exists,
            contents: match self.contents {
                Some(c) => Some(c@),
                None => None,
            },
        }
    }
}

/// What a load yields: the file's contents, or the empty string when the
/// file is missing or unreadable.
pub open spec fn load_spec(m: StoreModel) -> Seq<char> {
    match m.contents {
        Some(c) => c,
        None => Seq::empty(),
    }
}

/// What a successful save leaves behind: the folder exists and the file
/// holds exactly the blob.
pub open spec fn save_spec(m: StoreModel, blob: Seq<char>) -> StoreModel {
    StoreModel { dir_exists: true, contents: Some(blob) }
}

/// Loads the settings blob. Never fails: a missing or unreadable file reads
/// as the empty string. Takes the state by shared reference, so it can
/// create nothing.
pub fn load(s: &StoreState) -> (r: String)
    ensures
        r@ == load_spec(s@),
{
    match &s.contents {
        Some(c) => c.clone(),
        None => String::new(),
    }
}

/// Saves the settings blob. The caller creates the folder, then writes the
/// file only when the folder was created; `dir_outcome` and `write_outcome`
/// report how those two steps went (`write_outcome` is read only when
/// `dir_outcome` is `Ok`). Any failure comes back as its error string; on
/// success the file holds exactly the blob.
pub fn save(
    s: &mut StoreState,
    blob: String,
    dir_outcome: Result<(), String>,
    write_outcome: Result<(), String>,
) -> (r: Result<(), String>)
    ensures
        match dir_outcome {
            Err(m) => final(s)@ == old(s)@ && (r matches Err(rm) && rm@ == m@),
            Ok(_) => final(s)@.dir_exists && match write_outcome {
                Err(m) => final(s)@.contents == old(s)@.contents && (r matches Err(rm) && rm@
                    == m@),
                Ok(_) => final(s)@ == save_spec(old(s)@, blob@) && r is Ok,
            },
        },
{
    match dir_outcome {
        Err(m) => Err(m),
        Ok(_) => {
            s.dir_exists = true;
            match write_outcome {
                Err(m) => Err(m),
                Ok(_) => {
                    s.contents = Some(blob);
                    Ok(())
                },
            }
        },
    }
}

/// Saving a blob and then loading yields that blob, unchanged, whatever the
/// store held before.
pub proof fn lemma_save_then_load(m: StoreModel, blob: Seq<char>)
    ensures
        load_spec(save_spec(m, blob)) == blob,
{
}

/// With no settings file, a load yields the empty string; and a load is a
/// function of the state alone, so it creates nothing.
pub proof fn lemma_load_fresh(m: StoreModel)
    requires
        m.contents is None,
    ensures
        load_spec(m) == Seq::<char>::empty(),
{
}

/// After a save, the settings folder exists, whatever the store held
/// before.
pub proof fn lemma_save_creates_dir(m: StoreModel, blob: Seq<char>)
    ensures
        save_spec(m, blob).dir_exists,
{
}

} // verus!
