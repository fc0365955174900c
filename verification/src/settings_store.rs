//! Settings that have to survive a restart, in `settings.json`.
//!
//! Everything here is persisted because it decides how something is
//! constructed: the content backends are chosen before anything else opens, and
//! the Wi-Fi Aware socket pool is bound when the node starts. A missing or
//! corrupt file means the defaults: a broken settings file must never stop the
//! app from opening its own store.
//!
//! The bytes are turned into [`Settings`] and back outside this crate; what is
//! made of a read, which files a save touches and in which order, and how one
//! setting is changed without losing the others is decided here.

use vstd::prelude::*;

use crate::text::{glue, path_of};

verus! {

/// The persisted settings.
#[derive(Debug, Clone)]
pub struct Settings {
    /// A relay to store events on instead of the embedded one. `None`, or an
    /// empty string, means the built-in store.
    pub custom_relay_url: Option<String>,
    /// A Blossom server to store blobs on instead of the embedded one.
    pub custom_blossom_url: Option<String>,
    /// How many concurrent Wi-Fi Aware data paths the chipset says it supports,
    /// as last reported. `None` means never reported.
    pub aware_data_paths: Option<u8>,
}

/// What a [`Settings`] holds, as text.
pub struct SettingsModel {
    pub custom_relay_url: Option<Seq<char>>,
    pub custom_blossom_url: Option<Seq<char>>,
    pub aware_data_paths: Option<u8>,
}

/// The text of an optional string.
pub open spec fn text_of(s: Option<String>) -> Option<Seq<char>> {
    match s {
        Some(s) => Some(s@),
        None => None,
    }
}

impl View for Settings {
    type V = SettingsModel;

    open spec fn view(&self) -> SettingsModel {
        SettingsModel {
            custom_relay_url: text_of(self.custom_relay_url),
            custom_blossom_url: text_of(self.custom_blossom_url),
            aware_data_paths: self.aware_data_paths,
        }
    }
}

impl SettingsModel {
    /// Nothing configured and nothing reported.
    pub open spec fn defaults() -> SettingsModel {
        SettingsModel {
            custom_relay_url: None,
            custom_blossom_url: None,
            aware_data_paths: None,
        }
    }
}

/// The characters of the Unicode property White_Space.
pub open spec fn is_white_space(c: char) -> bool {
    ||| '\u{9}' <= c <= '\u{d}'
    ||| c == '\u{20}'
    ||| c == '\u{85}'
    ||| c == '\u{a0}'
    ||| c == '\u{1680}'
    ||| '\u{2000}' <= c <= '\u{200a}'
    ||| c == '\u{2028}'
    ||| c == '\u{2029}'
    ||| c == '\u{202f}'
    ||| c == '\u{205f}'
    ||| c == '\u{3000}'
}

/// A text without the white space at its start.
pub open spec fn without_leading_space(s: Seq<char>) -> Seq<char>
    decreases s.len(),
{
    if s.len() > 0 && is_white_space(s.first()) {
        without_leading_space(s.drop_first())
    } else {
        s
    }
}

/// A text without the white space at its end.
pub open spec fn without_trailing_space(s: Seq<char>) -> Seq<char>
    decreases s.len(),
{
    if s.len() > 0 && is_white_space(s.last()) {
        without_trailing_space(s.drop_last())
    } else {
        s
    }
}

/// A text without the white space at both its ends.
pub open spec fn trimmed_text(s: Seq<char>) -> Seq<char> {
    without_trailing_space(without_leading_space(s))
}

/// `str::trim` of the standard library: the slice without leading and trailing
/// white space, where white space is the Unicode property White_Space.
pub assume_specification[ str::trim ](s: &str) -> (r: &str)
    ensures
        r@ == trimmed_text(s@),
;

/// The URL a setting stands for: its trimmed text, where that is not empty.
pub open spec fn url_of(v: Option<Seq<char>>) -> Option<Seq<char>> {
    match v {
        Some(s) => if trimmed_text(s).len() == 0 {
            None
        } else {
            Some(trimmed_text(s))
        },
        None => None,
    }
}

/// An optional text, trimmed; an empty one is none at all.
pub fn trimmed(v: Option<&str>) -> (r: Option<String>)
    ensures
        text_of(r) == url_of(
            match v {
                Some(s) => Some(s@),
                None => None,
            },
        ),
{
    match v {
        Some(s) => {
            let u: &str = s.trim();
            if u.is_empty() {
                None
            } else {
                Some(u.to_owned())
            }
        },
        None => None,
    }
}

fn trimmed_setting(v: &Option<String>) -> (r: Option<String>)
    ensures
        text_of(r) == url_of(text_of(*v)),
{
    match v {
        Some(s) => trimmed(Some(s.as_str())),
        None => trimmed(None),
    }
}

impl Settings {
    /// The configured relay, ignoring an empty value. Trimmed, because a URL
    /// pasted on a phone routinely arrives with white space attached.
    pub fn relay_url(&self) -> (url: Option<String>)
        ensures
            text_of(url) == url_of(self@.custom_relay_url),
    {
        trimmed_setting(&self.custom_relay_url)
    }

    /// The configured Blossom, ignoring an empty value.
    pub fn blossom_url(&self) -> (url: Option<String>)
        ensures
            text_of(url) == url_of(self@.custom_blossom_url),
    {
        trimmed_setting(&self.custom_blossom_url)
    }
}

impl Default for Settings {
    fn default() -> (settings: Settings)
        ensures
            settings@ == SettingsModel::defaults(),
    {
        Settings { custom_relay_url: None, custom_blossom_url: None, aware_data_paths: None }
    }
}

/// What came of reading `settings.json`.
pub enum SettingsRead {
    /// There is no such file, or it cannot be read. So it is on the first run.
    Unreadable,
    /// The file is there and does not hold settings.
    Corrupt,
    /// The file holds these settings.
    Parsed(Settings),
}

/// The settings a read stands for.
pub open spec fn settings_of(read: SettingsRead) -> SettingsModel {
    match read {
        SettingsRead::Parsed(settings) => settings@,
        _ => SettingsModel::defaults(),
    }
}

/// The settings, falling back to the defaults on anything unreadable. A corrupt
/// file is ignored: the alternative is refusing to start because a preference
/// could not be parsed.
pub fn load(read: SettingsRead) -> (settings: Settings)
    ensures
        settings@ == settings_of(read),
        read matches SettingsRead::Parsed(parsed) ==> settings == parsed,
{
    match read {
        SettingsRead::Parsed(settings) => settings,
        _ => Settings::default(),
    }
}

/// The path of the settings file in a data directory.
pub open spec fn settings_path(data_dir: Seq<char>) -> Seq<char> {
    crate::text::file_path(data_dir, "settings.json"@)
}

/// The path a save writes to before it replaces the settings file.
pub open spec fn temporary_path(data_dir: Seq<char>) -> Seq<char> {
    settings_path(data_dir) + ".tmp"@
}

/// The path of the settings file in a data directory.
pub fn path_in(data_dir: &str) -> (path: String)
    ensures
        path@ == settings_path(data_dir@),
{
    path_of(data_dir, "settings.json")
}

/// One step of a save. The next is taken only when this one has succeeded.
pub enum SaveStep {
    /// Write the whole of the new contents to this path.
    Write { path: String, contents: Vec<u8> },
    /// Move the first path onto the second, replacing it at once.
    Rename { from: String, to: String },
}

/// What a [`SaveStep`] holds.
pub enum SaveStepModel {
    Write { path: Seq<char>, contents: Seq<u8> },
    Rename { from: Seq<char>, to: Seq<char> },
}

impl View for SaveStep {
    type V = SaveStepModel;

    open spec fn view(&self) -> SaveStepModel {
        match self {
            SaveStep::Write { path, contents } => SaveStepModel::Write {
                path: path@,
                contents: contents@,
            },
            SaveStep::Rename { from, to } => SaveStepModel::Rename { from: from@, to: to@ },
        }
    }
}

/// How settings are saved: into a temporary file first, which then takes the
/// settings file's place.
pub open spec fn save_steps(data_dir: Seq<char>, contents: Seq<u8>) -> Seq<SaveStepModel> {
    seq![
        SaveStepModel::Write { path: temporary_path(data_dir), contents },
        SaveStepModel::Rename { from: temporary_path(data_dir), to: settings_path(data_dir) },
    ]
}

/// The steps that write the settings, given as the bytes of their file,
/// atomically, so that a crash in the middle cannot leave a half-file that the
/// next launch would discard.
pub fn save(data_dir: &str, contents: Vec<u8>) -> (steps: Vec<SaveStep>)
    ensures
        steps@.map_values(|step: SaveStep| step@) == save_steps(data_dir@, contents@),
{
    let path: String = path_in(data_dir);
    let tmp: String = glue(path.as_str(), ".tmp");
    let mut steps: Vec<SaveStep> = Vec::new();
    steps.push(SaveStep::Write { path: tmp.clone(), contents });
    steps.push(SaveStep::Rename { from: tmp, to: path });
    assert(steps@.map_values(|step: SaveStep| step@) =~= save_steps(data_dir@, contents@));
    steps
}

/// One setting and its new value.
#[derive(Debug, Clone)]
pub enum SettingChange {
    Relay { url: String },
    Blossom { url: String },
    AwareDataPaths { count: u8 },
}

/// Settings with one of them changed.
pub open spec fn changed(settings: Settings, change: SettingChange) -> Settings {
    match change {
        SettingChange::Relay { url } => Settings { custom_relay_url: Some(url), ..settings },
        SettingChange::Blossom { url } => Settings { custom_blossom_url: Some(url), ..settings },
        SettingChange::AwareDataPaths { count } => Settings {
            aware_data_paths: Some(count),
            ..settings
        },
    }
}

impl SettingChange {
    /// The settings to write back: the ones just read, with this one changed.
    /// The settings share a file, so writing one from a stale copy would
    /// silently clear the others.
    pub fn apply(&self, settings: Settings) -> (written: Settings)
        ensures
            written == changed(settings, *self),
    {
        match self {
            SettingChange::Relay { url } => Settings {
                custom_relay_url: Some(url.clone()),
                custom_blossom_url: settings.custom_blossom_url,
                aware_data_paths: settings.aware_data_paths,
            },
            SettingChange::Blossom { url } => Settings {
                custom_relay_url: settings.custom_relay_url,
                custom_blossom_url: Some(url.clone()),
                aware_data_paths: settings.aware_data_paths,
            },
            SettingChange::AwareDataPaths { count } => Settings {
                custom_relay_url: settings.custom_relay_url,
                custom_blossom_url: settings.custom_blossom_url,
                aware_data_paths: Some(*count),
            },
        }
    }
}

proof fn lemma_leading_space(s: Seq<char>)
    ensures
        without_leading_space(s).len() <= s.len(),
        without_leading_space(s) == s.skip(s.len() - without_leading_space(s).len()),
        without_leading_space(s).len() > 0 ==> !is_white_space(without_leading_space(s).first()),
        forall|i: int|
            0 <= i < s.len() - without_leading_space(s).len() ==> is_white_space(#[trigger] s[i]),
    decreases s.len(),
{
    if s.len() > 0 && is_white_space(s.first()) {
        let rest = s.drop_first();
        lemma_leading_space(rest);
        assert(without_leading_space(s) =~= s.skip(s.len() - without_leading_space(s).len()));
        assert forall|i: int|
            0 <= i < s.len() - without_leading_space(s).len() implies is_white_space(
            #[trigger] s[i],
        ) by {
            if i > 0 {
                assert(s[i] == rest[i - 1]);
            }
        }
    } else {
        assert(s =~= s.skip(0));
    }
}

proof fn lemma_trailing_space(s: Seq<char>)
    ensures
        without_trailing_space(s).len() <= s.len(),
        without_trailing_space(s) == s.take(without_trailing_space(s).len() as int),
        without_trailing_space(s).len() > 0 ==> !is_white_space(without_trailing_space(s).last()),
        forall|i: int|
            without_trailing_space(s).len() <= i < s.len() ==> is_white_space(#[trigger] s[i]),
    decreases s.len(),
{
    if s.len() > 0 && is_white_space(s.last()) {
        let rest = s.drop_last();
        lemma_trailing_space(rest);
        assert(without_trailing_space(s) =~= s.take(without_trailing_space(s).len() as int));
        assert forall|i: int|
            without_trailing_space(s).len() <= i < s.len() implies is_white_space(
            #[trigger] s[i],
        ) by {
            if i < s.len() - 1 {
                assert(s[i] == rest[i]);
            }
        }
    } else {
        assert(s =~= s.take(s.len() as int));
    }
}

/// A URL that a setting stands for is never empty, has no white space at either
/// end, and is a part of the setting around which there is only white space.
/// Trimming it again changes nothing.
pub proof fn law_urls_are_trimmed(v: Option<Seq<char>>)
    ensures
        url_of(v) matches Some(url) ==> {
            &&& url.len() > 0
            &&& !is_white_space(url.first())
            &&& !is_white_space(url.last())
            &&& exists|from: int| #[trigger] surrounded_by_space(v->0, from, url)
        },
        url_of(url_of(v)) == url_of(v),
{
    if let Some(s) = v {
        let lead = without_leading_space(s);
        let url = trimmed_text(s);
        lemma_leading_space(s);
        lemma_trailing_space(lead);
        if url.len() > 0 {
            let from = s.len() - lead.len();
            assert(url.first() == lead.first());
            assert(url =~= s.subrange(from, from + url.len()));
            assert forall|i: int|
                0 <= i < s.len() && !(from <= i < from + url.len()) implies is_white_space(
                #[trigger] s[i],
            ) by {
                if i >= from {
                    assert(s[i] == lead[i - from]);
                }
            }
            assert(surrounded_by_space(s, from, url));
            assert(without_leading_space(url) == url);
            assert(without_trailing_space(url) == url);
        }
    }
}

/// `part` stands in `s` at `from`, with nothing but white space around it.
pub open spec fn surrounded_by_space(s: Seq<char>, from: int, part: Seq<char>) -> bool {
    &&& 0 <= from <= from + part.len() <= s.len()
    &&& part == s.subrange(from, from + part.len())
    &&& forall|i: int|
        0 <= i < s.len() && !(from <= i < from + part.len()) ==> is_white_space(#[trigger] s[i])
}

/// A setting of white space alone stands for nothing: that is how one is
/// cleared.
pub proof fn law_blank_clears(s: Seq<char>)
    requires
        forall|i: int| 0 <= i < s.len() ==> is_white_space(#[trigger] s[i]),
    ensures
        url_of(Some(s)) is None,
{
    let lead = without_leading_space(s);
    lemma_leading_space(s);
    lemma_trailing_space(lead);
    if lead.len() > 0 {
        assert(lead.first() == s[s.len() - lead.len()]);
    }
}

/// Changing one setting leaves the others as they were read.
pub proof fn law_a_change_keeps_the_other_settings(settings: Settings, change: SettingChange)
    ensures
        match change {
            SettingChange::Relay { url } => {
                &&& changed(settings, change)@.custom_relay_url == Some(url@)
                &&& changed(settings, change)@.custom_blossom_url == settings@.custom_blossom_url
                &&& changed(settings, change)@.aware_data_paths == settings@.aware_data_paths
            },
            SettingChange::Blossom { url } => {
                &&& changed(settings, change)@.custom_relay_url == settings@.custom_relay_url
                &&& changed(settings, change)@.custom_blossom_url == Some(url@)
                &&& changed(settings, change)@.aware_data_paths == settings@.aware_data_paths
            },
            SettingChange::AwareDataPaths { count } => {
                &&& changed(settings, change)@.custom_relay_url == settings@.custom_relay_url
                &&& changed(settings, change)@.custom_blossom_url == settings@.custom_blossom_url
                &&& changed(settings, change)@.aware_data_paths == Some(count)
            },
        },
{
}

/// The files on disk, by path.
pub type Disk = Map<Seq<char>, Seq<u8>>;

/// The disk after a save step has run to its end.
pub open spec fn step_done(disk: Disk, step: SaveStepModel) -> Disk {
    match step {
        SaveStepModel::Write { path, contents } => disk.insert(path, contents),
        SaveStepModel::Rename { from, to } => disk.remove(from).insert(to, disk[from]),
    }
}

/// What a crash during one save step can leave behind: a write may have got to
/// any point, a rename has happened or has not.
pub open spec fn step_can_leave(disk: Disk, step: SaveStepModel, left: Disk) -> bool {
    ||| left == disk
    ||| left == step_done(disk, step)
    ||| (step matches SaveStepModel::Write { path, contents } && exists|n: int|
        0 <= n <= contents.len() && left == disk.insert(path, #[trigger] contents.take(n)))
}

/// What a crash at some point of the steps, or their end, can leave behind.
pub open spec fn steps_can_leave(disk: Disk, steps: Seq<SaveStepModel>, left: Disk) -> bool
    decreases steps.len(),
{
    if steps.len() == 0 {
        left == disk
    } else {
        ||| step_can_leave(disk, steps.first(), left)
        ||| steps_can_leave(step_done(disk, steps.first()), steps.drop_first(), left)
    }
}

/// Whenever a save is cut short, the settings file is what it was before or the
/// new contents in full, and no file but it and the temporary one has changed.
pub proof fn law_a_save_is_atomic(
    disk: Disk,
    data_dir: Seq<char>,
    contents: Seq<u8>,
    left: Disk,
)
    requires
        steps_can_leave(disk, save_steps(data_dir, contents), left),
    ensures
        ({
            let path = settings_path(data_dir);
            ||| (left.contains_key(path) == disk.contains_key(path) && left[path] == disk[path])
            ||| (left.contains_key(path) && left[path] == contents)
        }),
        forall|other: Seq<char>|
            other != settings_path(data_dir) && other != temporary_path(data_dir) ==> (
            #[trigger] left.contains_key(other) == disk.contains_key(other) && left[other]
                == disk[other]),
{
    reveal_with_fuel(steps_can_leave, 3);
    reveal_strlit(".tmp");
    let path = settings_path(data_dir);
    let tmp = temporary_path(data_dir);
    assert(tmp.len() == path.len() + 4);
    let steps = save_steps(data_dir, contents);
    assert(steps.drop_first().len() == 1);
    assert(steps.drop_first().first() == steps[1]);
}

/// A save that ran to its end has the settings file hold the new contents, and
/// leaves no temporary file behind.
pub proof fn law_a_finished_save_is_read_back(disk: Disk, data_dir: Seq<char>, contents: Seq<u8>)
    ensures
        ({
            let steps = save_steps(data_dir, contents);
            let after = step_done(step_done(disk, steps[0]), steps[1]);
            &&& after.contains_key(settings_path(data_dir))
            &&& after[settings_path(data_dir)] == contents
            &&& !after.contains_key(temporary_path(data_dir))
        }),
{
    reveal_strlit(".tmp");
    assert(temporary_path(data_dir).len() == settings_path(data_dir).len() + 4);
}

/// How settings are turned into bytes and bytes into settings.
pub struct Codec {
    pub encode: spec_fn(Settings) -> Seq<u8>,
    pub decode: spec_fn(Seq<u8>) -> Option<Settings>,
}

impl Codec {
    /// What was encoded is decoded to the same settings.
    pub open spec fn round_trips(self) -> bool {
        forall|s: Settings| (self.decode)(#[trigger] (self.encode)(s)) == Some(s)
    }

    /// What reading the settings file of a data directory comes to.
    pub open spec fn read(self, disk: Disk, data_dir: Seq<char>) -> SettingsRead {
        if !disk.contains_key(settings_path(data_dir)) {
            SettingsRead::Unreadable
        } else {
            match (self.decode)(disk[settings_path(data_dir)]) {
                Some(settings) => SettingsRead::Parsed(settings),
                None => SettingsRead::Corrupt,
            }
        }
    }

    /// The disk after these settings have been saved.
    pub open spec fn saved(self, disk: Disk, data_dir: Seq<char>, settings: Settings) -> Disk {
        let steps = save_steps(data_dir, (self.encode)(settings));
        step_done(step_done(disk, steps[0]), steps[1])
    }
}

/// Settings that were saved are loaded again, all of them and as they were
/// stored, whatever the file held before: of two saves the last one counts. Of
/// the encoding this asks only that it reads back what it wrote.
pub proof fn law_saved_settings_are_loaded(
    codec: Codec,
    disk: Disk,
    data_dir: Seq<char>,
    earlier: Settings,
    settings: Settings,
)
    requires
        codec.round_trips(),
    ensures
        codec.read(codec.saved(disk, data_dir, settings), data_dir) == SettingsRead::Parsed(
            settings,
        ),
        settings_of(codec.read(codec.saved(disk, data_dir, settings), data_dir)) == settings@,
        codec.read(
            codec.saved(codec.saved(disk, data_dir, earlier), data_dir, settings),
            data_dir,
        ) == SettingsRead::Parsed(settings),
{
    let contents = (codec.encode)(settings);
    law_a_finished_save_is_read_back(disk, data_dir, contents);
    law_a_finished_save_is_read_back(
        codec.saved(disk, data_dir, earlier),
        data_dir,
        contents,
    );
}

/// A save that is cut short loses nothing: what is loaded next is what was there
/// before, or the new settings.
pub proof fn law_a_cut_save_loads_old_or_new(
    codec: Codec,
    disk: Disk,
    data_dir: Seq<char>,
    settings: Settings,
    left: Disk,
)
    requires
        codec.round_trips(),
        steps_can_leave(disk, save_steps(data_dir, (codec.encode)(settings)), left),
    ensures
        codec.read(left, data_dir) == codec.read(disk, data_dir) || codec.read(left, data_dir)
            == SettingsRead::Parsed(settings),
{
    law_a_save_is_atomic(disk, data_dir, (codec.encode)(settings), left);
}

/// White space is these characters and no others.
pub proof fn law_white_space_is_these_characters(c: char)
    ensures
        is_white_space(c) <==> {
            let code = c as int;
            ||| 9 <= code <= 13
            ||| code == 32
            ||| code == 133
            ||| code == 160
            ||| code == 5760
            ||| 8192 <= code <= 8202
            ||| code == 8232
            ||| code == 8233
            ||| code == 8239
            ||| code == 8287
            ||| code == 12288
        },
{
}

/// A setting stands for a URL exactly where it holds something but white space.
pub proof fn law_what_is_not_blank_is_a_url(s: Seq<char>)
    ensures
        url_of(None) is None,
        url_of(Some(s)) is Some <==> exists|i: int|
            0 <= i < s.len() && !is_white_space(#[trigger] s[i]),
{
    if exists|i: int| 0 <= i < s.len() && !is_white_space(#[trigger] s[i]) {
        let i = choose|i: int| 0 <= i < s.len() && !is_white_space(#[trigger] s[i]);
        let lead = without_leading_space(s);
        lemma_leading_space(s);
        lemma_trailing_space(lead);
        let from = s.len() - lead.len();
        assert(i >= from);
        assert(s[i] == lead[i - from]);
        assert(url_of(Some(s)) is Some);
    } else {
        law_blank_clears(s);
    }
}

/// A file that is missing or corrupt gives settings with nothing in them, and
/// any other the settings that it holds.
pub proof fn law_a_read_gives_what_the_file_holds(parsed: Settings, settings: Settings)
    ensures
        call_ensures(load, (SettingsRead::Unreadable,), settings) ==> {
            &&& settings.custom_relay_url is None
            &&& settings.custom_blossom_url is None
            &&& settings.aware_data_paths is None
        },
        call_ensures(load, (SettingsRead::Corrupt,), settings) ==> {
            &&& settings.custom_relay_url is None
            &&& settings.custom_blossom_url is None
            &&& settings.aware_data_paths is None
        },
        call_ensures(load, (SettingsRead::Parsed(parsed),), settings) ==> settings == parsed,
{
}

/// The relay is read from the relay's setting and the blob store from its own.
pub proof fn law_each_url_is_of_its_own_setting(settings: &Settings, url: Option<String>)
    ensures
        call_ensures(Settings::relay_url, (settings,), url) ==> match settings.custom_relay_url {
            Some(s) => text_of(url) == url_of(Some(s@)),
            None => url is None,
        },
        call_ensures(Settings::blossom_url, (settings,), url) ==> match settings.custom_blossom_url {
            Some(s) => text_of(url) == url_of(Some(s@)),
            None => url is None,
        },
{
}

/// The settings file is `settings.json` in the data directory, and a save writes
/// beside it: under the same name with `.tmp` behind it.
pub proof fn law_the_settings_file_has_its_name(dir: Seq<char>)
    ensures
        dir.is_prefix_of(settings_path(dir)),
        "settings.json"@.is_suffix_of(settings_path(dir)),
        settings_path(dir) == crate::text::file_path(dir, "settings.json"@),
        temporary_path(dir) == settings_path(dir) + ".tmp"@,
        temporary_path(dir) != settings_path(dir),
{
    crate::text::law_a_path_is_the_directory_and_the_name(dir, "settings.json"@);
    reveal_strlit(".tmp");
    assert(temporary_path(dir).len() == settings_path(dir).len() + 4);
}

/// A save has two steps: the bytes that were given are written beside the
/// settings file, under the file's name with `.tmp` behind it, and what was
/// written takes the settings file's place.
pub proof fn law_a_save_writes_what_it_was_given(
    dir: &str,
    contents: Vec<u8>,
    steps: Vec<SaveStep>,
)
    requires
        call_ensures(save, (dir, contents), steps),
    ensures
        steps@.len() == 2,
        steps@[0] matches SaveStep::Write { path, contents: written } && written@ == contents@
            && path@ == crate::text::file_path(dir@, "settings.json"@) + ".tmp"@,
        steps@[1] matches SaveStep::Rename { from, to } && from@ == crate::text::file_path(
            dir@,
            "settings.json"@,
        ) + ".tmp"@ && to@ == crate::text::file_path(dir@, "settings.json"@),
{
    let shown = steps@.map_values(|step: SaveStep| step@);
    assert(shown.len() == 2);
    assert(shown[0] == steps@[0]@);
    assert(shown[1] == steps@[1]@);
}

} // verus!
