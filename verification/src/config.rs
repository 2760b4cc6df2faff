use std::path::PathBuf;

use vstd::prelude::*;

use crate::string_map::StringMap;
use crate::string_set::StringSet;

verus! {

/// A JSON value held under a key this version does not know; it is carried
/// through untouched.
#[verifier::external_type_specification]
#[verifier::external_body]
pub struct ExJsonValue(serde_json::Value);

/// A filesystem path; carried through untouched.
#[verifier::external_type_specification]
#[verifier::external_body]
pub struct ExPathBuf(PathBuf);

/// Reader preferences. Each entry that the file lacks takes its default
/// value; keys this version does not know are kept in `extra`.
#[derive(Clone)]
pub struct Settings {
    pub prefer_external: bool,
    pub auto_mark_read: bool,
    pub default_provider: String,
    pub enable_image_rendering: bool,
    pub reader_options: StringMap<String>,
    pub extra: StringMap<serde_json::Value>,
}

/// The persisted state of the reader: chapters read, last places visited
/// and settings. Keys this version does not know are kept in `extra`.
#[derive(Clone)]
pub struct Config {
    pub last_manga_dir: Option<PathBuf>,
    pub read_chapters: StringSet,
    pub open_command: Option<String>,
    pub settings: Settings,
    pub last_download_url: Option<String>,
    pub last_downloaded_chapters: Vec<u32>,
    pub extra: StringMap<serde_json::Value>,
    /// True when the file could not be read: the configuration is then never
    /// written back, so that a read error never turns into lost data. The flag
    /// itself is never part of the file.
    pub read_only: bool,
}

/// What saving a configuration amounts to.
#[derive(Clone, Copy, Debug, PartialEq, Eq, Structural)]
pub enum SaveAction {
    /// Nothing is written, and saving succeeds.
    Skip,
    /// The configuration is written to its file.
    Write,
}

/// What was found where the configuration file is kept.
pub enum ConfigFile {
    /// There is no file.
    Missing,
    /// The file was read and its contents understood.
    Parsed(Config),
    /// The file was read but its contents could not be understood.
    Malformed,
}

/// What is left to do once a configuration has been loaded.
#[derive(Clone, Copy, Debug, PartialEq, Eq, Structural)]
pub enum LoadFollowUp {
    /// Write the fresh default configuration to the missing file.
    WriteDefaults,
    /// Nothing.
    Nothing,
    /// Keep a copy of the file that could not be understood beside it.
    PreserveMalformed,
}

/// The default settings.
pub open spec fn is_default_settings(s: Settings) -> bool {
    &&& !s.prefer_external
    &&& s.auto_mark_read
    &&& s.default_provider@ == "manual"@
    &&& s.enable_image_rendering
    &&& s.reader_options@.dom() == set!["mode"@]
    &&& s.reader_options@["mode"@]@ == "webtoon"@
    &&& s.extra@ == Map::<Seq<char>, serde_json::Value>::empty()
}

/// The default configuration, apart from the read-only flag.
pub open spec fn has_default_contents(c: Config) -> bool {
    &&& c.last_manga_dir is None
    &&& c.read_chapters@ == Set::<Seq<char>>::empty()
    &&& c.open_command is None
    &&& is_default_settings(c.settings)
    &&& c.last_download_url is None
    &&& c.last_downloaded_chapters@ == Seq::<u32>::empty()
    &&& c.extra@ == Map::<Seq<char>, serde_json::Value>::empty()
}

/// Every field but the chapters read is the same in `a` and `b`.
pub open spec fn same_apart_from_chapters(a: Config, b: Config) -> bool {
    &&& a.last_manga_dir == b.last_manga_dir
    &&& a.open_command == b.open_command
    &&& a.settings == b.settings
    &&& a.last_download_url == b.last_download_url
    &&& a.last_downloaded_chapters@ == b.last_downloaded_chapters@
    &&& a.extra == b.extra
    &&& a.read_only == b.read_only
}

/// `after` is `before` with the chapter `chapter` marked read.
pub open spec fn marked_read(before: Config, after: Config, chapter: Seq<char>) -> bool {
    &&& after.read_chapters@ == before.read_chapters@.insert(chapter)
    &&& same_apart_from_chapters(after, before)
}

/// `after` is `before` with the chapter `chapter` marked not read.
pub open spec fn marked_unread(before: Config, after: Config, chapter: Seq<char>) -> bool {
    &&& after.read_chapters@ == before.read_chapters@.remove(chapter)
    &&& same_apart_from_chapters(after, before)
}

/// `config` and `follow_up` are what loading gives for what was found,
/// `file`: the defaults, to be written, for a missing file; the file's
/// contents, writable, for one understood; the defaults, read-only, with a
/// copy of the file kept, for one that could not be understood.
pub open spec fn loaded(file: ConfigFile, config: Config, follow_up: LoadFollowUp) -> bool {
    match file {
        ConfigFile::Missing => {
            &&& has_default_contents(config)
            &&& !config.read_only
            &&& follow_up == LoadFollowUp::WriteDefaults
        },
        ConfigFile::Parsed(c) => {
            &&& same_apart_from_chapters(config, (Config { read_only: false, ..c }))
            &&& config.read_chapters@ == c.read_chapters@
            &&& follow_up == LoadFollowUp::Nothing
        },
        ConfigFile::Malformed => {
            &&& has_default_contents(config)
            &&& config.read_only
            &&& follow_up == LoadFollowUp::PreserveMalformed
        },
    }
}

impl Default for Settings {
    fn default() -> (r: Settings)
        ensures
            is_default_settings(r),
    {
        let mut reader_options: StringMap<String> = StringMap::new();
        reader_options.insert("mode".to_owned(), "webtoon".to_owned());
        proof {
            assert(reader_options@.dom() =~= set!["mode"@]);
        }
        Settings {
            prefer_external: false,
            auto_mark_read: true,
            default_provider: "manual".to_owned(),
            enable_image_rendering: true,
            reader_options,
            extra: StringMap::new(),
        }
    }
}

impl Default for Config {
    fn default() -> (r: Config)
        ensures
            has_default_contents(r),
            !r.read_only,
    {
        Config {
            last_manga_dir: None,
            read_chapters: StringSet::new(),
            open_command: None,
            settings: Settings::default(),
            last_download_url: None,
            last_downloaded_chapters: Vec::new(),
            extra: StringMap::new(),
            read_only: false,
        }
    }
}

impl Config {
    /// What saving this configuration amounts to.
    pub open spec fn save_action(self) -> SaveAction {
        if self.read_only {
            SaveAction::Skip
        } else {
            SaveAction::Write
        }
    }

    /// Decides what saving amounts to: a configuration that could not be
    /// read is never written back, and saving it succeeds without writing.
    pub fn save(&self) -> (r: SaveAction)
        ensures
            r == self.save_action(),
            self.read_only ==> r == SaveAction::Skip,
            !self.read_only ==> r == SaveAction::Write,
    {
        if self.read_only {
            SaveAction::Skip
        } else {
            SaveAction::Write
        }
    }

    /// The configuration to start from, given what was found where it is
    /// kept, and what is left to do. A missing file gives the defaults, to
    /// be written; a file that cannot be understood gives the defaults,
    /// marked read-only, and a copy of the file is kept.
    pub fn load(file: ConfigFile) -> (r: (Config, LoadFollowUp))
        ensures
            loaded(file, r.0, r.1),
    {
        match file {
            ConfigFile::Missing => (Config::default(), LoadFollowUp::WriteDefaults),
            ConfigFile::Parsed(c) => {
                let mut c = c;
                c.read_only = false;
                (c, LoadFollowUp::Nothing)
            },
            ConfigFile::Malformed => {
                let mut c = Config::default();
                c.read_only = true;
                (c, LoadFollowUp::PreserveMalformed)
            },
        }
    }

    /// Records the chapter at `path` as read, then says what saving amounts to.
    pub fn mark_chapter_as_read(&mut self, path: &str) -> (r: SaveAction)
        ensures
            marked_read(*old(self), *final(self), path@),
            r == final(self).save_action(),
            old(self).read_only ==> r == SaveAction::Skip,
            !old(self).read_only ==> r == SaveAction::Write,
    {
        let path_str = path.to_owned();
        self.read_chapters.insert(path_str);
        self.save()
    }

    /// Records the chapter at `path` as not read, then says what saving amounts to.
    pub fn mark_chapter_as_unread(&mut self, path: &str) -> (r: SaveAction)
        ensures
            marked_unread(*old(self), *final(self), path@),
            r == final(self).save_action(),
            old(self).read_only ==> r == SaveAction::Skip,
            !old(self).read_only ==> r == SaveAction::Write,
    {
        self.read_chapters.remove(path);
        self.save()
    }
}

/// Whether a configuration is written depends on its read-only flag alone:
/// a read-only one is never written, whatever chapters or settings it
/// holds, any other always is, and two configurations with the same flag
/// are saved alike.
pub proof fn law_save_follows_read_only_alone(c: Config, d: Config)
    ensures
        c.read_only ==> c.save_action() == SaveAction::Skip,
        !c.read_only ==> c.save_action() == SaveAction::Write,
        c.read_only == d.read_only ==> c.save_action() == d.save_action(),
{
}

/// However many chapters are marked, one after the other, in a
/// configuration that could not be read, it is never written back.
pub proof fn law_marks_never_make_unreadable_config_writable(steps: Seq<Config>, chapters: Seq<
    Seq<char>,
>)
    requires
        steps.len() >= 1,
        steps[0].read_only,
        chapters.len() + 1 == steps.len(),
        forall|i: int|
            0 <= i < chapters.len() ==> marked_read(steps[i], steps[i + 1], chapters[i])
                || marked_unread(steps[i], steps[i + 1], chapters[i]),
    ensures
        forall|i: int| 0 <= i < steps.len() ==> #[trigger] steps[i].save_action() == SaveAction::Skip,
    decreases steps.len(),
{
    if steps.len() > 1 {
        let shorter = steps.drop_last();
        let fewer = chapters.drop_last();
        assert forall|i: int| 0 <= i < fewer.len() implies marked_read(shorter[i], shorter[i + 1], fewer[i])
            || marked_unread(shorter[i], shorter[i + 1], fewer[i]) by {
            assert(shorter[i] == steps[i] && shorter[i + 1] == steps[i + 1]);
        }
        law_marks_never_make_unreadable_config_writable(shorter, fewer);
        let last = steps.len() - 1;
        assert(shorter[last - 1] == steps[last - 1]);
        assert(shorter[last - 1].save_action() == SaveAction::Skip);
        assert(marked_read(steps[last - 1], steps[last], chapters[last - 1]) || marked_unread(
            steps[last - 1],
            steps[last],
            chapters[last - 1],
        ));
        assert forall|i: int| 0 <= i < steps.len() implies #[trigger] steps[i].save_action()
            == SaveAction::Skip by {
            if i < last {
                assert(shorter[i] == steps[i]);
                assert(shorter[i].save_action() == SaveAction::Skip);
            }
        }
    }
}

/// A configuration that could not be read is never written back: loading
/// a file that cannot be understood gives a configuration whose saving
/// writes nothing, and marking chapters read or unread keeps it so.
pub proof fn law_unreadable_config_is_never_rewritten(
    config: Config,
    follow_up: LoadFollowUp,
    after: Config,
    chapter: Seq<char>,
)
    requires
        loaded(ConfigFile::Malformed, config, follow_up),
        marked_read(config, after, chapter) || marked_unread(config, after, chapter),
    ensures
        config.save_action() == SaveAction::Skip,
        after.save_action() == SaveAction::Skip,
        follow_up == LoadFollowUp::PreserveMalformed,
{
}

/// A configuration loaded from a missing file or from one understood is
/// written when saved, and stays so whatever chapters are marked.
pub proof fn law_readable_config_is_writable(
    file: ConfigFile,
    config: Config,
    follow_up: LoadFollowUp,
    after: Config,
    chapter: Seq<char>,
)
    requires
        !(file is Malformed),
        loaded(file, config, follow_up),
        marked_read(config, after, chapter) || marked_unread(config, after, chapter),
    ensures
        config.save_action() == SaveAction::Write,
        after.save_action() == SaveAction::Write,
{
}

/// Marking a chapter read and then unread gives back the configuration's
/// chapters read, and every other field, when it was not read before.
pub proof fn law_mark_then_unmark_restores(
    before: Config,
    marked: Config,
    unmarked: Config,
    chapter: Seq<char>,
)
    requires
        !before.read_chapters@.contains(chapter),
        marked_read(before, marked, chapter),
        marked_unread(marked, unmarked, chapter),
    ensures
        unmarked.read_chapters@ == before.read_chapters@,
        same_apart_from_chapters(unmarked, before),
{
    assert(before.read_chapters@.insert(chapter).remove(chapter) =~= before.read_chapters@);
}

/// Marking a chapter unread and then read gives back the configuration's
/// chapters read, and every other field, when it was read before.
pub proof fn law_unmark_then_mark_restores(
    before: Config,
    unmarked: Config,
    marked: Config,
    chapter: Seq<char>,
)
    requires
        before.read_chapters@.contains(chapter),
        marked_unread(before, unmarked, chapter),
        marked_read(unmarked, marked, chapter),
    ensures
        marked.read_chapters@ == before.read_chapters@,
        same_apart_from_chapters(marked, before),
{
    assert(before.read_chapters@.remove(chapter).insert(chapter) =~= before.read_chapters@);
}

/// Marking a chapter twice the same way is marking it once.
pub proof fn law_marking_is_idempotent(
    before: Config,
    once: Config,
    twice: Config,
    chapter: Seq<char>,
)
    requires
        marked_read(before, once, chapter) && marked_read(once, twice, chapter) || marked_unread(
            before,
            once,
            chapter,
        ) && marked_unread(once, twice, chapter),
    ensures
        twice.read_chapters@ == once.read_chapters@,
        same_apart_from_chapters(twice, once),
{
    assert(before.read_chapters@.insert(chapter).insert(chapter) =~= before.read_chapters@.insert(
        chapter,
    ));
    assert(before.read_chapters@.remove(chapter).remove(chapter) =~= before.read_chapters@.remove(
        chapter,
    ));
}

/// Marking a chapter changes that chapter alone: it is read after marking
/// it read, not read after marking it unread, and every other chapter is
/// as it was.
pub proof fn law_marking_touches_one_chapter(
    before: Config,
    after: Config,
    chapter: Seq<char>,
    other: Seq<char>,
)
    requires
        marked_read(before, after, chapter) || marked_unread(before, after, chapter),
        other != chapter,
    ensures
        after.read_chapters@.contains(other) == before.read_chapters@.contains(other),
        marked_read(before, after, chapter) ==> after.read_chapters@.contains(chapter),
        marked_unread(before, after, chapter) ==> !after.read_chapters@.contains(chapter),
{
}

} // verus!
