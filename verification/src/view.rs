use vstd::prelude::*;
use vstd::string::StringExecFns;

use crate::palette::{Color, ModernColors, ProgressPhase, WallustColors};
use crate::text::{
    chars_of, contains_infix, decimal, has_infix, push_decimal, push_spaced_name, spaced_name,
};

verus! {

/// The icons of the interface.
pub struct Icons;

impl Icons {
    pub const READ: &'static str = "\u{2713}";
    pub const IN_PROGRESS: &'static str = "\u{23ef}";
    pub const UNREAD: &'static str = "\u{27a4}";
    pub const BOOKMARK: &'static str = "\u{27e2}";
    pub const FOLDER: &'static str = "\u{1f4c1}";
    pub const FILE: &'static str = "\u{1f4c4}";
    pub const DOWNLOAD: &'static str = "\u{2b07}\u{fe0f}";
    pub const REFRESH: &'static str = "\u{21ba}";
    pub const SETTINGS: &'static str = "\u{2699}\u{fe0f}";
    pub const HELP: &'static str = "\u{2753}";
    pub const MANGA: &'static str = "\u{1f4d6}";
    pub const CHAPTER: &'static str = "";
    pub const IMAGE: &'static str = "\u{1f5bc}\u{fe0f}";
    pub const LINK: &'static str = "\u{1f517}";
    pub const ARROW_RIGHT: &'static str = "\u{25b6}";
    pub const DOT: &'static str = "\u{2022}";
}

/// The screen the reader shows.
#[derive(Clone, Copy, Debug, PartialEq, Eq, Structural)]
pub enum AppState {
    BrowseManga,
    DownloadInput,
    Downloading,
    ViewMangaDetails,
    Settings,
}

/// The input field that has the focus.
#[derive(Clone, Copy, Debug, PartialEq, Eq, Structural)]
pub enum InputField {
    Url,
    Chapters,
    MangaDir,
}

/// How far a chapter has been read.
#[derive(Clone, Copy, Debug, PartialEq, Eq, Structural)]
pub enum ChapterStatus {
    Read,
    InProgress,
    Unread,
}

/// What fills the cover frame.
#[derive(Clone, Copy, Debug, PartialEq, Eq, Structural)]
pub enum CoverContent {
    /// A plain card with title and progress: the terminal shows no images.
    Fallback,
    /// The cover image itself.
    Image,
    /// A notice that the image is loading.
    Loading,
    /// A notice that there is no image.
    NoImage,
    /// A notice that image rendering is turned off.
    Disabled,
}

/// The nature of a line of the download log, which sets its colour.
#[derive(Clone, Copy, Debug, PartialEq, Eq, Structural)]
pub enum LogTone {
    Failure,
    Warning,
    Success,
    Fetching,
    Searching,
    Plain,
}

/// The icon of a progress: read once complete, in progress while under way,
/// unread before it starts.
pub open spec fn status_icon_spec(phase: ProgressPhase) -> &'static str {
    match phase {
        ProgressPhase::Complete => Icons::READ,
        ProgressPhase::InProgress => Icons::IN_PROGRESS,
        ProgressPhase::NotStarted => Icons::UNREAD,
    }
}

/// The icon of a progress: read once complete, in progress while under way,
/// unread before it starts.
pub fn status_icon(phase: ProgressPhase) -> (r: &'static str)
    ensures
        r == status_icon_spec(phase),
{
    match phase {
        ProgressPhase::Complete => Icons::READ,
        ProgressPhase::InProgress => Icons::IN_PROGRESS,
        ProgressPhase::NotStarted => Icons::UNREAD,
    }
}

/// How far a chapter has been read: read when so marked; in progress when
/// the last page read lies strictly between the first and the page count;
/// unread otherwise.
pub open spec fn chapter_status_spec(
    read: bool,
    last_page_read: Option<usize>,
    full_pages_read: Option<usize>,
) -> ChapterStatus {
    if read {
        ChapterStatus::Read
    } else if last_page_read is Some && full_pages_read is Some && last_page_read->0 > 0
        && last_page_read->0 < full_pages_read->0 {
        ChapterStatus::InProgress
    } else {
        ChapterStatus::Unread
    }
}

/// How far a chapter has been read.
pub fn chapter_status(
    read: bool,
    last_page_read: Option<usize>,
    full_pages_read: Option<usize>,
) -> (r: ChapterStatus)
    ensures
        r == chapter_status_spec(read, last_page_read, full_pages_read),
        read ==> r == ChapterStatus::Read,
        !read ==> (r == ChapterStatus::InProgress <==> (last_page_read is Some
            && full_pages_read is Some && 0 < last_page_read->0 < full_pages_read->0)),
        !read ==> r != ChapterStatus::Read,
{
    if read {
        return ChapterStatus::Read;
    }
    match (last_page_read, full_pages_read) {
        (Some(last), Some(total)) => {
            if last > 0 && last < total {
                ChapterStatus::InProgress
            } else {
                ChapterStatus::Unread
            }
        },
        _ => ChapterStatus::Unread,
    }
}

/// A chapter marked read is read, whatever page it was left at; one not
/// marked read is in progress exactly when its last page read lies strictly
/// between the first and the page count, and unread otherwise.
pub proof fn law_chapter_status(
    read: bool,
    last_page_read: Option<usize>,
    full_pages_read: Option<usize>,
)
    ensures
        read ==> chapter_status_spec(read, last_page_read, full_pages_read) == ChapterStatus::Read,
        !read ==> (chapter_status_spec(read, last_page_read, full_pages_read)
            == ChapterStatus::InProgress <==> (last_page_read is Some && full_pages_read is Some
            && 0 < last_page_read->0 < full_pages_read->0)),
        !read ==> chapter_status_spec(read, last_page_read, full_pages_read) != ChapterStatus::Read,
{
}

impl WallustColors {
    /// The icon and colour of a chapter status: read in the success colour,
    /// in progress in the primary colour, unread in the muted colour.
    pub fn chapter_status_style(&self, status: ChapterStatus) -> (r: (&'static str, Color))
        ensures
            r == match status {
                ChapterStatus::Read => (Icons::READ, self.success),
                ChapterStatus::InProgress => (Icons::IN_PROGRESS, self.primary),
                ChapterStatus::Unread => (Icons::UNREAD, self.text_muted),
            },
    {
        match status {
            ChapterStatus::Read => (Icons::READ, self.success),
            ChapterStatus::InProgress => (Icons::IN_PROGRESS, self.primary),
            ChapterStatus::Unread => (Icons::UNREAD, self.text_muted),
        }
    }

    /// The border colour of a list: the focused colour when it has the focus.
    pub fn list_border(&self, focused: bool) -> (c: Color)
        ensures
            c == if focused {
                self.border_focus
            } else {
                self.border
            },
    {
        if focused {
            self.border_focus
        } else {
            self.border
        }
    }

    /// The colour of a download log line of the given nature.
    pub fn log_color(&self, tone: LogTone) -> (c: Color)
        ensures
            c == match tone {
                LogTone::Failure => self.error,
                LogTone::Warning => self.accent,
                LogTone::Success => self.success,
                LogTone::Fetching => self.primary,
                LogTone::Searching => self.accent,
                LogTone::Plain => self.text_secondary,
            },
    {
        match tone {
            LogTone::Failure => self.error,
            LogTone::Warning => self.accent,
            LogTone::Success => self.success,
            LogTone::Fetching => self.primary,
            LogTone::Searching => self.accent,
            LogTone::Plain => self.text_secondary,
        }
    }
}

/// How an input field of the download form looks.
#[derive(Clone, Copy, Debug, PartialEq, Eq, Structural)]
pub struct FieldLook {
    pub text: Color,
    pub bold: bool,
    pub border: Color,
}

/// How an input field of the download form looks: main text in bold inside
/// a focused border when it has the focus, secondary text inside a plain
/// border otherwise, in the fixed palette.
pub fn field_look(focused: bool) -> (r: FieldLook)
    ensures
        r == if focused {
            FieldLook {
                text: Color::Rgb(248, 250, 252),
                bold: true,
                border: Color::Rgb(129, 140, 248),
            }
        } else {
            FieldLook { text: Color::Rgb(148, 163, 184), bold: false, border: Color::Rgb(71, 85, 105) }
        },
{
    if focused {
        FieldLook {
            text: ModernColors::text_primary(),
            bold: true,
            border: ModernColors::border_focus(),
        }
    } else {
        FieldLook {
            text: ModernColors::text_secondary(),
            bold: false,
            border: ModernColors::border(),
        }
    }
}

/// The notice in the chapter box when no manga is selected.
pub fn no_manga_notice() -> (r: String)
    ensures
        r@ == Icons::FOLDER@ + " Aucun manga s\u{e9}lectionn\u{e9}"@,
{
    let mut out = String::new();
    out.append(Icons::FOLDER);
    out.append(" Aucun manga s\u{e9}lectionn\u{e9}");
    assert(out@ =~= Icons::FOLDER@ + " Aucun manga s\u{e9}lectionn\u{e9}"@);
    out
}

/// The title of the chapter box when no manga is selected.
pub fn chapters_box_title() -> (r: String)
    ensures
        r@ == " "@ + Icons::CHAPTER@ + " Chapitres "@,
{
    let mut out = String::new();
    out.append(" ");
    out.append(Icons::CHAPTER);
    out.append(" Chapitres ");
    assert(out@ =~= " "@ + Icons::CHAPTER@ + " Chapitres "@);
    out
}

/// The count of chapters read in the statistics of a manga.
pub fn chapters_read_text(read: usize, total: usize) -> (r: String)
    ensures
        r@ == Icons::READ@ + " Chapitres lus: "@ + decimal(read as nat) + "/"@ + decimal(
            total as nat,
        ),
{
    let mut out = String::new();
    out.append(Icons::READ);
    out.append(" Chapitres lus: ");
    push_decimal(&mut out, read as u64);
    out.append("/");
    push_decimal(&mut out, total as u64);
    assert(out@ =~= Icons::READ@ + " Chapitres lus: "@ + decimal(read as nat) + "/"@ + decimal(
        total as nat,
    ));
    out
}

/// The sum of the sizes.
pub open spec fn size_sum(sizes: Seq<u64>) -> int
    decreases sizes.len(),
{
    if sizes.len() == 0 {
        0
    } else {
        size_sum(sizes.drop_last()) + sizes.last()
    }
}

proof fn lemma_size_sum_grows(sizes: Seq<u64>, j: int)
    requires
        0 <= j <= sizes.len(),
    ensures
        size_sum(sizes.take(j)) <= size_sum(sizes),
    decreases sizes.len() - j,
{
    if j < sizes.len() {
        lemma_size_sum_grows(sizes, j + 1);
        assert(sizes.take(j + 1).drop_last() =~= sizes.take(j));
    } else {
        assert(sizes.take(j) =~= sizes);
    }
}

/// The total size of a manga's chapters, or nothing when the sum does not
/// fit in a `u64`.
pub fn total_size(sizes: &Vec<u64>) -> (r: Option<u64>)
    ensures
        match r {
            Some(total) => total == size_sum(sizes@),
            None => size_sum(sizes@) > u64::MAX,
        },
{
    let n = sizes.len();
    let mut total: u64 = 0;
    let mut i: usize = 0;
    while i < n
        invariant
            n == sizes@.len(),
            i <= n,
            total == size_sum(sizes@.take(i as int)),
        decreases n - i,
    {
        assert(sizes@.take(i + 1).drop_last() =~= sizes@.take(i as int));
        match total.checked_add(sizes[i]) {
            Some(t) => {
                total = t;
            },
            None => {
                proof {
                    lemma_size_sum_grows(sizes@, i + 1);
                }
                return None;
            },
        }
        i = i + 1;
    }
    assert(sizes@.take(n as int) =~= sizes@);
    Some(total)
}

/// The progress text of a chapter: the bar with the page reached and the
/// page count when both are known, the page alone when only it is known,
/// nothing otherwise.
pub open spec fn chapter_progress_spec(
    last_page_read: Option<usize>,
    full_pages_read: Option<usize>,
    bar: Seq<char>,
) -> Seq<char> {
    match (last_page_read, full_pages_read) {
        (Some(page), Some(total)) => " "@ + bar + " "@ + decimal(page as nat) + "/"@ + decimal(
            total as nat,
        ),
        (Some(page), None) => " [Page "@ + decimal(page as nat) + "]"@,
        _ => Seq::empty(),
    }
}

/// The progress text of a chapter, around the bar drawn for it.
pub fn chapter_progress_text(
    last_page_read: Option<usize>,
    full_pages_read: Option<usize>,
    bar: &str,
) -> (r: String)
    ensures
        r@ == chapter_progress_spec(last_page_read, full_pages_read, bar@),
{
    let mut out = String::new();
    match (last_page_read, full_pages_read) {
        (Some(page), Some(total)) => {
            out.append(" ");
            out.append(bar);
            out.append(" ");
            push_decimal(&mut out, page as u64);
            out.append("/");
            push_decimal(&mut out, total as u64);
        },
        (Some(page), None) => {
            out.append(" [Page ");
            push_decimal(&mut out, page as u64);
            out.append("]");
        },
        _ => {},
    }
    assert(out@ =~= chapter_progress_spec(last_page_read, full_pages_read, bar@));
    out
}

/// The text in the middle of the header.
pub open spec fn header_center_spec(state: AppState, manga_name: Option<Seq<char>>) -> Seq<char> {
    match state {
        AppState::BrowseManga => match manga_name {
            Some(name) => Icons::BOOKMARK@ + " "@ + spaced_name(name),
            None => Icons::FOLDER@ + " S\u{e9}lectionnez un manga"@,
        },
        AppState::DownloadInput => Icons::DOWNLOAD@ + " T\u{e9}l\u{e9}chargement"@,
        AppState::Downloading => Icons::DOWNLOAD@ + " T\u{e9}l\u{e9}chargement en cours..."@,
        _ => "Manga Reader"@,
    }
}

/// The text in the middle of the header: the manga being browsed, or what
/// the screen is about.
pub fn header_center_text(state: AppState, manga_name: Option<&str>) -> (r: String)
    ensures
        r@ == header_center_spec(
            state,
            match manga_name {
                Some(n) => Some(n@),
                None => None,
            },
        ),
{
    let mut out = String::new();
    match state {
        AppState::BrowseManga => match manga_name {
            Some(name) => {
                out.append(Icons::BOOKMARK);
                out.append(" ");
                push_spaced_name(&mut out, name);
            },
            None => {
                out.append(Icons::FOLDER);
                out.append(" S\u{e9}lectionnez un manga");
            },
        },
        AppState::DownloadInput => {
            out.append(Icons::DOWNLOAD);
            out.append(" T\u{e9}l\u{e9}chargement");
        },
        AppState::Downloading => {
            out.append(Icons::DOWNLOAD);
            out.append(" T\u{e9}l\u{e9}chargement en cours...");
        },
        _ => {
            out.append("Manga Reader");
        },
    }
    proof {
        let name_view = match manga_name {
            Some(n) => Some(n@),
            None => None,
        };
        assert(out@ =~= header_center_spec(state, name_view));
    }
    out
}

/// The logo of the header.
pub fn header_logo_text() -> (r: String)
    ensures
        r@ == Icons::MANGA@ + " Manga Reader"@,
{
    let mut out = String::new();
    out.append(Icons::MANGA);
    out.append(" Manga Reader");
    assert(out@ =~= Icons::MANGA@ + " Manga Reader"@);
    out
}

/// The counts on the right of the header: how many mangas, and which list
/// has the focus.
pub fn header_stats_text(manga_count: usize, list_focused: bool) -> (r: String)
    ensures
        r@ == "Mangas: "@ + decimal(manga_count as nat) + " \u{2022} Focus: "@ + (if list_focused {
            "List"@
        } else {
            "Chapters"@
        }),
{
    let mut out = String::new();
    out.append("Mangas: ");
    push_decimal(&mut out, manga_count as u64);
    out.append(" \u{2022} Focus: ");
    if list_focused {
        out.append("List");
    } else {
        out.append("Chapters");
    }
    assert(out@ =~= "Mangas: "@ + decimal(manga_count as nat) + " \u{2022} Focus: "@ + (
    if list_focused {
        "List"@
    } else {
        "Chapters"@
    }));
    out
}

/// The shortcuts shown in the footer for the screen and the focus.
pub open spec fn footer_keys_spec(state: AppState, list_focused: bool) -> Seq<char> {
    match state {
        AppState::BrowseManga => if list_focused {
            "Enter:Focus "@ + Icons::CHAPTER@ + " \u{2022} j/k:Nav \u{2022} r:Refresh "@
                + Icons::REFRESH@ + " \u{2022} d:Download "@ + Icons::DOWNLOAD@
                + " \u{2022} ?:Help "@ + Icons::HELP@
        } else {
            "Tab:Focus "@ + Icons::MANGA@ + " \u{2022} j/k:Nav \u{2022} Enter:Read "@
                + Icons::CHAPTER@ + " \u{2022} ?:Help "@ + Icons::HELP@
        },
        AppState::DownloadInput => "Tab:Switch \u{2022} Enter:Download "@ + Icons::DOWNLOAD@
            + " \u{2022} Esc:Cancel"@,
        AppState::Downloading => "j/k:Scroll \u{2022} Esc:Cancel \u{2022} r:Refresh "@
            + Icons::REFRESH@,
        _ => "Navigation: j/k \u{2022} Actions: Enter \u{2022} Aide: ?"@,
    }
}

/// The shortcuts shown in the footer for the screen and the focus.
pub fn footer_keys_text(state: AppState, list_focused: bool) -> (r: String)
    ensures
        r@ == footer_keys_spec(state, list_focused),
{
    let mut out = String::new();
    match state {
        AppState::BrowseManga => {
            if list_focused {
                out.append("Enter:Focus ");
                out.append(Icons::CHAPTER);
                out.append(" \u{2022} j/k:Nav \u{2022} r:Refresh ");
                out.append(Icons::REFRESH);
                out.append(" \u{2022} d:Download ");
                out.append(Icons::DOWNLOAD);
                out.append(" \u{2022} ?:Help ");
                out.append(Icons::HELP);
            } else {
                out.append("Tab:Focus ");
                out.append(Icons::MANGA);
                out.append(" \u{2022} j/k:Nav \u{2022} Enter:Read ");
                out.append(Icons::CHAPTER);
                out.append(" \u{2022} ?:Help ");
                out.append(Icons::HELP);
            }
        },
        AppState::DownloadInput => {
            out.append("Tab:Switch \u{2022} Enter:Download ");
            out.append(Icons::DOWNLOAD);
            out.append(" \u{2022} Esc:Cancel");
        },
        AppState::Downloading => {
            out.append("j/k:Scroll \u{2022} Esc:Cancel \u{2022} r:Refresh ");
            out.append(Icons::REFRESH);
        },
        _ => {
            out.append("Navigation: j/k \u{2022} Actions: Enter \u{2022} Aide: ?");
        },
    }
    assert(out@ =~= footer_keys_spec(state, list_focused));
    out
}

/// The status line of the footer.
pub fn footer_status_text(status: &str) -> (r: String)
    ensures
        r@ == Icons::DOT@ + " "@ + status@,
{
    let mut out = String::new();
    out.append(Icons::DOT);
    out.append(" ");
    out.append(status);
    assert(out@ =~= Icons::DOT@ + " "@ + status@);
    out
}

/// The title of the manga library.
pub fn library_title(count: usize) -> (r: String)
    ensures
        r@ == " "@ + Icons::MANGA@ + " Biblioth\u{e8}que ("@ + decimal(count as nat) + ") "@,
{
    let mut out = String::new();
    out.append(" ");
    out.append(Icons::MANGA);
    out.append(" Biblioth\u{e8}que (");
    push_decimal(&mut out, count as u64);
    out.append(") ");
    assert(out@ =~= " "@ + Icons::MANGA@ + " Biblioth\u{e8}que ("@ + decimal(count as nat)
        + ") "@);
    out
}

/// The chapter count under a manga of the library.
pub fn chapter_count_text(count: usize) -> (r: String)
    ensures
        r@ == Icons::CHAPTER@ + " "@ + decimal(count as nat) + " chapters"@,
{
    let mut out = String::new();
    out.append(Icons::CHAPTER);
    out.append(" ");
    push_decimal(&mut out, count as u64);
    out.append(" chapters");
    assert(out@ =~= Icons::CHAPTER@ + " "@ + decimal(count as nat) + " chapters"@);
    out
}

/// The title of the chapter list of a manga.
pub fn chapter_list_title(manga_name: &str, count: usize) -> (r: String)
    ensures
        r@ == " "@ + Icons::CHAPTER@ + " "@ + spaced_name(manga_name@) + " ("@ + decimal(
            count as nat,
        ) + " ch.) "@,
{
    let mut out = String::new();
    out.append(" ");
    out.append(Icons::CHAPTER);
    out.append(" ");
    push_spaced_name(&mut out, manga_name);
    out.append(" (");
    push_decimal(&mut out, count as u64);
    out.append(" ch.) ");
    assert(out@ =~= " "@ + Icons::CHAPTER@ + " "@ + spaced_name(manga_name@) + " ("@ + decimal(
        count as nat,
    ) + " ch.) "@);
    out
}

/// The heading line of a chapter: its number, then its title.
pub fn chapter_heading(number: &str, title: &str) -> (r: String)
    ensures
        r@ == number@ + " - "@ + title@,
{
    let mut out = String::new();
    out.append(number);
    out.append(" - ");
    out.append(title);
    assert(out@ =~= number@ + " - "@ + title@);
    out
}

/// The entry to highlight in a list of `len` entries: the selection, when
/// it designates an entry.
pub fn visible_selection(selected: Option<usize>, len: usize) -> (r: Option<usize>)
    ensures
        r == match selected {
            Some(i) => if i < len {
                Some(i)
            } else {
                None
            },
            None => None,
        },
{
    match selected {
        Some(i) => if i < len {
            Some(i)
        } else {
            None
        },
        None => None,
    }
}

/// What fills the cover frame. A terminal that can only draw half blocks
/// gets a plain card; otherwise the image when rendering is on and one is
/// loaded, a notice while it loads or when there is none, and a notice when
/// rendering is off.
pub open spec fn cover_content_spec(
    halfblocks_only: bool,
    render_image: bool,
    rendering_enabled: bool,
    image_ready: bool,
    image_pending: bool,
) -> CoverContent {
    if halfblocks_only {
        CoverContent::Fallback
    } else if render_image && rendering_enabled {
        if image_ready {
            CoverContent::Image
        } else if image_pending {
            CoverContent::Loading
        } else {
            CoverContent::NoImage
        }
    } else {
        CoverContent::Disabled
    }
}

/// What fills the cover frame.
pub fn cover_content(
    halfblocks_only: bool,
    render_image: bool,
    rendering_enabled: bool,
    image_ready: bool,
    image_pending: bool,
) -> (r: CoverContent)
    ensures
        r == cover_content_spec(
            halfblocks_only,
            render_image,
            rendering_enabled,
            image_ready,
            image_pending,
        ),
        halfblocks_only ==> r == CoverContent::Fallback,
        !halfblocks_only && !(render_image && rendering_enabled) ==> r == CoverContent::Disabled,
        !halfblocks_only && render_image && rendering_enabled ==> r == (if image_ready {
            CoverContent::Image
        } else if image_pending {
            CoverContent::Loading
        } else {
            CoverContent::NoImage
        }),
{
    if halfblocks_only {
        CoverContent::Fallback
    } else if render_image && rendering_enabled {
        if image_ready {
            CoverContent::Image
        } else if image_pending {
            CoverContent::Loading
        } else {
            CoverContent::NoImage
        }
    } else {
        CoverContent::Disabled
    }
}

/// A terminal that can only draw half blocks always gets the plain card,
/// whatever the settings and the image; the card shows nowhere else. When
/// half blocks are not the limit, the notice that rendering is off shows
/// exactly when the image is not asked for or rendering is turned off, and
/// an image is drawn only when both are on and it is loaded.
pub proof fn law_cover_content(
    halfblocks_only: bool,
    render_image: bool,
    rendering_enabled: bool,
    image_ready: bool,
    image_pending: bool,
)
    ensures
        halfblocks_only ==> cover_content_spec(
            halfblocks_only,
            render_image,
            rendering_enabled,
            image_ready,
            image_pending,
        ) == CoverContent::Fallback,
        cover_content_spec(halfblocks_only, render_image, rendering_enabled, image_ready, image_pending)
            == CoverContent::Fallback ==> halfblocks_only,
        !halfblocks_only ==> (cover_content_spec(
            halfblocks_only,
            render_image,
            rendering_enabled,
            image_ready,
            image_pending,
        ) == CoverContent::Disabled <==> !(render_image && rendering_enabled)),
        cover_content_spec(halfblocks_only, render_image, rendering_enabled, image_ready, image_pending)
            == CoverContent::Image <==> (!halfblocks_only && render_image && rendering_enabled
            && image_ready),
        cover_content_spec(halfblocks_only, render_image, rendering_enabled, image_ready, image_pending)
            == CoverContent::Loading <==> (!halfblocks_only && render_image && rendering_enabled
            && !image_ready && image_pending),
{
}

/// The notice shown in the cover frame in place of an image, if any.
pub fn cover_notice(content: CoverContent) -> (r: Option<String>)
    ensures
        match content {
            CoverContent::Loading => r is Some && r->0@ == Icons::REFRESH@ + " Chargement..."@,
            CoverContent::NoImage => r is Some && r->0@ == Icons::IMAGE@ + " Pas d'image"@,
            CoverContent::Disabled => r is Some && r->0@ == Icons::IMAGE@
                + " Rendu d\u{e9}sactiv\u{e9}"@,
            _ => r is None,
        },
{
    let mut out = String::new();
    match content {
        CoverContent::Loading => {
            out.append(Icons::REFRESH);
            out.append(" Chargement...");
            assert(out@ =~= Icons::REFRESH@ + " Chargement..."@);
            Some(out)
        },
        CoverContent::NoImage => {
            out.append(Icons::IMAGE);
            out.append(" Pas d'image");
            assert(out@ =~= Icons::IMAGE@ + " Pas d'image"@);
            Some(out)
        },
        CoverContent::Disabled => {
            out.append(Icons::IMAGE);
            out.append(" Rendu d\u{e9}sactiv\u{e9}");
            assert(out@ =~= Icons::IMAGE@ + " Rendu d\u{e9}sactiv\u{e9}"@);
            Some(out)
        },
        _ => None,
    }
}

/// The title on the card that stands for a cover.
pub fn fallback_title(manga_name: Option<&str>) -> (r: String)
    ensures
        r@ == match manga_name {
            Some(n) => spaced_name(n@),
            None => "Aucun manga s\u{e9}lectionn\u{e9}"@,
        },
{
    let mut out = String::new();
    match manga_name {
        Some(n) => push_spaced_name(&mut out, n),
        None => out.append("Aucun manga s\u{e9}lectionn\u{e9}"),
    }
    assert(out@ =~= match manga_name {
        Some(n) => spaced_name(n@),
        None => "Aucun manga s\u{e9}lectionn\u{e9}"@,
    });
    out
}

/// Whether the card that stands for a cover has room to explain why: only
/// from nine rows on, so that the title stays in the frame.
pub fn fallback_shows_hint(height: u16) -> (r: bool)
    ensures
        r == (height >= 9),
{
    height >= 9
}

/// The synopsis shown, or a notice that there is none.
pub fn synopsis_text(synopsis: Option<&str>) -> (r: String)
    ensures
        r@ == match synopsis {
            Some(s) => s@,
            None => "Aucun synopsis disponible."@,
        },
{
    match synopsis {
        Some(s) => s.to_owned(),
        None => "Aucun synopsis disponible.".to_owned(),
    }
}

/// The source link shown, or a notice that there is none.
pub fn source_link_text(source_url: Option<&str>) -> (r: String)
    ensures
        r@ == Icons::LINK@ + " "@ + match source_url {
            Some(s) => s@,
            None => "Aucune source disponible"@,
        },
{
    let mut out = String::new();
    out.append(Icons::LINK);
    out.append(" ");
    match source_url {
        Some(s) => out.append(s),
        None => out.append("Aucune source disponible"),
    }
    assert(out@ =~= Icons::LINK@ + " "@ + match source_url {
        Some(s) => s@,
        None => "Aucune source disponible"@,
    });
    out
}

/// Whether the details screen gives its side panel to the synopsis (when
/// there is a non-empty one) rather than to the quick actions.
pub fn details_shows_synopsis(synopsis: Option<&str>) -> (r: bool)
    ensures
        r == match synopsis {
            Some(s) => s@.len() > 0,
            None => false,
        },
{
    match synopsis {
        Some(s) => !s.is_empty(),
        None => false,
    }
}

/// The input line of the settings screen.
pub open spec fn settings_input_spec(
    input_mode: bool,
    field: InputField,
    filter: Seq<char>,
    manga_dir: Seq<char>,
) -> Seq<char> {
    if input_mode {
        if field == InputField::MangaDir {
            "Manga Directory: "@ + filter
        } else {
            "Enter path and press Enter to confirm"@
        }
    } else {
        "Current Directory: "@ + manga_dir
    }
}

/// The input line of the settings screen: the path being typed, or the
/// current directory.
pub fn settings_input_text(input_mode: bool, field: InputField, filter: &str, manga_dir: &str) -> (r:
    String)
    ensures
        r@ == settings_input_spec(input_mode, field, filter@, manga_dir@),
{
    let mut out = String::new();
    if input_mode {
        if field == InputField::MangaDir {
            out.append("Manga Directory: ");
            out.append(filter);
        } else {
            out.append("Enter path and press Enter to confirm");
        }
    } else {
        out.append("Current Directory: ");
        out.append(manga_dir);
    }
    assert(out@ =~= settings_input_spec(input_mode, field, filter@, manga_dir@));
    out
}

/// The status line of the download panel.
pub fn download_status_text(finished: bool) -> (r: String)
    ensures
        r@ == if finished {
            "\u{2705} T\u{e9}l\u{e9}chargement termin\u{e9}"@
        } else {
            "\u{1f4e5} T\u{e9}l\u{e9}chargement en cours..."@
        },
{
    if finished {
        "\u{2705} T\u{e9}l\u{e9}chargement termin\u{e9}".to_owned()
    } else {
        "\u{1f4e5} T\u{e9}l\u{e9}chargement en cours...".to_owned()
    }
}

/// The image count of the chapter being downloaded, or a wait notice while
/// the count is unknown.
pub fn images_label(done: usize, total: usize) -> (r: String)
    ensures
        r@ == if total > 0 {
            " "@ + decimal(done as nat) + "/"@ + decimal(total as nat) + " images"@
        } else {
            " en attente\u{2026}"@
        },
{
    let mut out = String::new();
    if total > 0 {
        out.append(" ");
        push_decimal(&mut out, done as u64);
        out.append("/");
        push_decimal(&mut out, total as u64);
        out.append(" images");
    } else {
        out.append(" en attente\u{2026}");
    }
    assert(out@ =~= if total > 0 {
        " "@ + decimal(done as nat) + "/"@ + decimal(total as nat) + " images"@
    } else {
        " en attente\u{2026}"@
    });
    out
}

/// The chapter being downloaded, or a notice that the download is being prepared.
pub fn chapter_label(current_chapter: usize) -> (r: String)
    ensures
        r@ == if current_chapter > 0 {
            "Chapitre "@ + decimal(current_chapter as nat)
        } else {
            "Pr\u{e9}paration"@
        },
{
    let mut out = String::new();
    if current_chapter > 0 {
        out.append("Chapitre ");
        push_decimal(&mut out, current_chapter as u64);
    } else {
        out.append("Pr\u{e9}paration");
    }
    assert(out@ =~= if current_chapter > 0 {
        "Chapitre "@ + decimal(current_chapter as nat)
    } else {
        "Pr\u{e9}paration"@
    });
    out
}

/// The position of the chapter being downloaded among those asked for.
pub fn position_label(current_index: usize, total_chapters: usize) -> (r: String)
    ensures
        r@ == decimal(current_index as nat) + "/"@ + decimal(total_chapters as nat),
{
    let mut out = String::new();
    if current_index > 0 {
        push_decimal(&mut out, current_index as u64);
        out.append("/");
        push_decimal(&mut out, total_chapters as u64);
    } else {
        out.append("0/");
        push_decimal(&mut out, total_chapters as u64);
        proof {
            reveal_strlit("0/");
            assert(decimal(0) == seq!['0']);
        }
    }
    assert(out@ =~= decimal(current_index as nat) + "/"@ + decimal(total_chapters as nat)) by {
        reveal_strlit("0/");
        reveal_strlit("/");
    }
    out
}

/// The count of chapters downloaded.
pub fn completed_label(completed: usize) -> (r: String)
    ensures
        r@ == " \u{2705} "@ + decimal(completed as nat),
{
    let mut out = String::new();
    out.append(" \u{2705} ");
    push_decimal(&mut out, completed as u64);
    assert(out@ =~= " \u{2705} "@ + decimal(completed as nat));
    out
}

/// The count of chapters that failed, shown only when some did.
pub fn failed_label(failed: usize) -> (r: Option<String>)
    ensures
        failed == 0 ==> r is None,
        failed > 0 ==> r is Some && r->0@ == "  \u{274c} "@ + decimal(failed as nat),
{
    if failed > 0 {
        let mut out = String::new();
        out.append("  \u{274c} ");
        push_decimal(&mut out, failed as u64);
        assert(out@ =~= "  \u{274c} "@ + decimal(failed as nat));
        Some(out)
    } else {
        None
    }
}

/// The actions offered under the download panel.
pub fn download_actions_text(finished: bool) -> (r: &'static str)
    ensures
        r@ == if finished {
            "Enter: Retour \u{2022} r: Nouveau t\u{e9}l\u{e9}chargement \u{2022} q: Quitter"@
        } else {
            "j/k: D\u{e9}filer logs \u{2022} Esc: Annuler \u{2022} q: Quitter"@
        },
{
    if finished {
        "Enter: Retour \u{2022} r: Nouveau t\u{e9}l\u{e9}chargement \u{2022} q: Quitter"
    } else {
        "j/k: D\u{e9}filer logs \u{2022} Esc: Annuler \u{2022} q: Quitter"
    }
}

/// The nature of a download log line, by the first of these that it
/// contains: a failure mark or word, a warning sign, a success mark, an
/// inbox tray (fetching), a magnifier (searching); plain otherwise.
pub open spec fn log_tone_spec(line: Seq<char>) -> LogTone {
    if has_infix(line, "\u{274c}"@) || has_infix(line, "\u{e9}chec"@) || has_infix(line, "Error"@) {
        LogTone::Failure
    } else if has_infix(line, "\u{26a0}\u{fe0f}"@) {
        LogTone::Warning
    } else if has_infix(line, "\u{2705}"@) || has_infix(line, "\u{1f389}"@) {
        LogTone::Success
    } else if has_infix(line, "\u{1f4e5}"@) {
        LogTone::Fetching
    } else if has_infix(line, "\u{1f50d}"@) {
        LogTone::Searching
    } else {
        LogTone::Plain
    }
}

/// A line that holds a failure mark or word is a failure whatever else it
/// holds, a warning sign among them; only such a line is a failure. A line
/// with a warning sign and no failure mark is a warning, and a success mark
/// counts only on a line with neither.
pub proof fn law_failure_marks_win(line: Seq<char>)
    ensures
        has_infix(line, "\u{274c}"@) || has_infix(line, "\u{e9}chec"@) || has_infix(line, "Error"@)
            <==> log_tone_spec(line) == LogTone::Failure,
        !(has_infix(line, "\u{274c}"@) || has_infix(line, "\u{e9}chec"@) || has_infix(
            line,
            "Error"@,
        )) && has_infix(line, "\u{26a0}\u{fe0f}"@) ==> log_tone_spec(line) == LogTone::Warning,
        log_tone_spec(line) == LogTone::Warning ==> has_infix(line, "\u{26a0}\u{fe0f}"@),
        log_tone_spec(line) == LogTone::Success ==> (has_infix(line, "\u{2705}"@) || has_infix(
            line,
            "\u{1f389}"@,
        )) && !has_infix(line, "\u{26a0}\u{fe0f}"@),
{
}

/// The nature of a download log line.
pub fn log_tone(line: &str) -> (r: LogTone)
    ensures
        r == log_tone_spec(line@),
        r == LogTone::Failure <==> (has_infix(line@, "\u{274c}"@) || has_infix(
            line@,
            "\u{e9}chec"@,
        ) || has_infix(line@, "Error"@)),
        r == LogTone::Warning <==> (!(has_infix(line@, "\u{274c}"@) || has_infix(
            line@,
            "\u{e9}chec"@,
        ) || has_infix(line@, "Error"@)) && has_infix(line@, "\u{26a0}\u{fe0f}"@)),
{
    let hay = chars_of(line);
    if contains_infix(&hay, &chars_of("\u{274c}")) || contains_infix(&hay, &chars_of("\u{e9}chec"))
        || contains_infix(&hay, &chars_of("Error")) {
        LogTone::Failure
    } else if contains_infix(&hay, &chars_of("\u{26a0}\u{fe0f}")) {
        LogTone::Warning
    } else if contains_infix(&hay, &chars_of("\u{2705}")) || contains_infix(
        &hay,
        &chars_of("\u{1f389}"),
    ) {
        LogTone::Success
    } else if contains_infix(&hay, &chars_of("\u{1f4e5}")) {
        LogTone::Fetching
    } else if contains_infix(&hay, &chars_of("\u{1f50d}")) {
        LogTone::Searching
    } else {
        LogTone::Plain
    }
}


/// What the body of the screen shows.
#[derive(Clone, Copy, Debug, PartialEq, Eq, Structural)]
pub enum ScreenBody {
    /// The library, the chapters and the side panels.
    Browse,
    /// The details of a manga.
    Details,
    /// The settings.
    Settings,
}

/// What the lower side panel of the library screen shows.
#[derive(Clone, Copy, Debug, PartialEq, Eq, Structural)]
pub enum SidePanel {
    /// The download form.
    DownloadInput,
    /// The progress of a download.
    Downloading,
    /// The quick actions and statistics.
    QuickActions,
}

/// What the body of the screen shows for `state`: the library (also while a
/// download is being asked for or runs), the details, or the settings.
pub fn screen_body(state: AppState) -> (r: ScreenBody)
    ensures
        r == match state {
            AppState::ViewMangaDetails => ScreenBody::Details,
            AppState::Settings => ScreenBody::Settings,
            _ => ScreenBody::Browse,
        },
{
    match state {
        AppState::BrowseManga | AppState::DownloadInput | AppState::Downloading => ScreenBody::Browse,
        AppState::ViewMangaDetails => ScreenBody::Details,
        AppState::Settings => ScreenBody::Settings,
    }
}

/// What the lower side panel of the library screen shows for `state`.
pub fn side_panel(state: AppState) -> (r: SidePanel)
    ensures
        r == match state {
            AppState::DownloadInput => SidePanel::DownloadInput,
            AppState::Downloading => SidePanel::Downloading,
            _ => SidePanel::QuickActions,
        },
{
    match state {
        AppState::DownloadInput => SidePanel::DownloadInput,
        AppState::Downloading => SidePanel::Downloading,
        _ => SidePanel::QuickActions,
    }
}

} // verus!
