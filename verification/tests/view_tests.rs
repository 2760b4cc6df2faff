use manga_reader::layout::{
    browse_areas, centered_rect, details_areas, manga_info_areas, downloading_areas, footer_areas, form_areas, header_areas, screen_areas, Area,
};
use manga_reader::palette::{
    subtle_progress_bar, BarFill, Color, ModernColors, ProgressPhase, ProgressStyle, Theme,
};
use manga_reader::text::{display_name, has_leading_icon};
use manga_reader::view::{
    chapters_box_title, chapters_read_text, field_look, no_manga_notice, total_size,
};
use manga_reader::view::{
    chapter_count_text, chapter_heading, chapter_label, chapter_list_title, chapter_progress_text,
    chapter_status, completed_label, cover_content, cover_notice, details_shows_synopsis,
    download_actions_text, download_status_text, failed_label, fallback_shows_hint,
    fallback_title, footer_keys_text, footer_status_text, header_center_text, header_logo_text,
    header_stats_text, images_label, library_title, log_tone, position_label, screen_body,
    settings_input_text, side_panel, source_link_text, status_icon, synopsis_text,
    visible_selection, AppState, ChapterStatus, CoverContent, Icons, InputField, LogTone,
    ScreenBody, SidePanel,
};

fn theme() -> Theme {
    let mut colors = [Color::Reset; 16];
    for (i, c) in colors.iter_mut().enumerate() {
        *c = Color::Indexed(i as u8);
    }
    Theme { colors, background: Color::Black, foreground: Color::White }
}

fn fill(floor: usize, ceil: usize, phase: ProgressPhase) -> BarFill {
    BarFill { floor, ceil, phase }
}

#[test]
fn theme_entries_become_interface_colors() {
    let colors = ModernColors::get_colors(&theme());
    assert!(colors.primary == Color::Indexed(4));
    assert!(colors.accent == Color::Indexed(2));
    assert!(colors.error == Color::Indexed(1));
    assert!(colors.background == Color::Black);
    assert!(colors.border == Color::Indexed(8));
    assert!(colors.border_focus == Color::Indexed(12));
    assert!(colors.text_primary == Color::White);
    assert!(colors.text_secondary == Color::Indexed(7));
    assert!(colors.text_muted == Color::Indexed(15));
    assert!(colors.success == Color::Indexed(10));
}

#[test]
fn fallback_palette_values() {
    assert!(ModernColors::primary() == Color::Rgb(129, 140, 248));
    assert!(ModernColors::secondary() == Color::Rgb(139, 92, 246));
    assert!(ModernColors::warning() == Color::Rgb(251, 191, 36));
    assert!(ModernColors::surface() == Color::Rgb(30, 41, 59));
    assert!(ModernColors::text_muted() == Color::Rgb(100, 116, 139));
}

#[test]
fn progress_colors_follow_the_phase() {
    let colors = ModernColors::get_colors(&theme());
    assert!(colors.progress_color(ProgressPhase::Complete) == Color::Indexed(10));
    assert!(colors.progress_color(ProgressPhase::InProgress) == Color::Indexed(4));
    assert!(colors.progress_color(ProgressPhase::NotStarted) == Color::Indexed(15));
}

#[test]
fn dots_and_blocks_fill_the_width_rounded_down() {
    let bar = subtle_progress_bar(ProgressStyle::Dots, fill(3, 4, ProgressPhase::InProgress), 8);
    assert_eq!(bar, "●●●○○○○○");
    let bar = subtle_progress_bar(ProgressStyle::Blocks, fill(0, 0, ProgressPhase::NotStarted), 4);
    assert_eq!(bar, "░░░░");
    let bar = subtle_progress_bar(ProgressStyle::Blocks, fill(40, 40, ProgressPhase::Complete), 5);
    assert_eq!(bar, "█████");
}

#[test]
fn minimal_bars_round_up_and_follow_the_phase() {
    let bar = subtle_progress_bar(ProgressStyle::Minimal, fill(1, 2, ProgressPhase::InProgress), 15);
    assert_eq!(bar, "▰▰▱▱▱▱▱▱▱▱▱▱▱▱▱");
    let bar = subtle_progress_bar(ProgressStyle::Minimal, fill(15, 15, ProgressPhase::Complete), 15);
    assert_eq!(bar, "▰".repeat(15));
    let bar = subtle_progress_bar(ProgressStyle::Minimal, fill(0, 0, ProgressPhase::NotStarted), 3);
    assert_eq!(bar, "▱▱▱");
}

#[test]
fn every_bar_is_as_wide_as_asked() {
    for width in 0..20usize {
        for filled in 0..25usize {
            for style in [ProgressStyle::Dots, ProgressStyle::Blocks, ProgressStyle::Minimal] {
                let bar = subtle_progress_bar(
                    style,
                    fill(filled, filled + 1, ProgressPhase::InProgress),
                    width,
                );
                assert_eq!(bar.chars().count(), width);
            }
        }
    }
}

#[test]
fn names_show_spaces_for_underscores() {
    assert_eq!(display_name("One_Piece"), "One Piece");
    assert_eq!(display_name("__"), "  ");
    assert_eq!(display_name("Berserk"), "Berserk");
}

#[test]
fn status_icons_follow_the_phase() {
    assert_eq!(status_icon(ProgressPhase::Complete), Icons::READ);
    assert_eq!(status_icon(ProgressPhase::InProgress), "⏯");
    assert_eq!(status_icon(ProgressPhase::NotStarted), "➤");
}

#[test]
fn chapter_statuses() {
    assert!(chapter_status(true, None, None) == ChapterStatus::Read);
    assert!(chapter_status(false, Some(3), Some(10)) == ChapterStatus::InProgress);
    assert!(chapter_status(false, Some(10), Some(10)) == ChapterStatus::Unread);
    assert!(chapter_status(false, Some(0), Some(10)) == ChapterStatus::Unread);
    assert!(chapter_status(false, Some(3), None) == ChapterStatus::Unread);
    let colors = ModernColors::get_colors(&theme());
    let (icon, color) = colors.chapter_status_style(ChapterStatus::InProgress);
    assert_eq!(icon, "⏯");
    assert!(color == Color::Indexed(4));
    let (icon, color) = colors.chapter_status_style(ChapterStatus::Unread);
    assert_eq!(icon, "➤");
    assert!(color == Color::Indexed(15));
}

#[test]
fn chapter_progress_texts() {
    assert_eq!(chapter_progress_text(Some(3), Some(12), "●●○"), " ●●○ 3/12");
    assert_eq!(chapter_progress_text(Some(7), None, "x"), " [Page 7]");
    assert_eq!(chapter_progress_text(None, Some(7), "x"), "");
}

#[test]
fn header_texts() {
    assert_eq!(header_center_text(AppState::BrowseManga, Some("One_Piece")), "⟢ One Piece");
    assert_eq!(header_center_text(AppState::BrowseManga, None), "📁 Sélectionnez un manga");
    assert_eq!(header_center_text(AppState::DownloadInput, None), "⬇️ Téléchargement");
    assert_eq!(
        header_center_text(AppState::Downloading, Some("x")),
        "⬇️ Téléchargement en cours..."
    );
    assert_eq!(header_center_text(AppState::Settings, Some("x")), "Manga Reader");
    assert_eq!(header_logo_text(), "📖 Manga Reader");
    assert_eq!(header_stats_text(12, true), "Mangas: 12 • Focus: List");
    assert_eq!(header_stats_text(0, false), "Mangas: 0 • Focus: Chapters");
}

#[test]
fn footer_texts() {
    assert_eq!(
        footer_keys_text(AppState::BrowseManga, true),
        "Enter:Focus  • j/k:Nav • r:Refresh ↺ • d:Download ⬇️ • ?:Help ❓"
    );
    assert_eq!(
        footer_keys_text(AppState::BrowseManga, false),
        "Tab:Focus 📖 • j/k:Nav • Enter:Read  • ?:Help ❓"
    );
    assert_eq!(
        footer_keys_text(AppState::DownloadInput, true),
        "Tab:Switch • Enter:Download ⬇️ • Esc:Cancel"
    );
    assert_eq!(footer_keys_text(AppState::Downloading, false), "j/k:Scroll • Esc:Cancel • r:Refresh ↺");
    assert_eq!(
        footer_keys_text(AppState::ViewMangaDetails, true),
        "Navigation: j/k • Actions: Enter • Aide: ?"
    );
    assert_eq!(footer_status_text("Prêt"), "• Prêt");
}

#[test]
fn list_titles_and_counts() {
    assert_eq!(library_title(42), " 📖 Bibliothèque (42) ");
    assert_eq!(chapter_count_text(5), " 5 chapters");
    assert_eq!(chapter_list_title("Dr_Stone", 232), "  Dr Stone (232 ch.) ");
    assert_eq!(chapter_heading("Ch. 12", "Retour"), "Ch. 12 - Retour");
}

#[test]
fn selection_is_shown_only_inside_the_list() {
    assert_eq!(visible_selection(Some(2), 3), Some(2));
    assert_eq!(visible_selection(Some(3), 3), None);
    assert_eq!(visible_selection(None, 3), None);
}

#[test]
fn cover_frame_contents() {
    assert!(cover_content(true, true, true, true, false) == CoverContent::Fallback);
    assert!(cover_content(false, true, true, true, false) == CoverContent::Image);
    assert!(cover_content(false, true, true, false, true) == CoverContent::Loading);
    assert!(cover_content(false, true, true, false, false) == CoverContent::NoImage);
    assert!(cover_content(false, false, true, true, false) == CoverContent::Disabled);
    assert!(cover_content(false, true, false, true, false) == CoverContent::Disabled);
    assert_eq!(cover_notice(CoverContent::Loading).as_deref(), Some("↺ Chargement..."));
    assert_eq!(cover_notice(CoverContent::NoImage).as_deref(), Some("🖼️ Pas d'image"));
    assert_eq!(cover_notice(CoverContent::Disabled).as_deref(), Some("🖼️ Rendu désactivé"));
    assert_eq!(cover_notice(CoverContent::Image), None);
    assert_eq!(fallback_title(Some("Vinland_Saga")), "Vinland Saga");
    assert_eq!(fallback_title(None), "Aucun manga sélectionné");
    assert!(fallback_shows_hint(9));
    assert!(!fallback_shows_hint(8));
}

#[test]
fn synopsis_and_source() {
    assert_eq!(synopsis_text(Some("Un pirate.")), "Un pirate.");
    assert_eq!(synopsis_text(None), "Aucun synopsis disponible.");
    assert_eq!(source_link_text(Some("https://x")), "🔗 https://x");
    assert_eq!(source_link_text(None), "🔗 Aucune source disponible");
    assert!(details_shows_synopsis(Some("a")));
    assert!(!details_shows_synopsis(Some("")));
    assert!(!details_shows_synopsis(None));
}

#[test]
fn settings_input_line() {
    assert_eq!(
        settings_input_text(true, InputField::MangaDir, "/home/x", "/d"),
        "Manga Directory: /home/x"
    );
    assert_eq!(
        settings_input_text(true, InputField::Url, "/home/x", "/d"),
        "Enter path and press Enter to confirm"
    );
    assert_eq!(settings_input_text(false, InputField::MangaDir, "f", "/d"), "Current Directory: /d");
}

#[test]
fn download_panel_labels() {
    assert_eq!(download_status_text(true), "✅ Téléchargement terminé");
    assert_eq!(download_status_text(false), "📥 Téléchargement en cours...");
    assert_eq!(images_label(3, 20), " 3/20 images");
    assert_eq!(images_label(0, 0), " en attente…");
    assert_eq!(chapter_label(12), "Chapitre 12");
    assert_eq!(chapter_label(0), "Préparation");
    assert_eq!(position_label(0, 7), "0/7");
    assert_eq!(position_label(3, 7), "3/7");
    assert_eq!(completed_label(1234567890), " ✅ 1234567890");
    assert_eq!(failed_label(0), None);
    assert_eq!(failed_label(2).as_deref(), Some("  ❌ 2"));
    assert_eq!(download_actions_text(true), "Enter: Retour • r: Nouveau téléchargement • q: Quitter");
    assert_eq!(download_actions_text(false), "j/k: Défiler logs • Esc: Annuler • q: Quitter");
}

#[test]
fn log_lines_are_toned_by_their_first_matching_mark() {
    assert!(log_tone("❌ Chapitre 3") == LogTone::Failure);
    assert!(log_tone("téléchargement: échec") == LogTone::Failure);
    assert!(log_tone("Error: timeout ✅") == LogTone::Failure);
    assert!(log_tone("⚠️ lent") == LogTone::Warning);
    assert!(log_tone("⚠ sans sélecteur") == LogTone::Plain);
    assert!(log_tone("✅ fini") == LogTone::Success);
    assert!(log_tone("🎉 tout est là") == LogTone::Success);
    assert!(log_tone("📥 page 3") == LogTone::Fetching);
    assert!(log_tone("🔍 recherche") == LogTone::Searching);
    assert!(log_tone("error lowercase") == LogTone::Plain);
    assert!(log_tone("") == LogTone::Plain);
    let colors = ModernColors::get_colors(&theme());
    assert!(colors.log_color(LogTone::Failure) == Color::Indexed(1));
    assert!(colors.log_color(LogTone::Warning) == Color::Indexed(2));
    assert!(colors.log_color(LogTone::Fetching) == Color::Indexed(4));
    assert!(colors.log_color(LogTone::Plain) == Color::Indexed(7));
}

#[test]
fn leading_icons_are_detected_after_white_space() {
    assert!(has_leading_icon("  ✅ ok"));
    assert!(has_leading_icon("\u{3000}📥 x"));
    assert!(!has_leading_icon("  plain"));
    assert!(!has_leading_icon("   "));
    assert!(!has_leading_icon(""));
}

#[test]
fn screen_dispatch() {
    assert!(screen_body(AppState::BrowseManga) == ScreenBody::Browse);
    assert!(screen_body(AppState::Downloading) == ScreenBody::Browse);
    assert!(screen_body(AppState::ViewMangaDetails) == ScreenBody::Details);
    assert!(screen_body(AppState::Settings) == ScreenBody::Settings);
    assert!(side_panel(AppState::DownloadInput) == SidePanel::DownloadInput);
    assert!(side_panel(AppState::Downloading) == SidePanel::Downloading);
    assert!(side_panel(AppState::BrowseManga) == SidePanel::QuickActions);
}

#[test]
fn popups_are_centred() {
    let area = Area { x: 0, y: 0, width: 100, height: 50 };
    let popup = centered_rect(70, 80, area);
    assert!(popup == Area { x: 15, y: 5, width: 70, height: 40 });
    let area = Area { x: 10, y: 4, width: 200, height: 100 };
    let popup = centered_rect(50, 50, area);
    assert!(popup == Area { x: 60, y: 29, width: 100, height: 50 });
}

#[test]
fn fuller_bars_never_have_fewer_filled_cells() {
    let count = |s: &str, c: char| s.chars().filter(|&x| x == c).count();
    let mut previous = 0;
    for filled in 0..12usize {
        let bar = subtle_progress_bar(ProgressStyle::Dots, fill(filled, filled, ProgressPhase::InProgress), 8);
        let now = count(&bar, '●');
        assert!(now >= previous);
        previous = now;
    }
    assert_eq!(previous, 8);
}

#[test]
fn shown_names_keep_their_length_and_are_stable() {
    let shown = display_name("a_b__c_");
    assert_eq!(shown.chars().count(), 7);
    assert!(!shown.contains('_'));
    assert_eq!(display_name(&shown), shown);
}

#[test]
fn white_space_before_a_line_is_ignored() {
    assert_eq!(has_leading_icon("\t🔍 x"), has_leading_icon("🔍 x"));
    assert_eq!(has_leading_icon(" \u{a0}abc"), has_leading_icon("abc"));
}

fn area(x: u16, y: u16, width: u16, height: u16) -> Area {
    Area { x, y, width, height }
}

#[test]
fn screen_and_panel_bands() {
    let (header, body, footer) = screen_areas(area(0, 0, 80, 24));
    assert!(header == area(0, 0, 80, 3));
    assert!(body == area(0, 3, 80, 18));
    assert!(footer == area(0, 21, 80, 3));
    let (logo, middle, stats) = header_areas(area(0, 0, 100, 3));
    assert!(logo == area(0, 0, 30, 3));
    assert!(middle == area(30, 0, 45, 3));
    assert!(stats == area(75, 0, 25, 3));
    let (status, keys) = footer_areas(area(0, 21, 100, 3));
    assert!(status == area(0, 21, 40, 3));
    assert!(keys == area(40, 21, 60, 3));
    let (first, second, rest) = form_areas(area(2, 2, 30, 20));
    assert!(first == area(2, 2, 30, 3));
    assert!(second == area(2, 5, 30, 3));
    assert!(rest == area(2, 8, 30, 14));
    let (a, b, c, d) = downloading_areas(area(0, 0, 40, 20));
    assert!(a == area(0, 0, 40, 4));
    assert!(b == area(0, 4, 40, 5));
    assert!(c == area(0, 9, 40, 8));
    assert!(d == area(0, 17, 40, 3));
}

fn float_fill(progress: f32, width: usize) -> BarFill {
    let exact = progress * width as f32;
    let phase = if progress >= 1.0 {
        ProgressPhase::Complete
    } else if progress > 0.0 {
        ProgressPhase::InProgress
    } else {
        ProgressPhase::NotStarted
    };
    BarFill { floor: exact as usize, ceil: exact.ceil() as usize, phase }
}

#[test]
fn styles_agree_and_colour_follows_the_minimal_bar() {
    let colors = ModernColors::get_colors(&theme());
    let count = |s: &str, c: char| s.chars().filter(|&x| x == c).count();
    for progress in [-1.0f32, 0.0, 0.01, 0.3, 0.5, 0.99, 1.0, 2.0, f32::NAN] {
        for width in [1usize, 8, 15, 28] {
            let fill = float_fill(progress, width);
            let dots = count(&subtle_progress_bar(ProgressStyle::Dots, fill, width), '●');
            let blocks = count(&subtle_progress_bar(ProgressStyle::Blocks, fill, width), '█');
            let minimal_bar = subtle_progress_bar(ProgressStyle::Minimal, fill, width);
            let minimal = count(&minimal_bar, '▰');
            assert_eq!(dots, blocks);
            assert!(dots <= minimal && minimal <= dots + 1);
            let muted = colors.progress_color(fill.phase) == colors.text_muted;
            assert_eq!(fill.phase == ProgressPhase::NotStarted, minimal == 0);
            assert!(muted == (minimal == 0));
            if fill.phase == ProgressPhase::Complete {
                assert_eq!(minimal_bar, "▰".repeat(width));
            }
        }
    }
}

#[test]
fn popups_lie_within_their_area() {
    for (w, h) in [(0u16, 0u16), (1, 1), (7, 3), (80, 24), (300, 120)] {
        let outer = Area { x: 5, y: 7, width: w, height: h };
        let popup = centered_rect(70, 80, outer);
        assert!(outer.x <= popup.x && popup.x + popup.width <= outer.x + outer.width);
        assert!(outer.y <= popup.y && popup.y + popup.height <= outer.y + outer.height);
    }
}

#[test]
fn small_choices_of_the_panels() {
    let colors = ModernColors::get_colors(&theme());
    assert!(colors.list_border(true) == Color::Indexed(12));
    assert!(colors.list_border(false) == Color::Indexed(8));
    let look = field_look(true);
    assert!(look.bold && look.text == Color::Rgb(248, 250, 252) && look.border == Color::Rgb(129, 140, 248));
    let look = field_look(false);
    assert!(!look.bold && look.text == Color::Rgb(148, 163, 184) && look.border == Color::Rgb(71, 85, 105));
    assert_eq!(no_manga_notice(), "📁 Aucun manga sélectionné");
    assert_eq!(chapters_box_title(), "  Chapitres ");
    assert_eq!(chapters_read_text(3, 12), "✓ Chapitres lus: 3/12");
}

#[test]
fn chapter_sizes_add_up_unless_they_overflow() {
    assert_eq!(total_size(&vec![]), Some(0));
    assert_eq!(total_size(&vec![1, 2, 3_000_000_000]), Some(3_000_000_003));
    assert_eq!(total_size(&vec![u64::MAX, 1]), None);
    assert_eq!(total_size(&vec![u64::MAX, 0]), Some(u64::MAX));
}

#[test]
fn percentage_panels_are_cut_at_their_rounded_shares() {
    let (list, chapters, info, lower) = browse_areas(area(0, 0, 102, 52));
    assert!(list == area(1, 1, 28, 50));
    assert!(chapters == area(29, 1, 32, 50));
    assert!(info == area(61, 1, 40, 33));
    assert!(lower == area(61, 34, 40, 17));
    let (cover, synopsis, source) = manga_info_areas(area(0, 0, 100, 20));
    assert!(cover == area(0, 0, 35, 20));
    assert!(synopsis == area(35, 0, 65, 15));
    assert!(source == area(35, 15, 65, 5));
    let (info, chapters, cover, side) = details_areas(area(0, 0, 100, 30));
    assert!(info == area(0, 0, 70, 6));
    assert!(chapters == area(0, 6, 70, 24));
    assert!(cover == area(70, 0, 30, 18));
    assert!(side == area(70, 18, 30, 12));
}
