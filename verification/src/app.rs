//! The orchestration loop's state: one value that every message from a
//! background task and every keystroke acts on. The loop itself (terminal,
//! timers, task spawning) lives at the edge; the transitions live here.
use vstd::prelude::*;

verus! {

use vstd::multiset::Multiset;

broadcast use {vstd::seq_lib::group_to_multiset_ensures, vstd::multiset::group_multiset_axioms};

use crate::doctor::CheckResult;
use crate::episodes::{sort_episodes, sorted_by_episode};
use crate::media::{TorrentInfo, VideoFile};
use crate::progress::DownloadProgress;
use crate::text::{
    append_chars, chars_vec, dec_str, lemma_lex_refl, lemma_lex_total, lex_le, lex_le_chars,
    lower, lower_vec, string_from_chars, u64_to_chars,
};
use crate::tmdb::{Episode, SeasonSummary, TmdbMetadata, TmdbSuggestion, TvDetails};
use crate::torznab::{opt_view, torrent_url_of, TorrentResult};
use crate::validation::{build_validation, criteria_keywords, TorrentValidation};

/// Which page is on screen.
#[derive(PartialEq, Eq)]
pub enum Screen {
    /// First-run setup wizard.
    Wizard,
    /// Browse rows of suggested content.
    Discovery,
    Search,
    Results,
    /// Browse seasons of a TV show.
    TvSeasons,
    /// Browse episodes of a selected season.
    TvEpisodes,
    FileSelection,
    Streaming,
    Doctor,
    Settings,
}

#[derive(PartialEq, Eq, Clone, Copy)]
pub enum WizardStep {
    Welcome,
    Prowlarr,
    Tmdb,
    Player,
    Done,
}

impl WizardStep {
    pub fn next(self) -> (r: WizardStep)
        ensures
            r == match self {
                WizardStep::Welcome => WizardStep::Prowlarr,
                WizardStep::Prowlarr => WizardStep::Tmdb,
                WizardStep::Tmdb => WizardStep::Player,
                WizardStep::Player => WizardStep::Done,
                WizardStep::Done => WizardStep::Done,
            },
    {
        match self {
            WizardStep::Welcome => WizardStep::Prowlarr,
            WizardStep::Prowlarr => WizardStep::Tmdb,
            WizardStep::Tmdb => WizardStep::Player,
            WizardStep::Player => WizardStep::Done,
            WizardStep::Done => WizardStep::Done,
        }
    }

    pub fn prev(self) -> (r: WizardStep)
        ensures
            r == match self {
                WizardStep::Welcome => WizardStep::Welcome,
                WizardStep::Prowlarr => WizardStep::Welcome,
                WizardStep::Tmdb => WizardStep::Prowlarr,
                WizardStep::Player => WizardStep::Tmdb,
                WizardStep::Done => WizardStep::Player,
            },
    {
        match self {
            WizardStep::Welcome => WizardStep::Welcome,
            WizardStep::Prowlarr => WizardStep::Welcome,
            WizardStep::Tmdb => WizardStep::Prowlarr,
            WizardStep::Player => WizardStep::Tmdb,
            WizardStep::Done => WizardStep::Player,
        }
    }

    /// This step's position in the wizard.
    pub fn index(self) -> (r: usize)
        ensures
            r == match self {
                WizardStep::Welcome => 0int,
                WizardStep::Prowlarr => 1int,
                WizardStep::Tmdb => 2int,
                WizardStep::Player => 3int,
                WizardStep::Done => 4int,
            },
            r < WizardStep::spec_total(),
    {
        match self {
            WizardStep::Welcome => 0,
            WizardStep::Prowlarr => 1,
            WizardStep::Tmdb => 2,
            WizardStep::Player => 3,
            WizardStep::Done => 4,
        }
    }

    /// How many steps the wizard has.
    pub open spec fn spec_total() -> int {
        5
    }

    pub fn total() -> (r: usize)
        ensures
            r == WizardStep::spec_total(),
    {
        5
    }
}

#[derive(PartialEq, Eq, Clone, Copy)]
pub enum SettingsSection {
    Prowlarr,
    Tmdb,
    Player,
    Streaming,
    Subtitles,
    Discord,
    Trakt,
}

impl SettingsSection {
    pub fn next(self) -> (r: SettingsSection)
        ensures
            r == match self {
                SettingsSection::Prowlarr => SettingsSection::Tmdb,
                SettingsSection::Tmdb => SettingsSection::Player,
                SettingsSection::Player => SettingsSection::Streaming,
                SettingsSection::Streaming => SettingsSection::Subtitles,
                SettingsSection::Subtitles => SettingsSection::Discord,
                SettingsSection::Discord => SettingsSection::Trakt,
                SettingsSection::Trakt => SettingsSection::Prowlarr,
            },
    {
        match self {
            SettingsSection::Prowlarr => SettingsSection::Tmdb,
            SettingsSection::Tmdb => SettingsSection::Player,
            SettingsSection::Player => SettingsSection::Streaming,
            SettingsSection::Streaming => SettingsSection::Subtitles,
            SettingsSection::Subtitles => SettingsSection::Discord,
            SettingsSection::Discord => SettingsSection::Trakt,
            SettingsSection::Trakt => SettingsSection::Prowlarr,
        }
    }

    pub fn prev(self) -> (r: SettingsSection)
        ensures
            r == match self {
                SettingsSection::Prowlarr => SettingsSection::Trakt,
                SettingsSection::Tmdb => SettingsSection::Prowlarr,
                SettingsSection::Player => SettingsSection::Tmdb,
                SettingsSection::Streaming => SettingsSection::Player,
                SettingsSection::Subtitles => SettingsSection::Streaming,
                SettingsSection::Discord => SettingsSection::Subtitles,
                SettingsSection::Trakt => SettingsSection::Discord,
            },
    {
        match self {
            SettingsSection::Prowlarr => SettingsSection::Trakt,
            SettingsSection::Tmdb => SettingsSection::Prowlarr,
            SettingsSection::Player => SettingsSection::Tmdb,
            SettingsSection::Streaming => SettingsSection::Player,
            SettingsSection::Subtitles => SettingsSection::Streaming,
            SettingsSection::Discord => SettingsSection::Subtitles,
            SettingsSection::Trakt => SettingsSection::Discord,
        }
    }

    pub fn label(&self) -> (r: &'static str)
        ensures
            r@ == match *self {
                SettingsSection::Prowlarr => "Prowlarr"@,
                SettingsSection::Tmdb => "TMDB"@,
                SettingsSection::Player => "Player"@,
                SettingsSection::Streaming => "Streaming"@,
                SettingsSection::Subtitles => "Subtitles"@,
                SettingsSection::Discord => "Discord"@,
                SettingsSection::Trakt => "Trakt"@,
            },
    {
        match self {
            SettingsSection::Prowlarr => "Prowlarr",
            SettingsSection::Tmdb => "TMDB",
            SettingsSection::Player => "Player",
            SettingsSection::Streaming => "Streaming",
            SettingsSection::Subtitles => "Subtitles",
            SettingsSection::Discord => "Discord",
            SettingsSection::Trakt => "Trakt",
        }
    }

    /// How many editable fields this section shows.
    pub fn field_count(&self) -> (r: usize)
        ensures
            r == match *self {
                SettingsSection::Prowlarr => 2int,
                SettingsSection::Tmdb => 1int,
                SettingsSection::Player => 2int,
                SettingsSection::Streaming => 1int,
                SettingsSection::Subtitles => 3int,
                SettingsSection::Discord => 2int,
                SettingsSection::Trakt => 3int,
            },
            r >= 1,
    {
        match self {
            SettingsSection::Prowlarr => 2,
            SettingsSection::Tmdb => 1,
            SettingsSection::Player => 2,
            SettingsSection::Streaming => 1,
            SettingsSection::Subtitles => 3,
            SettingsSection::Discord => 2,
            SettingsSection::Trakt => 3,
        }
    }
}

#[derive(PartialEq, Eq, Clone, Copy)]
pub enum SortOrder {
    SeedersDesc,
    SeedersAsc,
    SizeDesc,
    SizeAsc,
    NameAsc,
    NameDesc,
}

impl SortOrder {
    pub fn next(self) -> (r: SortOrder)
        ensures
            r == match self {
                SortOrder::SeedersDesc => SortOrder::SeedersAsc,
                SortOrder::SeedersAsc => SortOrder::SizeDesc,
                SortOrder::SizeDesc => SortOrder::SizeAsc,
                SortOrder::SizeAsc => SortOrder::NameAsc,
                SortOrder::NameAsc => SortOrder::NameDesc,
                SortOrder::NameDesc => SortOrder::SeedersDesc,
            },
    {
        match self {
            SortOrder::SeedersDesc => SortOrder::SeedersAsc,
            SortOrder::SeedersAsc => SortOrder::SizeDesc,
            SortOrder::SizeDesc => SortOrder::SizeAsc,
            SortOrder::SizeAsc => SortOrder::NameAsc,
            SortOrder::NameAsc => SortOrder::NameDesc,
            SortOrder::NameDesc => SortOrder::SeedersDesc,
        }
    }

    pub fn label(&self) -> (r: &'static str)
        ensures
            r@ == match *self {
                SortOrder::SeedersDesc => "Seeders ↓"@,
                SortOrder::SeedersAsc => "Seeders ↑"@,
                SortOrder::SizeDesc => "Size ↓"@,
                SortOrder::SizeAsc => "Size ↑"@,
                SortOrder::NameAsc => "Name A-Z"@,
                SortOrder::NameDesc => "Name Z-A"@,
            },
    {
        match self {
            SortOrder::SeedersDesc => "Seeders ↓",
            SortOrder::SeedersAsc => "Seeders ↑",
            SortOrder::SizeDesc => "Size ↓",
            SortOrder::SizeAsc => "Size ↑",
            SortOrder::NameAsc => "Name A-Z",
            SortOrder::NameDesc => "Name Z-A",
        }
    }
}

/// Where the streaming session stands, as shown to the user.
#[derive(PartialEq, Eq)]
pub enum StreamingState {
    Connecting,
    FetchingMetadata,
    Ready { stream_url: String },
    Playing,
    Error(String),
}

/// One row of the discovery page.
pub struct DiscoveryRow {
    pub title: String,
    pub items: Vec<DiscoveryItem>,
}

/// One suggested title on the discovery page.
pub struct DiscoveryItem {
    pub id: u64,
    pub title: String,
    pub year: Option<u16>,
    /// `"movie"` or `"tv"`.
    pub media_type: String,
    pub poster_url: Option<String>,
    pub overview: Option<String>,
    /// Average rating in tenths of a point.
    pub rating: Option<u64>,
}

/// The orchestration state one session acts on.
pub struct App {
    pub view: Screen,
    pub should_quit: bool,
    // search
    pub search_input: String,
    pub is_searching: bool,
    pub search_error: Option<String>,
    /// Monotonically increasing search identifier; results carrying an older
    /// one are stale and dropped.
    pub search_id: u64,
    // autocomplete
    pub suggestions: Vec<TmdbSuggestion>,
    pub selected_suggestion: usize,
    pub is_fetching_suggestions: bool,
    // results
    pub results: Vec<TorrentResult>,
    pub selected_index: usize,
    pub sort_order: SortOrder,
    pub tmdb_info: Option<TmdbMetadata>,
    // file selection within a resolved torrent
    pub available_files: Vec<VideoFile>,
    pub selected_file_index: usize,
    pub pending_torrent_id: Option<usize>,
    // episode continuity
    /// Index in `available_files` of the file now playing.
    pub current_episode_index: usize,
    /// The next file's first bytes were already requested.
    pub next_episode_ready: bool,
    /// Advance to the next episode without returning to the picker.
    pub auto_play_next: bool,
    // streaming
    pub streaming_state: StreamingState,
    pub current_title: String,
    pub current_file: String,
    pub current_tmdb_id: Option<u64>,
    pub current_year: Option<u16>,
    pub current_media_type: Option<String>,
    pub current_poster_url: Option<String>,
    pub download_progress: DownloadProgress,
    /// A streaming task is active; keeps a second one from starting.
    pub is_streaming: bool,
    // doctor
    pub doctor_results: Vec<CheckResult>,
    pub is_checking: bool,
    // TV browsing
    pub tv_details: Option<TvDetails>,
    pub tv_seasons: Vec<SeasonSummary>,
    pub selected_season_index: usize,
    pub tv_episodes: Vec<Episode>,
    pub selected_episode_index: usize,
    pub is_fetching_tv_details: bool,
    // settings
    pub settings_section: SettingsSection,
    pub settings_field_index: usize,
    pub settings_editing: bool,
    pub settings_edit_buffer: String,
    pub settings_dirty: bool,
    // wizard
    pub wizard_step: WizardStep,
    pub wizard_field_index: usize,
    pub wizard_editing: bool,
    pub wizard_edit_buffer: String,
    // resume prompt
    pub show_resume_prompt: bool,
    /// Whole percent to resume from.
    pub resume_progress: u64,
    /// Whole percent of playback position, from the player's control channel.
    pub playback_progress: u64,
    // racing
    pub racing_message: Option<String>,
    // discovery
    pub discovery_rows: Vec<DiscoveryRow>,
    pub selected_row_index: usize,
    pub selected_item_index: usize,
    pub is_loading_discovery: bool,
    pub discovery_error: Option<String>,
}

impl App {
    pub fn new() -> (r: App)
        ensures
            r.view == Screen::Discovery,
            !r.should_quit,
            r.search_input@.len() == 0,
            !r.is_searching,
            r.search_error is None,
            r.search_id == 0,
            r.suggestions@.len() == 0,
            r.selected_suggestion == 0,
            !r.is_fetching_suggestions,
            r.results@.len() == 0,
            r.selected_index == 0,
            r.sort_order == SortOrder::SeedersDesc,
            r.tmdb_info is None,
            r.available_files@.len() == 0,
            r.selected_file_index == 0,
            r.pending_torrent_id is None,
            r.current_episode_index == 0,
            !r.next_episode_ready,
            r.auto_play_next,
            r.streaming_state is Connecting,
            r.current_title@.len() == 0,
            r.current_file@.len() == 0,
            r.current_tmdb_id is None,
            r.current_year is None,
            r.current_media_type is None,
            r.current_poster_url is None,
            r.download_progress.progress_percent == 0,
            r.download_progress.downloaded_bytes == 0,
            r.download_progress.total_bytes == 0,
            !r.is_streaming,
            r.doctor_results@.len() == 0,
            !r.is_checking,
            r.tv_details is None,
            r.tv_seasons@.len() == 0,
            r.selected_season_index == 0,
            r.tv_episodes@.len() == 0,
            r.selected_episode_index == 0,
            !r.is_fetching_tv_details,
            r.settings_section == SettingsSection::Prowlarr,
            r.settings_field_index == 0,
            !r.settings_editing,
            r.settings_edit_buffer@.len() == 0,
            !r.settings_dirty,
            r.wizard_step == WizardStep::Welcome,
            r.wizard_field_index == 0,
            !r.wizard_editing,
            r.wizard_edit_buffer@.len() == 0,
            !r.show_resume_prompt,
            r.resume_progress == 0,
            r.playback_progress == 0,
            r.racing_message is None,
            r.discovery_rows@.len() == 0,
            r.selected_row_index == 0,
            r.selected_item_index == 0,
            !r.is_loading_discovery,
            r.discovery_error is None,
    {
        App {
            view: Screen::Discovery,
            should_quit: false,
            search_input: String::new(),
            is_searching: false,
            search_error: None,
            search_id: 0,
            suggestions: Vec::new(),
            selected_suggestion: 0,
            is_fetching_suggestions: false,
            results: Vec::new(),
            selected_index: 0,
            sort_order: SortOrder::SeedersDesc,
            tmdb_info: None,
            available_files: Vec::new(),
            selected_file_index: 0,
            pending_torrent_id: None,
            current_episode_index: 0,
            next_episode_ready: false,
            auto_play_next: true,
            streaming_state: StreamingState::Connecting,
            current_title: String::new(),
            current_file: String::new(),
            current_tmdb_id: None,
            current_year: None,
            current_media_type: None,
            current_poster_url: None,
            download_progress: DownloadProgress::new(),
            is_streaming: false,
            doctor_results: Vec::new(),
            is_checking: false,
            tv_details: None,
            tv_seasons: Vec::new(),
            selected_season_index: 0,
            tv_episodes: Vec::new(),
            selected_episode_index: 0,
            is_fetching_tv_details: false,
            settings_section: SettingsSection::Prowlarr,
            settings_field_index: 0,
            settings_editing: false,
            settings_edit_buffer: String::new(),
            settings_dirty: false,
            wizard_step: WizardStep::Welcome,
            wizard_field_index: 0,
            wizard_editing: false,
            wizard_edit_buffer: String::new(),
            show_resume_prompt: false,
            resume_progress: 0,
            playback_progress: 0,
            racing_message: None,
            discovery_rows: Vec::new(),
            selected_row_index: 0,
            selected_item_index: 0,
            is_loading_discovery: false,
            discovery_error: None,
        }
    }

    /// How many fields the current wizard step shows.
    pub fn wizard_field_count(&self) -> (r: usize)
        ensures
            r == match self.wizard_step {
                WizardStep::Welcome => 0int,
                WizardStep::Prowlarr => 2int,
                WizardStep::Tmdb => 1int,
                WizardStep::Player => 1int,
                WizardStep::Done => 0int,
            },
    {
        match self.wizard_step {
            WizardStep::Welcome => 0,
            WizardStep::Prowlarr => 2,
            WizardStep::Tmdb => 1,
            WizardStep::Player => 1,
            WizardStep::Done => 0,
        }
    }

    /// Move to the next wizard field, wrapping around.
    #[verifier::rlimit(100)]
    pub fn wizard_next_field(&mut self)
        ensures
            (*final(self)) == (App { wizard_field_index: final(self).wizard_field_index, ..*old(self) }),
            old(self).wizard_field_count_spec() > 0 && old(self).wizard_field_index < old(
                self,
            ).wizard_field_count_spec() ==> final(self).wizard_field_index == if old(
                self,
            ).wizard_field_index + 1 < old(self).wizard_field_count_spec() {
                old(self).wizard_field_index + 1
            } else {
                0int
            },
            old(self).wizard_field_count_spec() == 0 ==> final(self).wizard_field_index == old(
                self,
            ).wizard_field_index,
    {
        let max = self.wizard_field_count();
        if max > 0 {
            if self.wizard_field_index >= max - 1 {
                self.wizard_field_index = 0;
            } else {
                self.wizard_field_index = self.wizard_field_index + 1;
            }
        }
    }

    /// How many fields the current wizard step shows.
    pub open spec fn wizard_field_count_spec(&self) -> int {
        match self.wizard_step {
            WizardStep::Welcome => 0,
            WizardStep::Prowlarr => 2,
            WizardStep::Tmdb => 1,
            WizardStep::Player => 1,
            WizardStep::Done => 0,
        }
    }

    /// Move to the previous wizard field, wrapping around.
    #[verifier::rlimit(100)]
    pub fn wizard_prev_field(&mut self)
        ensures
            (*final(self)) == (App { wizard_field_index: final(self).wizard_field_index, ..*old(self) }),
            old(self).wizard_field_count_spec() > 0 ==> final(self).wizard_field_index == if old(
                self,
            ).wizard_field_index == 0 {
                old(self).wizard_field_count_spec() - 1
            } else {
                old(self).wizard_field_index - 1
            },
            old(self).wizard_field_count_spec() == 0 ==> final(self).wizard_field_index == old(
                self,
            ).wizard_field_index,
    {
        let max = self.wizard_field_count();
        if max > 0 {
            if self.wizard_field_index == 0 {
                self.wizard_field_index = max - 1;
            } else {
                self.wizard_field_index = self.wizard_field_index - 1;
            }
        }
    }

    /// How many fields the current settings section shows.
    pub open spec fn settings_field_count_spec(&self) -> int {
        match self.settings_section {
            SettingsSection::Prowlarr => 2,
            SettingsSection::Tmdb => 1,
            SettingsSection::Player => 2,
            SettingsSection::Streaming => 1,
            SettingsSection::Subtitles => 3,
            SettingsSection::Discord => 2,
            SettingsSection::Trakt => 3,
        }
    }

    /// Move to the next settings field, wrapping around.
    #[verifier::rlimit(100)]
    pub fn settings_next_field(&mut self)
        ensures
            *final(self) == (App {
                settings_field_index: final(self).settings_field_index,
                ..*old(self)
            }),
            old(self).settings_field_index < old(self).settings_field_count_spec() ==> final(self).settings_field_index == if old(self).settings_field_index + 1 < old(
                self,
            ).settings_field_count_spec() {
                old(self).settings_field_index + 1
            } else {
                0int
            },
            final(self).settings_field_index < old(self).settings_field_count_spec(),
    {
        let max = self.settings_section.field_count();
        if self.settings_field_index >= max - 1 {
            self.settings_field_index = 0;
        } else {
            self.settings_field_index = self.settings_field_index + 1;
        }
    }

    /// Move to the previous settings field, wrapping around.
    #[verifier::rlimit(100)]
    pub fn settings_prev_field(&mut self)
        ensures
            *final(self) == (App {
                settings_field_index: final(self).settings_field_index,
                ..*old(self)
            }),
            final(self).settings_field_index == if old(self).settings_field_index == 0 {
                old(self).settings_field_count_spec() - 1
            } else {
                old(self).settings_field_index - 1
            },
    {
        let max = self.settings_section.field_count();
        if self.settings_field_index == 0 {
            self.settings_field_index = max - 1;
        } else {
            self.settings_field_index = self.settings_field_index - 1;
        }
    }

    /// Select the next search result, stopping at the last.
    #[verifier::rlimit(100)]
    pub fn select_next(&mut self)
        ensures
            *final(self) == (App { selected_index: final(self).selected_index, ..*old(self) }),
            old(self).results@.len() == 0 ==> final(self).selected_index == old(
                self,
            ).selected_index,
            old(self).results@.len() > 0 ==> final(self).selected_index == if old(
                self,
            ).selected_index + 1 < old(self).results@.len() {
                old(self).selected_index + 1
            } else {
                old(self).results@.len() - 1
            },
    {
        if self.results.len() > 0 {
            if self.selected_index < self.results.len() - 1 {
                self.selected_index = self.selected_index + 1;
            } else {
                self.selected_index = self.results.len() - 1;
            }
        }
    }

    /// Select the previous search result, stopping at the first.
    #[verifier::rlimit(100)]
    pub fn select_previous(&mut self)
        ensures
            *final(self) == (App { selected_index: final(self).selected_index, ..*old(self) }),
            final(self).selected_index == if old(self).selected_index > 0 {
                old(self).selected_index - 1
            } else {
                0int
            },
    {
        if self.selected_index > 0 {
            self.selected_index = self.selected_index - 1;
        }
    }

    /// The highlighted search result, when any.
    pub fn selected_result(&self) -> (r: Option<&TorrentResult>)
        ensures
            match r {
                Some(t) => self.selected_index < self.results@.len() && *t
                    == self.results@[self.selected_index as int],
                None => self.selected_index >= self.results@.len(),
            },
    {
        if self.selected_index < self.results.len() {
            Some(&self.results[self.selected_index])
        } else {
            None
        }
    }

    /// Select the next video file, stopping at the last.
    #[verifier::rlimit(100)]
    pub fn select_next_file(&mut self)
        ensures
            *final(self) == (App {
                selected_file_index: final(self).selected_file_index,
                ..*old(self)
            }),
            old(self).available_files@.len() == 0 ==> final(self).selected_file_index == old(
                self,
            ).selected_file_index,
            old(self).available_files@.len() > 0 ==> final(self).selected_file_index == if old(
                self,
            ).selected_file_index + 1 < old(self).available_files@.len() {
                old(self).selected_file_index + 1
            } else {
                old(self).available_files@.len() - 1
            },
    {
        if self.available_files.len() > 0 {
            if self.selected_file_index < self.available_files.len() - 1 {
                self.selected_file_index = self.selected_file_index + 1;
            } else {
                self.selected_file_index = self.available_files.len() - 1;
            }
        }
    }

    /// Select the previous video file, stopping at the first.
    #[verifier::rlimit(100)]
    pub fn select_previous_file(&mut self)
        ensures
            *final(self) == (App {
                selected_file_index: final(self).selected_file_index,
                ..*old(self)
            }),
            final(self).selected_file_index == if old(self).selected_file_index > 0 {
                old(self).selected_file_index - 1
            } else {
                0int
            },
    {
        if self.selected_file_index > 0 {
            self.selected_file_index = self.selected_file_index - 1;
        }
    }

    /// The highlighted video file, when any.
    pub fn selected_video_file(&self) -> (r: Option<&VideoFile>)
        ensures
            match r {
                Some(f) => self.selected_file_index < self.available_files@.len() && *f
                    == self.available_files@[self.selected_file_index as int],
                None => self.selected_file_index >= self.available_files@.len(),
            },
    {
        if self.selected_file_index < self.available_files.len() {
            Some(&self.available_files[self.selected_file_index])
        } else {
            None
        }
    }

    /// Is there an episode after the one now playing?
    pub fn has_next_episode(&self) -> (r: bool)
        ensures
            r == (self.current_episode_index + 1 < self.available_files@.len()),
    {
        let n = self.available_files.len();
        self.current_episode_index < n && n - self.current_episode_index > 1
    }

    /// The episode after the one now playing, when any.
    pub fn next_episode(&self) -> (r: Option<&VideoFile>)
        ensures
            match r {
                Some(f) => self.current_episode_index + 1 < self.available_files@.len() && *f
                    == self.available_files@[self.current_episode_index + 1],
                None => self.current_episode_index + 1 >= self.available_files@.len(),
            },
    {
        let n = self.available_files.len();
        if self.has_next_episode() {
            Some(&self.available_files[self.current_episode_index + 1])
        } else {
            None
        }
    }

    /// Advance to the next episode: the playing index and the picker
    /// selection move forward together and the pre-fetch flag clears.
    /// Nothing changes when no next episode exists.
    #[verifier::rlimit(100)]
    pub fn advance_to_next_episode(&mut self) -> (r: Option<&VideoFile>)
        ensures
            old(self).current_episode_index + 1 < old(self).available_files@.len() ==> {
                &&& *final(self) == (App {
                    current_episode_index: (old(self).current_episode_index + 1) as usize,
                    selected_file_index: (old(self).current_episode_index + 1) as usize,
                    next_episode_ready: false,
                    ..*old(self)
                })
                &&& (r matches Some(f) && *f == old(self).available_files@[old(
                    self,
                ).current_episode_index + 1])
            },
            old(self).current_episode_index + 1 >= old(self).available_files@.len() ==> {
                &&& *final(self) == *old(self)
                &&& r is None
            },
    {
        let n = self.available_files.len();
        if self.has_next_episode() {
            self.current_episode_index = self.current_episode_index + 1;
            self.selected_file_index = self.current_episode_index;
            self.next_episode_ready = false;
            Some(&self.available_files[self.current_episode_index])
        } else {
            None
        }
    }

    /// Select the next season, stopping at the last.
    #[verifier::rlimit(100)]
    pub fn select_next_season(&mut self)
        ensures
            *final(self) == (App {
                selected_season_index: final(self).selected_season_index,
                ..*old(self)
            }),
            old(self).tv_seasons@.len() == 0 ==> final(self).selected_season_index == old(
                self,
            ).selected_season_index,
            old(self).tv_seasons@.len() > 0 ==> final(self).selected_season_index == if old(
                self,
            ).selected_season_index + 1 < old(self).tv_seasons@.len() {
                old(self).selected_season_index + 1
            } else {
                old(self).tv_seasons@.len() - 1
            },
    {
        if self.tv_seasons.len() > 0 {
            if self.selected_season_index < self.tv_seasons.len() - 1 {
                self.selected_season_index = self.selected_season_index + 1;
            } else {
                self.selected_season_index = self.tv_seasons.len() - 1;
            }
        }
    }

    /// Select the previous season, stopping at the first.
    #[verifier::rlimit(100)]
    pub fn select_previous_season(&mut self)
        ensures
            *final(self) == (App {
                selected_season_index: final(self).selected_season_index,
                ..*old(self)
            }),
            final(self).selected_season_index == if old(self).selected_season_index > 0 {
                old(self).selected_season_index - 1
            } else {
                0int
            },
    {
        if self.selected_season_index > 0 {
            self.selected_season_index = self.selected_season_index - 1;
        }
    }

    /// The highlighted season, when any.
    pub fn selected_season(&self) -> (r: Option<&SeasonSummary>)
        ensures
            match r {
                Some(s) => self.selected_season_index < self.tv_seasons@.len() && *s
                    == self.tv_seasons@[self.selected_season_index as int],
                None => self.selected_season_index >= self.tv_seasons@.len(),
            },
    {
        if self.selected_season_index < self.tv_seasons.len() {
            Some(&self.tv_seasons[self.selected_season_index])
        } else {
            None
        }
    }

    /// Select the next episode in the season browser, stopping at the last.
    #[verifier::rlimit(100)]
    pub fn select_next_episode(&mut self)
        ensures
            *final(self) == (App {
                selected_episode_index: final(self).selected_episode_index,
                ..*old(self)
            }),
            old(self).tv_episodes@.len() == 0 ==> final(self).selected_episode_index == old(
                self,
            ).selected_episode_index,
            old(self).tv_episodes@.len() > 0 ==> final(self).selected_episode_index == if old(
                self,
            ).selected_episode_index + 1 < old(self).tv_episodes@.len() {
                old(self).selected_episode_index + 1
            } else {
                old(self).tv_episodes@.len() - 1
            },
    {
        if self.tv_episodes.len() > 0 {
            if self.selected_episode_index < self.tv_episodes.len() - 1 {
                self.selected_episode_index = self.selected_episode_index + 1;
            } else {
                self.selected_episode_index = self.tv_episodes.len() - 1;
            }
        }
    }

    /// Select the previous episode in the season browser, stopping at the
    /// first.
    #[verifier::rlimit(100)]
    pub fn select_previous_episode(&mut self)
        ensures
            *final(self) == (App {
                selected_episode_index: final(self).selected_episode_index,
                ..*old(self)
            }),
            final(self).selected_episode_index == if old(self).selected_episode_index > 0 {
                old(self).selected_episode_index - 1
            } else {
                0int
            },
    {
        if self.selected_episode_index > 0 {
            self.selected_episode_index = self.selected_episode_index - 1;
        }
    }

    /// The highlighted episode in the season browser, when any.
    pub fn selected_tv_episode(&self) -> (r: Option<&Episode>)
        ensures
            match r {
                Some(e) => self.selected_episode_index < self.tv_episodes@.len() && *e
                    == self.tv_episodes@[self.selected_episode_index as int],
                None => self.selected_episode_index >= self.tv_episodes@.len(),
            },
    {
        if self.selected_episode_index < self.tv_episodes.len() {
            Some(&self.tv_episodes[self.selected_episode_index])
        } else {
            None
        }
    }

    /// Move to the next discovery row; the item selection restarts.
    #[verifier::rlimit(100)]
    #[verifier::spinoff_prover]
    pub fn select_next_row(&mut self)
        ensures
            *final(self) == (App {
                selected_row_index: final(self).selected_row_index,
                selected_item_index: final(self).selected_item_index,
                ..*old(self)
            }),
            final(self).selected_row_index == if old(self).discovery_rows@.len() == 0 {
                old(self).selected_row_index as int
            } else if old(self).selected_row_index + 1 < old(self).discovery_rows@.len() {
                old(self).selected_row_index + 1
            } else {
                old(self).discovery_rows@.len() - 1
            },
            final(self).selected_item_index == if old(self).discovery_rows@.len() == 0 {
                old(self).selected_item_index as int
            } else {
                0int
            },
    {
        let n = self.discovery_rows.len();
        if n > 0 {
            let new_row = if self.selected_row_index < n - 1 {
                self.selected_row_index + 1
            } else {
                n - 1
            };
            self.selected_row_index = new_row;
            self.selected_item_index = 0;
        }
    }

    /// Move to the previous discovery row; the item selection restarts.
    #[verifier::rlimit(100)]
    pub fn select_previous_row(&mut self)
        ensures
            *final(self) == (App {
                selected_row_index: final(self).selected_row_index,
                selected_item_index: final(self).selected_item_index,
                ..*old(self)
            }),
            old(self).selected_row_index == 0 ==> *final(self) == *old(self),
            old(self).selected_row_index > 0 ==> final(self).selected_row_index == old(
                self,
            ).selected_row_index - 1 && final(self).selected_item_index == 0,
    {
        if self.selected_row_index > 0 {
            self.selected_row_index = self.selected_row_index - 1;
            self.selected_item_index = 0;
        }
    }

    /// How many items the highlighted discovery row holds.
    pub open spec fn current_row_len(self) -> int {
        if self.selected_row_index < self.discovery_rows@.len() {
            self.discovery_rows@[self.selected_row_index as int].items@.len() as int
        } else {
            0
        }
    }

    /// Move to the next item in the current row, stopping at the last.
    #[verifier::rlimit(100)]
    pub fn select_next_item(&mut self)
        ensures
            *final(self) == (App {
                selected_item_index: final(self).selected_item_index,
                ..*old(self)
            }),
            old(self).current_row_len() == 0 ==> *final(self) == *old(self),
            old(self).current_row_len() > 0 ==> final(self).selected_item_index == if old(
                self,
            ).selected_item_index + 1 < old(self).current_row_len() {
                old(self).selected_item_index + 1
            } else {
                old(self).current_row_len() - 1
            },
    {
        if self.selected_row_index < self.discovery_rows.len() {
            let n = self.discovery_rows[self.selected_row_index].items.len();
            if n > 0 {
                if self.selected_item_index < n - 1 {
                    self.selected_item_index = self.selected_item_index + 1;
                } else {
                    self.selected_item_index = n - 1;
                }
            }
        }
    }

    /// Move to the previous item in the current row, stopping at the first.
    #[verifier::rlimit(100)]
    pub fn select_previous_item(&mut self)
        ensures
            *final(self) == (App {
                selected_item_index: final(self).selected_item_index,
                ..*old(self)
            }),
            final(self).selected_item_index == if old(self).selected_item_index > 0 {
                old(self).selected_item_index - 1
            } else {
                0int
            },
    {
        if self.selected_item_index > 0 {
            self.selected_item_index = self.selected_item_index - 1;
        }
    }

    /// The highlighted discovery item, when any.
    pub fn selected_discovery_item(&self) -> (r: Option<&DiscoveryItem>)
        ensures
            match r {
                Some(it) => self.selected_row_index < self.discovery_rows@.len()
                    && self.selected_item_index < self.discovery_rows@[self.selected_row_index as int].items@.len()
                    && *it == self.discovery_rows@[self.selected_row_index as int].items@[self.selected_item_index as int],
                None => self.selected_row_index >= self.discovery_rows@.len()
                    || self.selected_item_index >= self.discovery_rows@[self.selected_row_index as int].items@.len(),
            },
    {
        if self.selected_row_index < self.discovery_rows.len() {
            let row = &self.discovery_rows[self.selected_row_index];
            if self.selected_item_index < row.items.len() {
                return Some(&row.items[self.selected_item_index]);
            }
        }
        None
    }
}

/// The ordering key of an optional count: absent sorts before zero.
pub open spec fn opt_u32_key(o: Option<u32>) -> int {
    match o {
        Some(v) => v as int,
        None => -1,
    }
}

/// The ordering key of an optional size: absent sorts before zero.
pub open spec fn opt_u64_key(o: Option<u64>) -> int {
    match o {
        Some(v) => v as int,
        None => -1,
    }
}

/// Is `a` ordered at or before `b` under this sort order?
pub open spec fn result_le(order: SortOrder, a: TorrentResult, b: TorrentResult) -> bool {
    match order {
        SortOrder::SeedersDesc => opt_u32_key(a.seeders) >= opt_u32_key(b.seeders),
        SortOrder::SeedersAsc => opt_u32_key(a.seeders) <= opt_u32_key(b.seeders),
        SortOrder::SizeDesc => opt_u64_key(a.size) >= opt_u64_key(b.size),
        SortOrder::SizeAsc => opt_u64_key(a.size) <= opt_u64_key(b.size),
        SortOrder::NameAsc => lex_le(lower(a.title@), lower(b.title@)),
        SortOrder::NameDesc => lex_le(lower(b.title@), lower(a.title@)),
    }
}

/// Each result is ordered at or before its successor.
pub open spec fn results_sorted(order: SortOrder, rs: Seq<TorrentResult>) -> bool {
    forall|i: int| 0 <= i && i + 1 < rs.len() ==> result_le(order, #[trigger] rs[i], rs[i + 1])
}

/// Any two results are comparable under any order.
proof fn lemma_result_le_total(order: SortOrder, a: TorrentResult, b: TorrentResult)
    ensures
        result_le(order, a, b) || result_le(order, b, a),
{
    match order {
        SortOrder::NameAsc => lemma_lex_total(lower(a.title@), lower(b.title@)),
        SortOrder::NameDesc => lemma_lex_total(lower(a.title@), lower(b.title@)),
        _ => {},
    }
}

/// The value a result is ranked by under the order: the numeric key (with
/// an empty second part) for the count and size orders, the
/// ASCII-case-folded title for the name orders. Results of equal class tie
/// under the order.
pub open spec fn result_class(order: SortOrder, r: TorrentResult) -> (int, Seq<char>) {
    match order {
        SortOrder::SeedersDesc => (opt_u32_key(r.seeders), Seq::<char>::empty()),
        SortOrder::SeedersAsc => (opt_u32_key(r.seeders), Seq::<char>::empty()),
        SortOrder::SizeDesc => (opt_u64_key(r.size), Seq::<char>::empty()),
        SortOrder::SizeAsc => (opt_u64_key(r.size), Seq::<char>::empty()),
        SortOrder::NameAsc => (0, lower(r.title@)),
        SortOrder::NameDesc => (0, lower(r.title@)),
    }
}

/// The results of `rs` ranked exactly as `c`, in order.
pub open spec fn with_class(order: SortOrder, rs: Seq<TorrentResult>, c: (int, Seq<char>)) -> Seq<
    TorrentResult,
> {
    rs.filter(|y: TorrentResult| result_class(order, y) == c)
}

/// Results of equal class tie under the order.
proof fn lemma_class_ties(order: SortOrder, a: TorrentResult, b: TorrentResult)
    requires
        result_class(order, a) == result_class(order, b),
    ensures
        result_le(order, a, b),
{
    match order {
        SortOrder::NameAsc => lemma_lex_refl(lower(a.title@)),
        SortOrder::NameDesc => lemma_lex_refl(lower(a.title@)),
        _ => {},
    }
}

/// `with_class` distributes over concatenation.
proof fn lemma_with_class_add(
    order: SortOrder,
    a: Seq<TorrentResult>,
    b: Seq<TorrentResult>,
    c: (int, Seq<char>),
)
    ensures
        with_class(order, a + b, c) == with_class(order, a, c) + with_class(order, b, c),
    decreases b.len(),
{
    reveal(Seq::filter);
    if b.len() == 0 {
        assert(a + b =~= a);
        assert(with_class(order, b, c) =~= Seq::<TorrentResult>::empty());
        assert(with_class(order, a, c) + with_class(order, b, c) =~= with_class(order, a, c));
    } else {
        assert((a + b).drop_last() =~= a + b.drop_last());
        assert((a + b).last() == b.last());
        lemma_with_class_add(order, a, b.drop_last(), c);
        if result_class(order, b.last()) == c {
            assert((with_class(order, a, c) + with_class(order, b.drop_last(), c)).push(b.last())
                =~= with_class(order, a, c) + with_class(order, b.drop_last(), c).push(b.last()));
        }
    }
}

/// A one-result sequence filters to itself or to nothing.
proof fn lemma_with_class_one(order: SortOrder, x: TorrentResult, c: (int, Seq<char>))
    ensures
        with_class(order, seq![x], c) == if result_class(order, x) == c {
            seq![x]
        } else {
            Seq::<TorrentResult>::empty()
        },
{
    reveal_with_fuel(Seq::filter, 3);
    assert(seq![x].drop_last() =~= Seq::<TorrentResult>::empty());
    if result_class(order, x) == c {
        assert(Seq::<TorrentResult>::empty().push(x) =~= seq![x]);
    }
}

/// Nothing is kept when no result carries the class.
proof fn lemma_with_class_none(order: SortOrder, s: Seq<TorrentResult>, c: (int, Seq<char>))
    requires
        forall|i: int| 0 <= i < s.len() ==> result_class(order, #[trigger] s[i]) != c,
    ensures
        with_class(order, s, c) == Seq::<TorrentResult>::empty(),
    decreases s.len(),
{
    reveal(Seq::filter);
    if s.len() > 0 {
        lemma_with_class_none(order, s.drop_last(), c);
    } else {
        assert(s =~= Seq::<TorrentResult>::empty());
    }
}

/// Is `a` ordered at or before `b` under this sort order?
fn result_le_exec(order: SortOrder, a: &TorrentResult, b: &TorrentResult) -> (r: bool)
    ensures
        r == result_le(order, *a, *b),
{
    match order {
        SortOrder::SeedersDesc => opt_u32_le(b.seeders, a.seeders),
        SortOrder::SeedersAsc => opt_u32_le(a.seeders, b.seeders),
        SortOrder::SizeDesc => opt_u64_le(b.size, a.size),
        SortOrder::SizeAsc => opt_u64_le(a.size, b.size),
        SortOrder::NameAsc => lex_le_chars(
            &lower_vec(&chars_vec(a.title.as_str())),
            &lower_vec(&chars_vec(b.title.as_str())),
        ),
        SortOrder::NameDesc => lex_le_chars(
            &lower_vec(&chars_vec(b.title.as_str())),
            &lower_vec(&chars_vec(a.title.as_str())),
        ),
    }
}

fn opt_u32_le(a: Option<u32>, b: Option<u32>) -> (r: bool)
    ensures
        r == (opt_u32_key(a) <= opt_u32_key(b)),
{
    match (a, b) {
        (None, _) => true,
        (Some(_), None) => false,
        (Some(x), Some(y)) => x <= y,
    }
}

fn opt_u64_le(a: Option<u64>, b: Option<u64>) -> (r: bool)
    ensures
        r == (opt_u64_key(a) <= opt_u64_key(b)),
{
    match (a, b) {
        (None, _) => true,
        (Some(_), None) => false,
        (Some(x), Some(y)) => x <= y,
    }
}

/// The first position in `out` whose element is at or above `x` under the
/// order: inserting there places `x` before everything it ties with.
fn find_result_pos(order: SortOrder, out: &Vec<TorrentResult>, x: &TorrentResult) -> (p: usize)
    ensures
        p <= out@.len(),
        forall|k: int| 0 <= k < p ==> !result_le(order, *x, #[trigger] out@[k]),
        p < out@.len() ==> result_le(order, *x, out@[p as int]),
{
    let mut p: usize = 0;
    while p < out.len()
        invariant
            p <= out@.len(),
            forall|k: int| 0 <= k < p ==> !result_le(order, *x, #[trigger] out@[k]),
        decreases out@.len() - p,
    {
        if result_le_exec(order, x, &out[p]) {
            return p;
        }
        p += 1;
    }
    p
}

/// Sort search results under the given order, stably: the result holds
/// exactly the results given, each ordered at or before its successor, and
/// results that tie under the order keep their input order.
fn sort_results_by(order: SortOrder, results: &mut Vec<TorrentResult>)
    ensures
        final(results)@.to_multiset() == old(results)@.to_multiset(),
        results_sorted(order, final(results)@),
        forall|c: (int, Seq<char>)| #[trigger] with_class(order, final(results)@, c) == with_class(
            order,
            old(results)@,
            c,
        ),
{
    let mut out: Vec<TorrentResult> = Vec::new();
    proof {
        assert(results@ =~= old(results)@.take(results@.len() as int));
        assert(out@ =~= old(results)@.skip(results@.len() as int));
    }
    while results.len() > 0
        invariant
            results@.to_multiset().add(out@.to_multiset()) == old(results)@.to_multiset(),
            results_sorted(order, out@),
            results@.len() <= old(results)@.len(),
            results@ == old(results)@.take(results@.len() as int),
            forall|c: (int, Seq<char>)| #[trigger] with_class(order, out@, c) == with_class(
                order,
                old(results)@.skip(results@.len() as int),
                c,
            ),
        decreases results@.len(),
    {
        let ghost all = old(results)@;
        let ghost pre = results@;
        let ghost m = pre.len() as int;
        let x = results.pop().unwrap();
        proof {
            assert(pre.drop_last() =~= pre.remove(pre.len() - 1));
            assert(pre.remove(pre.len() - 1).to_multiset() =~= pre.to_multiset().remove(
                pre.last(),
            ));
            assert(pre.contains(pre.last()));
            assert(pre.to_multiset().count(pre.last()) > 0);
            assert(results@.to_multiset().insert(x) =~= pre.to_multiset());
            assert(pre == all.take(m));
            assert(1 <= m <= all.len());
            assert(x == pre.last());
            assert(pre.last() == all.take(m)[m - 1]);
            assert(x == all[m - 1]);
            assert(results@ == pre.drop_last());
            assert(results@ =~= all.take(m - 1));
        }
        let p = find_result_pos(order, &out, &x);
        let ghost out_pre = out@;
        out.insert(p, x);
        proof {
            assert(out@.remove(p as int) =~= out_pre);
            assert(out@.remove(p as int).to_multiset() =~= out@.to_multiset().remove(x));
            assert(out@.to_multiset() =~= out_pre.to_multiset().insert(x));
            assert(results@.to_multiset().add(out@.to_multiset()) =~= all.to_multiset());
            assert forall|i: int| 0 <= i && i + 1 < out@.len() implies result_le(
                order,
                #[trigger] out@[i],
                out@[i + 1],
            ) by {
                if i + 1 < p {
                } else if i + 1 == p {
                    lemma_result_le_total(order, out_pre[i], x);
                } else if i == p {
                    assert(out@[i + 1] == out_pre[i]);
                    assert(result_le(order, x, out_pre[p as int]));
                } else {
                    assert(out@[i] == out_pre[i - 1]);
                    assert(out@[i + 1] == out_pre[i]);
                }
            }
            assert(out@ =~= out_pre.take(p as int) + (seq![x] + out_pre.skip(p as int)));
            assert(out_pre =~= out_pre.take(p as int) + out_pre.skip(p as int));
            assert(all.skip(m - 1) =~= seq![x] + all.skip(m));
            assert forall|c: (int, Seq<char>)| #[trigger] with_class(order, out@, c) == with_class(
                order,
                all.skip(m - 1),
                c,
            ) by {
                lemma_with_class_add(order, out_pre.take(p as int), seq![x] + out_pre.skip(
                    p as int,
                ), c);
                lemma_with_class_add(order, seq![x], out_pre.skip(p as int), c);
                lemma_with_class_add(order, out_pre.take(p as int), out_pre.skip(p as int), c);
                lemma_with_class_one(order, x, c);
                lemma_with_class_add(order, seq![x], all.skip(m), c);
                if result_class(order, x) == c {
                    assert forall|i: int|
                        0 <= i < out_pre.take(p as int).len() implies result_class(
                        order,
                        #[trigger] out_pre.take(p as int)[i],
                    ) != c by {
                        assert(out_pre.take(p as int)[i] == out_pre[i]);
                        assert(!result_le(order, x, out_pre[i]));
                        if result_class(order, out_pre[i]) == c {
                            lemma_class_ties(order, x, out_pre[i]);
                        }
                    }
                    lemma_with_class_none(order, out_pre.take(p as int), c);
                }
                assert(with_class(order, out_pre, c) == with_class(order, all.skip(m), c));
            }
        }
    }
    proof {
        assert(results@.to_multiset() =~= Multiset::<TorrentResult>::empty());
        assert(results@.to_multiset().add(out@.to_multiset()) =~= out@.to_multiset());
        assert(old(results)@.skip(0) =~= old(results)@);
    }
    *results = out;
}

/// The candidate URLs of the results that offer one, in result order.
pub open spec fn candidate_urls(rs: Seq<TorrentResult>, i: int) -> Seq<Seq<char>>
    decreases rs.len() - i,
{
    if i < 0 || i >= rs.len() {
        seq![]
    } else {
        let rest = candidate_urls(rs, i + 1);
        match torrent_url_of(
            rs[i].title@,
            opt_view(rs[i].link),
            opt_view(rs[i].magnet_url),
            opt_view(rs[i].infohash),
        ) {
            Some(u) => seq![u] + rest,
            None => rest,
        }
    }
}

/// Collect the URL a race can use from every result that offers one.
pub fn collect_candidate_urls(rs: &Vec<TorrentResult>) -> (r: Vec<String>)
    ensures
        r.deep_view() == candidate_urls(rs@, 0),
{
    let n = rs.len();
    let mut r: Vec<String> = Vec::new();
    let ghost mut done: Seq<Seq<char>> = seq![];
    let mut i: usize = 0;
    proof {
        assert(done + candidate_urls(rs@, 0) =~= candidate_urls(rs@, 0));
        assert(r.deep_view() =~= done);
    }
    while i < n
        invariant
            n == rs@.len(),
            i <= n,
            r.deep_view() == done,
            candidate_urls(rs@, 0) == done + candidate_urls(rs@, i as int),
        decreases n - i,
    {
        match rs[i].get_torrent_url() {
            Some(u) => {
                proof {
                    done = done.push(u@);
                }
                r.push(u);
                proof {
                    assert(r.deep_view() =~= done);
                    assert(done.drop_last() + (seq![done.last()] + candidate_urls(rs@, i + 1))
                        =~= done + candidate_urls(rs@, i + 1));
                }
            },
            None => {
            },
        }
        i += 1;
    }
    proof {
        assert(candidate_urls(rs@, n as int) =~= Seq::<Seq<char>>::empty());
        assert(done + candidate_urls(rs@, n as int) =~= done);
    }
    r
}

/// `a` carries the same season data as `b`.
pub open spec fn same_season(a: SeasonSummary, b: SeasonSummary) -> bool {
    &&& a.id == b.id
    &&& a.name@ == b.name@
    &&& a.season_number == b.season_number
    &&& a.episode_count == b.episode_count
    &&& opt_string_view(a.air_date) == opt_string_view(b.air_date)
    &&& opt_string_view(a.poster_url) == opt_string_view(b.poster_url)
    &&& opt_string_view(a.overview) == opt_string_view(b.overview)
}

/// The view of an optional string.
pub open spec fn opt_string_view(o: Option<String>) -> Option<Seq<char>> {
    match o {
        Some(s) => Some(s@),
        None => None,
    }
}

/// The seasons with a positive season number, in order (season zero holds
/// specials and is not browsed).
pub open spec fn positive_seasons(ss: Seq<SeasonSummary>, i: int) -> Seq<SeasonSummary>
    decreases ss.len() - i,
{
    if i < 0 || i >= ss.len() {
        seq![]
    } else {
        let rest = positive_seasons(ss, i + 1);
        if ss[i].season_number > 0 {
            seq![ss[i]] + rest
        } else {
            rest
        }
    }
}

/// A message from a background task to the orchestration loop.
pub enum UiMessage {
    /// Search finished; carries the identifier of the search that ran.
    SearchComplete { results: Vec<TorrentResult>, search_id: u64 },
    SearchError(String),
    TmdbInfo(TmdbMetadata),
    Suggestions(Vec<TmdbSuggestion>),
    TvDetailsLoaded(TvDetails),
    SeasonEpisodesLoaded(Vec<Episode>),
    /// A race settled on this resolved torrent.
    TorrentMetadata { torrent_info: TorrentInfo },
    RacingStatus { count: usize, message: String },
    StreamReady { file_name: String, stream_url: String },
    StreamError(String),
    ProgressUpdate(DownloadProgress),
    /// Whole percent of playback position.
    PlaybackProgress(u64),
    PlayerExited,
    DoctorComplete(Vec<CheckResult>),
    DiscoveryLoaded { rows: Vec<DiscoveryRow> },
    DiscoveryError(String),
}

/// What the runtime must do after a message is applied.
pub enum SessionAction {
    /// Open a session and race these candidates.
    StartRace { urls: Vec<String>, validation: Option<TorrentValidation>, width: usize },
    /// Launch the player on this stream.
    LaunchPlayer { stream_url: String, file_name: String },
    /// Request the first bytes of this file to bias piece priority toward it.
    PrefetchFile { torrent_id: usize, file_idx: usize },
    /// Record how much of the finished playback was watched.
    RecordWatched { watched_percent: u64 },
    /// Tear the active session down: signal its cancellation handle and
    /// remove its temporary storage.
    Teardown,
}

impl App {
    /// Re-sort the stored results under the current sort order, keeping the
    /// selection in range.
    #[verifier::rlimit(100)]
    pub fn sort_results(&mut self)
        ensures
            *final(self) == (App {
                results: final(self).results,
                selected_index: final(self).selected_index,
                ..*old(self)
            }),
            final(self).results@.to_multiset() == old(self).results@.to_multiset(),
            results_sorted(old(self).sort_order, final(self).results@),
            forall|c: (int, Seq<char>)| #[trigger] with_class(
                old(self).sort_order,
                final(self).results@,
                c,
            ) == with_class(old(self).sort_order, old(self).results@, c),
            final(self).selected_index == if old(self).selected_index < old(self).results@.len() {
                old(self).selected_index as int
            } else if old(self).results@.len() > 0 {
                old(self).results@.len() - 1
            } else {
                0int
            },
    {
        let order = self.sort_order;
        sort_results_by(order, &mut self.results);
        proof {
            assert(self.results@.to_multiset().len() == self.results@.len());
            assert(old(self).results@.to_multiset().len() == old(self).results@.len());
        }
        if self.selected_index >= self.results.len() {
            if self.results.len() > 0 {
                self.selected_index = self.results.len() - 1;
            } else {
                self.selected_index = 0;
            }
        }
    }

    /// Switch to the next sort order and re-sort.
    #[verifier::rlimit(100)]
    pub fn cycle_sort(&mut self)
        ensures
            *final(self) == (App {
                sort_order: final(self).sort_order,
                results: final(self).results,
                selected_index: final(self).selected_index,
                ..*old(self)
            }),
            final(self).sort_order == match old(self).sort_order {
                SortOrder::SeedersDesc => SortOrder::SeedersAsc,
                SortOrder::SeedersAsc => SortOrder::SizeDesc,
                SortOrder::SizeDesc => SortOrder::SizeAsc,
                SortOrder::SizeAsc => SortOrder::NameAsc,
                SortOrder::NameAsc => SortOrder::NameDesc,
                SortOrder::NameDesc => SortOrder::SeedersDesc,
            },
            final(self).results@.to_multiset() == old(self).results@.to_multiset(),
            results_sorted(final(self).sort_order, final(self).results@),
            forall|c: (int, Seq<char>)| #[trigger] with_class(
                final(self).sort_order,
                final(self).results@,
                c,
            ) == with_class(final(self).sort_order, old(self).results@, c),
    {
        self.sort_order = self.sort_order.next();
        self.sort_results();
    }
}


/// What accepting a fresh search's results guarantees: searching has
/// stopped, the results are stored as a permutation sorted under the
/// pre-existing order, the selection is reset, and the error records
/// whether anything was found. A stale identifier leaves the state alone.
#[verifier::opaque]
pub open spec fn search_complete_post(
    pre: App,
    post: App,
    results: Seq<TorrentResult>,
    search_id: u64,
) -> bool {
    if search_id != pre.search_id {
        post == pre
    } else {
        &&& post == (App {
            is_searching: false,
            results: post.results,
            selected_index: 0,
            search_error: post.search_error,
            ..pre
        })
        &&& post.results@.to_multiset() == results.to_multiset()
        &&& results_sorted(pre.sort_order, post.results@)
        &&& forall|c: (int, Seq<char>)| #[trigger] with_class(pre.sort_order, post.results@, c)
            == with_class(pre.sort_order, results, c)
        &&& (results.len() == 0 ==> (post.search_error matches Some(m) && m@
            == "No results found"@))
        &&& (results.len() > 0 ==> post.search_error is None)
    }
}

/// What filing a loaded TV show guarantees: its positively numbered seasons
/// are shown, the details are stored, and the season browser opens.
#[verifier::opaque]
pub open spec fn tv_details_post(pre: App, post: App, details: TvDetails) -> bool {
    &&& post == (App {
        tv_seasons: post.tv_seasons,
        tv_details: Some(details),
        selected_season_index: 0,
        is_fetching_tv_details: false,
        view: Screen::TvSeasons,
        ..pre
    })
    &&& post.tv_seasons@.len() == positive_seasons(details.seasons@, 0).len()
    &&& forall|k: int|
        0 <= k < post.tv_seasons@.len() ==> same_season(
            #[trigger] post.tv_seasons@[k],
            positive_seasons(details.seasons@, 0)[k],
        )
}

/// What filing a settled race's resolved torrent guarantees: several video
/// files open the picker over the episode-sorted list; exactly one starts
/// playback with a player launch; none changes only the race bookkeeping.
#[verifier::opaque]
pub open spec fn torrent_metadata_post(
    pre: App,
    post: App,
    actions: Seq<SessionAction>,
    torrent_info: TorrentInfo,
) -> bool {
    if torrent_info.video_files@.len() > 1 {
        &&& post == (App {
            racing_message: None,
            pending_torrent_id: Some(torrent_info.id),
            available_files: post.available_files,
            selected_file_index: 0,
            current_episode_index: 0,
            next_episode_ready: false,
            view: Screen::FileSelection,
            streaming_state: StreamingState::FetchingMetadata,
            ..pre
        })
        &&& post.available_files@.to_multiset() == torrent_info.video_files@.to_multiset()
        &&& sorted_by_episode(post.available_files@)
        &&& forall|k: (int, int)| #[trigger] crate::episodes::with_key(post.available_files@, k)
            == crate::episodes::with_key(torrent_info.video_files@, k)
        &&& actions.len() == 0
    } else if torrent_info.video_files@.len() == 1 {
        &&& post == (App {
            racing_message: None,
            pending_torrent_id: Some(torrent_info.id),
            current_file: post.current_file,
            streaming_state: post.streaming_state,
            view: Screen::Streaming,
            ..pre
        })
        &&& post.current_file@ == torrent_info.video_files@[0].name@
        &&& (post.streaming_state matches StreamingState::Ready { stream_url } && stream_url@
            == torrent_info.video_files@[0].stream_url@)
        &&& actions.len() == 1
        &&& (actions[0] matches SessionAction::LaunchPlayer { stream_url, file_name }
            && stream_url@ == torrent_info.video_files@[0].stream_url@ && file_name@
            == torrent_info.video_files@[0].name@)
    } else {
        post == (App {
            racing_message: None,
            pending_torrent_id: Some(torrent_info.id),
            ..pre
        }) && actions.len() == 0
    }
}

/// How much of the finished playback counts as watched: the player's
/// position when it reported one, the download percentage otherwise.
pub open spec fn watched_of(pre: App) -> u64 {
    if pre.playback_progress > 0 {
        pre.playback_progress
    } else {
        pre.download_progress.progress_percent
    }
}

/// What a player exit guarantees: the watched share is recorded first;
/// then, with auto-advance on and a next episode in a multi-file release,
/// continuity advances and the next episode is launched (pre-fetching the
/// one after it when possible); with auto-advance off the picker opens on
/// the next episode; with nothing left the session is torn down.
#[verifier::opaque]
pub open spec fn player_exited_post(
    pre: App,
    post: App,
    actions: Seq<SessionAction>,
    auto_race: u8,
) -> bool {
    let has_next = pre.current_episode_index + 1 < pre.available_files@.len();
    let multi = pre.available_files@.len() > 1;
    &&& actions.len() >= 1
    &&& (actions[0] matches SessionAction::RecordWatched { watched_percent } && watched_percent
        == watched_of(pre))
    &&& if pre.auto_play_next && has_next && multi {
        let ni = pre.current_episode_index + 1;
        let f = pre.available_files@[ni];
        &&& post == (App {
            current_episode_index: ni as usize,
            selected_file_index: ni as usize,
            next_episode_ready: false,
            current_file: post.current_file,
            streaming_state: post.streaming_state,
            ..pre
        })
        &&& post.current_file@ == f.name@
        &&& (post.streaming_state matches StreamingState::Ready { stream_url } && stream_url@
            == f.stream_url@)
        &&& (actions.last() matches SessionAction::LaunchPlayer { stream_url, file_name }
            && stream_url@ == f.stream_url@ && file_name@ == f.name@)
        &&& if ni + 1 < pre.available_files@.len() && pre.pending_torrent_id is Some {
            actions.len() == 3 && (actions[1] matches SessionAction::PrefetchFile {
                torrent_id,
                file_idx,
            } && torrent_id == pre.pending_torrent_id->0 && file_idx == pre.available_files@[ni
                + 1].file_idx)
        } else {
            actions.len() == 2
        }
    } else if has_next && multi {
        &&& post == (App {
            selected_file_index: (pre.current_episode_index + 1) as usize,
            view: Screen::FileSelection,
            streaming_state: StreamingState::FetchingMetadata,
            ..pre
        })
        &&& actions.len() == 1
    } else {
        &&& post == (App {
            available_files: post.available_files,
            current_file: post.current_file,
            current_title: post.current_title,
            racing_message: None,
            view: if auto_race > 0 {
                Screen::Discovery
            } else {
                Screen::Results
            },
            streaming_state: StreamingState::Connecting,
            is_streaming: false,
            ..pre
        })
        &&& post.available_files@.len() == 0
        &&& post.current_file@.len() == 0
        &&& post.current_title@.len() == 0
        &&& actions.len() == 2
        &&& actions[1] is Teardown
    }
}

impl App {
    /// Begin auto-racing after a fresh search completed: when auto-race is
    /// configured and no stream is active, collect every candidate URL from
    /// the (already sorted) results, build the validation criteria from the
    /// search query and the enrichment metadata, reset the streaming fields
    /// and hand back the race to start. Otherwise the results page is shown.
    #[verifier::rlimit(100)]
    pub fn begin_auto_race(&mut self, auto_race: u8) -> (r: Option<SessionAction>)
        ensures
            match r {
                Some(a) => {
                    &&& auto_race > 0
                    &&& !old(self).is_streaming
                    &&& candidate_urls(old(self).results@, 0).len() > 0
                    &&& *final(self) == (App {
                        current_file: final(self).current_file,
                        current_title: final(self).current_title,
                        available_files: final(self).available_files,
                        download_progress: final(self).download_progress,
                        is_streaming: true,
                        racing_message: final(self).racing_message,
                        view: Screen::Streaming,
                        streaming_state: StreamingState::Connecting,
                        ..*old(self)
                    })
                    &&& final(self).current_file@.len() == 0
                    &&& final(self).current_title@.len() == 0
                    &&& final(self).available_files@.len() == 0
                    &&& final(self).download_progress.progress_percent == 0
                    &&& (a matches SessionAction::StartRace { urls, validation, width } && {
                        &&& urls.deep_view() == candidate_urls(old(self).results@, 0)
                        &&& width == auto_race as int
                        &&& match validation {
                            Some(v) => v.title_keywords.deep_view() == criteria_keywords(
                                old(self).search_input@,
                                match old(self).tmdb_info {
                                    Some(ref t) => Some(t.title@),
                                    None => None,
                                },
                            ) && v.year == match old(self).tmdb_info {
                                Some(ref t) => t.year,
                                None => None,
                            },
                            None => criteria_keywords(
                                old(self).search_input@,
                                match old(self).tmdb_info {
                                    Some(ref t) => Some(t.title@),
                                    None => None,
                                },
                            ).len() == 0,
                        }
                    })
                },
                None => {
                    &&& *final(self) == (App { view: Screen::Results, ..*old(self) })
                    &&& (auto_race == 0 || old(self).is_streaming || candidate_urls(
                        old(self).results@,
                        0,
                    ).len() == 0)
                },
            },
    {
        if auto_race > 0 && !self.is_streaming {
            let urls = collect_candidate_urls(&self.results);
            if urls.len() > 0 {
                let (title, year) = match &self.tmdb_info {
                    Some(t) => (Some(&t.title), t.year),
                    None => (None, None),
                };
                let validation = build_validation(self.search_input.as_str(), title, year);
                self.current_file = String::new();
                self.current_title = String::new();
                self.available_files = Vec::new();
                self.download_progress = DownloadProgress::new();
                self.is_streaming = true;
                let shown = if auto_race as usize <= urls.len() {
                    auto_race as usize
                } else {
                    urls.len()
                };
                let mut msg = chars_vec("Racing ");
                append_chars(&mut msg, &u64_to_chars(shown as u64));
                append_chars(&mut msg, &chars_vec(" torrents..."));
                self.racing_message = Some(string_from_chars(&msg));
                self.view = Screen::Streaming;
                self.streaming_state = StreamingState::Connecting;
                proof {
                    assert(urls.deep_view().len() == urls@.len());
                }
                return Some(
                    SessionAction::StartRace {
                        urls,
                        validation,
                        width: auto_race as usize,
                    },
                );
            }
            proof {
                assert(urls.deep_view().len() == urls@.len());
            }
        }
        self.view = Screen::Results;
        None
    }


    /// Drive episode continuity after the player exits: advance and play the
    /// next episode, fall back to the file picker, or tear the session down.
    /// The first action always records how much was watched.
    #[verifier::rlimit(100)]
    #[verifier::spinoff_prover]
    pub fn handle_player_exited(&mut self, auto_race: u8) -> (actions: Vec<SessionAction>)
        ensures
            player_exited_post(*old(self), *final(self), actions@, auto_race),
    {
        proof {
            reveal(player_exited_post);
        }
        let watched = if self.playback_progress > 0 {
            self.playback_progress
        } else {
            self.download_progress.progress_percent
        };
        let n = self.available_files.len();
        let has_next = self.current_episode_index < n && n - self.current_episode_index > 1;
        if self.auto_play_next && has_next && n > 1 {
            self.exit_advance(watched)
        } else if has_next && n > 1 {
            self.exit_picker(watched)
        } else {
            self.exit_teardown(watched, auto_race)
        }
    }

    /// Advance continuity and launch the next episode.
    #[verifier::rlimit(100)]
    #[verifier::spinoff_prover]
    fn exit_advance(&mut self, watched: u64) -> (actions: Vec<SessionAction>)
        requires
            old(self).auto_play_next,
            old(self).current_episode_index + 1 < old(self).available_files@.len(),
            old(self).available_files@.len() > 1,
        ensures
            ({
                let ni = old(self).current_episode_index + 1;
                let f = old(self).available_files@[ni];
                &&& *final(self) == (App {
                    current_episode_index: ni as usize,
                    selected_file_index: ni as usize,
                    next_episode_ready: false,
                    current_file: final(self).current_file,
                    streaming_state: final(self).streaming_state,
                    ..*old(self)
                })
                &&& final(self).current_file@ == f.name@
                &&& (final(self).streaming_state matches StreamingState::Ready { stream_url }
                    && stream_url@ == f.stream_url@)
                &&& actions@.len() >= 2
                &&& (actions@[0] matches SessionAction::RecordWatched { watched_percent }
                    && watched_percent == watched)
                &&& (actions@.last() matches SessionAction::LaunchPlayer { stream_url, file_name }
                    && stream_url@ == f.stream_url@ && file_name@ == f.name@)
                &&& if ni + 1 < old(self).available_files@.len() && old(
                    self,
                ).pending_torrent_id is Some {
                    actions@.len() == 3 && (actions@[1] matches SessionAction::PrefetchFile {
                        torrent_id,
                        file_idx,
                    } && torrent_id == old(self).pending_torrent_id->0 && file_idx == old(
                        self,
                    ).available_files@[ni + 1].file_idx)
                } else {
                    actions@.len() == 2
                }
            }),
    {
        let mut actions: Vec<SessionAction> = Vec::new();
        actions.push(SessionAction::RecordWatched { watched_percent: watched });
        let n = self.available_files.len();
        let ni = self.current_episode_index + 1;
        self.current_episode_index = ni;
        self.selected_file_index = ni;
        self.next_episode_ready = false;
        let name = self.available_files[ni].name.clone();
        let url = self.available_files[ni].stream_url.clone();
        self.current_file = name.clone();
        self.streaming_state = StreamingState::Ready { stream_url: url.clone() };
        if ni < n - 1 {
            match self.pending_torrent_id {
                Some(tid) => {
                    actions.push(
                        SessionAction::PrefetchFile {
                            torrent_id: tid,
                            file_idx: self.available_files[ni + 1].file_idx,
                        },
                    );
                },
                None => {
                },
            }
        }
        actions.push(SessionAction::LaunchPlayer { stream_url: url, file_name: name });
        actions
    }

    /// Open the picker on the next episode when auto-advance is off.
    #[verifier::rlimit(100)]
    #[verifier::spinoff_prover]
    fn exit_picker(&mut self, watched: u64) -> (actions: Vec<SessionAction>)
        requires
            old(self).current_episode_index + 1 < old(self).available_files@.len(),
        ensures
            *final(self) == (App {
                selected_file_index: (old(self).current_episode_index + 1) as usize,
                view: Screen::FileSelection,
                streaming_state: StreamingState::FetchingMetadata,
                ..*old(self)
            }),
            actions@.len() == 1,
            (actions@[0] matches SessionAction::RecordWatched { watched_percent }
                && watched_percent == watched),
    {
        let mut actions: Vec<SessionAction> = Vec::new();
        actions.push(SessionAction::RecordWatched { watched_percent: watched });
        let n = self.available_files.len();
        proof {
            assert(self.current_episode_index + 1 < n);
        }
        self.selected_file_index = self.current_episode_index + 1;
        self.view = Screen::FileSelection;
        self.streaming_state = StreamingState::FetchingMetadata;
        actions
    }

    /// Tear the session down when no episode remains.
    #[verifier::rlimit(100)]
    #[verifier::spinoff_prover]
    fn exit_teardown(&mut self, watched: u64, auto_race: u8) -> (actions: Vec<SessionAction>)
        ensures
            *final(self) == (App {
                available_files: final(self).available_files,
                current_file: final(self).current_file,
                current_title: final(self).current_title,
                racing_message: None,
                view: if auto_race > 0 {
                    Screen::Discovery
                } else {
                    Screen::Results
                },
                streaming_state: StreamingState::Connecting,
                is_streaming: false,
                ..*old(self)
            }),
            final(self).available_files@.len() == 0,
            final(self).current_file@.len() == 0,
            final(self).current_title@.len() == 0,
            actions@.len() == 2,
            (actions@[0] matches SessionAction::RecordWatched { watched_percent }
                && watched_percent == watched),
            actions@[1] is Teardown,
    {
        let mut actions: Vec<SessionAction> = Vec::new();
        actions.push(SessionAction::RecordWatched { watched_percent: watched });
        self.available_files = Vec::new();
        self.current_file = String::new();
        self.current_title = String::new();
        self.racing_message = None;
        self.view = if auto_race > 0 {
            Screen::Discovery
        } else {
            Screen::Results
        };
        self.streaming_state = StreamingState::Connecting;
        self.is_streaming = false;
        actions.push(SessionAction::Teardown);
        actions
    }

    /// File a settled race's resolved torrent: several video files open the
    /// picker over the episode-sorted list; exactly one starts playback.
    #[verifier::rlimit(100)]
    #[verifier::spinoff_prover]
    pub fn handle_torrent_metadata(&mut self, torrent_info: TorrentInfo) -> (actions: Vec<
        SessionAction,
    >)
        ensures
            torrent_metadata_post(*old(self), *final(self), actions@, torrent_info),
    {
        proof {
            reveal(torrent_metadata_post);
        }
        let mut actions: Vec<SessionAction> = Vec::new();
        self.racing_message = None;
        self.pending_torrent_id = Some(torrent_info.id);
        if torrent_info.video_files.len() > 1 {
            let mut files = torrent_info.video_files;
            sort_episodes(&mut files);
            self.available_files = files;
            self.selected_file_index = 0;
            self.current_episode_index = 0;
            self.next_episode_ready = false;
            self.view = Screen::FileSelection;
            self.streaming_state = StreamingState::FetchingMetadata;
        } else if torrent_info.video_files.len() == 1 {
            let name = torrent_info.video_files[0].name.clone();
            let url = torrent_info.video_files[0].stream_url.clone();
            self.current_file = name.clone();
            self.streaming_state = StreamingState::Ready { stream_url: url.clone() };
            self.view = Screen::Streaming;
            actions.push(SessionAction::LaunchPlayer { stream_url: url, file_name: name });
        }
        actions
    }

    /// Accept a fresh search's results: store them sorted under the current
    /// order, reset the selection, and record whether anything was found.
    /// Results carrying a stale identifier are dropped unchanged.
    #[verifier::rlimit(100)]
    #[verifier::spinoff_prover]
    pub fn handle_search_complete(&mut self, results: Vec<TorrentResult>, search_id: u64)
        ensures
            search_complete_post(*old(self), *final(self), results@, search_id),
    {
        proof {
            reveal(search_complete_post);
        }
        if search_id != self.search_id {
            return ;
        }
        self.is_searching = false;
        self.results = results;
        self.sort_results();
        self.selected_index = 0;
        if self.results.len() == 0 {
            self.search_error = Some(String::from_str("No results found"));
        } else {
            self.search_error = None;
        }
        proof {
            assert(self.results@.to_multiset().len() == self.results@.len());
        }
    }

    /// Show a loaded TV show: keep its seasons with a positive number and
    /// open the season browser.
    #[verifier::rlimit(100)]
    #[verifier::spinoff_prover]
    pub fn handle_tv_details(&mut self, details: TvDetails)
        ensures
            tv_details_post(*old(self), *final(self), details),
    {
        proof {
            reveal(tv_details_post);
        }
        let n = details.seasons.len();
        let mut seasons: Vec<SeasonSummary> = Vec::new();
        let ghost mut done: Seq<SeasonSummary> = seq![];
        let mut i: usize = 0;
        proof {
            assert(done + positive_seasons(details.seasons@, 0) =~= positive_seasons(
                details.seasons@,
                0,
            ));
        }
        while i < n
            invariant
                n == details.seasons@.len(),
                i <= n,
                seasons@.len() == done.len(),
                forall|k: int|
                    0 <= k < seasons@.len() ==> same_season(#[trigger] seasons@[k], done[k]),
                positive_seasons(details.seasons@, 0) == done + positive_seasons(
                    details.seasons@,
                    i as int,
                ),
            decreases n - i,
        {
            if details.seasons[i].season_number > 0 {
                let sm = SeasonSummary {
                    id: details.seasons[i].id,
                    name: details.seasons[i].name.clone(),
                    season_number: details.seasons[i].season_number,
                    episode_count: details.seasons[i].episode_count,
                    air_date: clone_opt_string(&details.seasons[i].air_date),
                    poster_url: clone_opt_string(&details.seasons[i].poster_url),
                    overview: clone_opt_string(&details.seasons[i].overview),
                };
                proof {
                    done = done.push(details.seasons@[i as int]);
                }
                seasons.push(sm);
                proof {
                    assert(same_season(sm, details.seasons@[i as int]));
                    assert(done.drop_last() + (seq![done.last()] + positive_seasons(
                        details.seasons@,
                        i + 1,
                    )) =~= done + positive_seasons(details.seasons@, i + 1));
                }
            }
            i += 1;
        }
        proof {
            assert(positive_seasons(details.seasons@, n as int) =~= Seq::<SeasonSummary>::empty());
            assert(done + positive_seasons(details.seasons@, n as int) =~= done);
        }
        self.tv_seasons = seasons;
        self.tv_details = Some(details);
        self.selected_season_index = 0;
        self.is_fetching_tv_details = false;
        self.view = Screen::TvSeasons;
    }

    /// Record a failed search.
    pub fn accept_search_error(&mut self, e: String)
        ensures
            *final(self) == (App { is_searching: false, search_error: Some(e), ..*old(self) }),
    {
        self.is_searching = false;
        self.search_error = Some(e);
    }

    /// Store the enrichment metadata for the current search.
    pub fn accept_tmdb_info(&mut self, info: TmdbMetadata)
        ensures
            *final(self) == (App { tmdb_info: Some(info), ..*old(self) }),
    {
        self.tmdb_info = Some(info);
    }

    /// Show fresh autocomplete suggestions.
    pub fn accept_suggestions(&mut self, sugg: Vec<TmdbSuggestion>)
        ensures
            *final(self) == (App {
                suggestions: sugg,
                selected_suggestion: 0,
                is_fetching_suggestions: false,
                ..*old(self)
            }),
    {
        self.suggestions = sugg;
        self.selected_suggestion = 0;
        self.is_fetching_suggestions = false;
    }

    /// Show a loaded season's episodes and open the episode browser.
    pub fn accept_season_episodes(&mut self, eps: Vec<Episode>)
        ensures
            *final(self) == (App {
                tv_episodes: eps,
                selected_episode_index: 0,
                is_fetching_tv_details: false,
                view: Screen::TvEpisodes,
                ..*old(self)
            }),
    {
        self.tv_episodes = eps;
        self.selected_episode_index = 0;
        self.is_fetching_tv_details = false;
        self.view = Screen::TvEpisodes;
    }

    /// Record the doctor's report.
    pub fn accept_doctor_results(&mut self, res: Vec<CheckResult>)
        ensures
            *final(self) == (App { doctor_results: res, is_checking: false, ..*old(self) }),
    {
        self.doctor_results = res;
        self.is_checking = false;
    }

    /// Show loaded discovery rows.
    pub fn accept_discovery_rows(&mut self, rows: Vec<DiscoveryRow>)
        ensures
            *final(self) == (App {
                discovery_rows: rows,
                selected_row_index: 0,
                selected_item_index: 0,
                is_loading_discovery: false,
                discovery_error: None,
                ..*old(self)
            }),
    {
        self.discovery_rows = rows;
        self.selected_row_index = 0;
        self.selected_item_index = 0;
        self.is_loading_discovery = false;
        self.discovery_error = None;
    }

    /// Record a failed discovery load.
    pub fn accept_discovery_error(&mut self, e: String)
        ensures
            *final(self) == (App {
                is_loading_discovery: false,
                discovery_error: Some(e),
                ..*old(self)
            }),
    {
        self.is_loading_discovery = false;
        self.discovery_error = Some(e);
    }

    /// Show the race's live status line.
    pub fn accept_racing_status(&mut self, count: usize, message: &str)
        ensures
            *final(self) == (App { racing_message: final(self).racing_message, ..*old(self) }),
            (final(self).racing_message matches Some(m) && m@ == "Racing "@ + dec_str(count as nat)
                + " torrents: "@ + message@),
    {
        let mut m = chars_vec("Racing ");
        append_chars(&mut m, &u64_to_chars(count as u64));
        append_chars(&mut m, &chars_vec(" torrents: "));
        append_chars(&mut m, &chars_vec(message));
        self.racing_message = Some(string_from_chars(&m));
    }

    /// A stream became playable: note its file and reset playback tracking.
    pub fn accept_stream_ready(&mut self, file_name: String, stream_url: String)
        ensures
            *final(self) == (App {
                current_file: final(self).current_file,
                streaming_state: StreamingState::Ready { stream_url },
                playback_progress: 0,
                ..*old(self)
            }),
            final(self).current_file@ == file_name@,
    {
        self.current_file = file_name;
        self.streaming_state = StreamingState::Ready { stream_url };
        self.playback_progress = 0;
    }

    /// Record a streaming failure; the session is no longer active.
    pub fn accept_stream_error(&mut self, e: String)
        ensures
            *final(self) == (App {
                streaming_state: StreamingState::Error(e),
                is_streaming: false,
                ..*old(self)
            }),
    {
        self.streaming_state = StreamingState::Error(e);
        self.is_streaming = false;
    }

    /// Replace the download-telemetry record with this tick's sample.
    pub fn accept_progress(&mut self, p: DownloadProgress)
        ensures
            *final(self) == (App { download_progress: p, ..*old(self) }),
    {
        self.download_progress = p;
    }

    /// Record the playback position, in whole percent.
    pub fn accept_playback_progress(&mut self, pct: u64)
        ensures
            *final(self) == (App { playback_progress: pct, ..*old(self) }),
    {
        self.playback_progress = pct;
    }
}

/// A copy of an optional string.
fn clone_opt_string(o: &Option<String>) -> (r: Option<String>)
    ensures
        match r {
            Some(s) => o matches Some(v) && s@ == v@,
            None => o is None,
        },
{
    match o {
        Some(s) => Some(s.clone()),
        None => None,
    }
}

} // verus!
