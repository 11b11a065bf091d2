//! The state of the terminal interface: the podcast list, the selected
//! podcast and episode, the focused panel and the show notes.

use vstd::prelude::*;
use crate::podcast::{Episode, EpisodeView, Podcast, PodcastURL, PodcastView};
use crate::scrollable_paragraph::{ScrollableParagraphState, offset_after_scroll_down, trimmed};
use crate::show_notes::{format_episode_description, show_notes_of};
use crate::text::trim_trailing_slashes;

verus! {

/// The panel that takes the keys.
#[derive(Debug, PartialEq, Eq, Clone, Copy, Structural)]
pub enum FocusedPanel {
    Podcasts,
    Episodes,
    ShowNotes,
}

impl Default for FocusedPanel {
    fn default() -> (r: FocusedPanel)
        ensures
            r == FocusedPanel::Podcasts,
    {
        FocusedPanel::Podcasts
    }
}

/// The panel after `p`, going round.
pub open spec fn panel_after(p: FocusedPanel) -> FocusedPanel {
    match p {
        FocusedPanel::Podcasts => FocusedPanel::Episodes,
        FocusedPanel::Episodes => FocusedPanel::ShowNotes,
        FocusedPanel::ShowNotes => FocusedPanel::Podcasts,
    }
}

/// The panel before `p`, going round.
pub open spec fn panel_before(p: FocusedPanel) -> FocusedPanel {
    match p {
        FocusedPanel::Podcasts => FocusedPanel::ShowNotes,
        FocusedPanel::Episodes => FocusedPanel::Podcasts,
        FocusedPanel::ShowNotes => FocusedPanel::Episodes,
    }
}

/// A key the interface reacts to.
#[derive(Debug, PartialEq, Eq, Clone, Copy, Structural)]
pub enum KeyInput {
    Char(char),
    Up,
    Down,
    Left,
    Right,
    Tab,
    BackTab,
    PageUp,
    PageDown,
    Other,
}

/// The show notes for a selection: the selected episode's description, or
/// a hint at what to select.
pub open spec fn notes_for(podcasts: Seq<Podcast>, pi: Option<usize>, ei: Option<usize>) -> Seq<char> {
    match pi {
        Some(i) if i < podcasts.len() => match ei {
            Some(j) if j < podcasts[i as int]@.episodes.len() => show_notes_of(
                podcasts[i as int]@.episodes[j as int].description,
            ),
            _ => "Select an episode to see its show notes."@,
        },
        _ => "Select a podcast and then an episode to see show notes."@,
    }
}

/// The episode selection that goes with selecting podcast `i`: the first
/// episode, if it has any.
pub open spec fn first_episode_of(podcasts: Seq<Podcast>, i: int) -> Option<usize> {
    if podcasts[i]@.episodes.len() > 0 {
        Some(0usize)
    } else {
        None
    }
}

/// The episode selection after moving down in a list of `n` episodes:
/// the next one, staying on the last; the first where none was selected.
pub open spec fn episode_after(sel: Option<usize>, n: nat) -> Option<usize> {
    if n == 0 {
        None
    } else {
        match sel {
            Some(j) => if j + 1 < n {
                Some((j + 1) as usize)
            } else {
                Some(j)
            },
            None => Some(0usize),
        }
    }
}

/// The episode selection after moving up in a list of `n` episodes: the
/// previous one, staying on the first; the first where none was selected.
pub open spec fn episode_before(sel: Option<usize>, n: nat) -> Option<usize> {
    if n == 0 {
        None
    } else {
        match sel {
            Some(j) => if j > 0 {
                Some((j - 1) as usize)
            } else {
                Some(j)
            },
            None => Some(0usize),
        }
    }
}

/// The state of the interface.
pub struct App {
    pub should_quit: bool,
    pub podcasts: Vec<Podcast>,
    pub selected_podcast_index: Option<usize>,
    /// The selected episode of the selected podcast; the episode list
    /// shows the same selection.
    pub selected_episode_index: Option<usize>,
    /// The first row that the episode list shows.
    pub episodes_list_offset: usize,
    pub playing_episode: Option<(String, String)>,
    pub focused_panel: FocusedPanel,
    pub show_notes_state: ScrollableParagraphState,
}

impl App {
    /// The selections point into the lists.
    pub open spec fn wf(&self) -> bool {
        &&& self.selected_podcast_index matches Some(i) ==> i < self.podcasts@.len()
        &&& self.selected_episode_index matches Some(j) ==> (self.selected_podcast_index matches Some(
            i,
        ) && i < self.podcasts@.len() && j < self.podcasts@[i as int]@.episodes.len())
    }

    /// The show notes fit the selection.
    pub open spec fn notes_current(&self) -> bool {
        self.show_notes_state.content@ == trimmed(
            notes_for(self.podcasts@, self.selected_podcast_index, self.selected_episode_index),
        ) && self.show_notes_state.scroll_offset_vertical == 0
    }

    /// An interface with no podcast yet.
    pub fn new() -> (r: App)
        ensures
            r.wf(),
            r.notes_current(),
            !r.should_quit,
            r.podcasts@.len() == 0,
            r.selected_podcast_index is None,
            r.selected_episode_index is None,
            r.focused_panel == FocusedPanel::Podcasts,
            r.playing_episode is None,
    {
        let mut app = App {
            should_quit: false,
            podcasts: Vec::new(),
            selected_podcast_index: None,
            selected_episode_index: None,
            episodes_list_offset: 0,
            playing_episode: None,
            focused_panel: FocusedPanel::default(),
            show_notes_state: ScrollableParagraphState::new(String::new()),
        };
        app.select_first_podcast();
        app
    }

    /// Adds a podcast unless one with an equal URL is there; the first
    /// podcast added is selected.
    pub fn add_podcast(&mut self, podcast: Podcast)
        requires
            old(self).wf(),
        ensures
            final(self).wf(),
            (exists|k: int|
                0 <= k < old(self).podcasts@.len() && trim_trailing_slashes(
                    #[trigger] old(self).podcasts@[k]@.url,
                ) == trim_trailing_slashes(podcast@.url)) ==> final(self).podcasts@ == old(
                self,
            ).podcasts@,
            !(exists|k: int|
                0 <= k < old(self).podcasts@.len() && trim_trailing_slashes(
                    #[trigger] old(self).podcasts@[k]@.url,
                ) == trim_trailing_slashes(podcast@.url)) ==> final(self).podcasts@ == old(
                self,
            ).podcasts@.push(podcast),
            old(self).podcasts@.len() > 0 ==> final(self).selected_podcast_index == old(
                self,
            ).selected_podcast_index && final(self).selected_episode_index == old(
                self,
            ).selected_episode_index,
            old(self).podcasts@.len() == 0 ==> final(self).selected_podcast_index == Some(0usize)
                && final(self).selected_episode_index == first_episode_of(final(self).podcasts@, 0),
    {
        let mut k: usize = 0;
        while k < self.podcasts.len()
            invariant
                old(self).wf(),
                k <= self.podcasts@.len(),
                self == old(self),
                forall|m: int|
                    0 <= m < k ==> trim_trailing_slashes(#[trigger] self.podcasts@[m]@.url)
                        != trim_trailing_slashes(podcast@.url),
            decreases self.podcasts@.len() - k,
        {
            if self.podcasts[k].url() == podcast.url() {
                return;
            }
            k = k + 1;
        }
        let was_empty = self.podcasts.len() == 0;
        self.podcasts.push(podcast);
        if was_empty {
            self.select_first_podcast();
        }
    }

    /// Selects the first podcast and its first episode, or nothing when
    /// there is no podcast; the podcast panel takes the focus.
    pub fn select_first_podcast(&mut self)
        ensures
            final(self).wf(),
            final(self).notes_current(),
            final(self).podcasts == old(self).podcasts,
            final(self).should_quit == old(self).should_quit,
            final(self).playing_episode == old(self).playing_episode,
            final(self).focused_panel == FocusedPanel::Podcasts,
            final(self).episodes_list_offset == 0,
            old(self).podcasts@.len() == 0 ==> final(self).selected_podcast_index is None
                && final(self).selected_episode_index is None,
            old(self).podcasts@.len() > 0 ==> final(self).selected_podcast_index == Some(0usize)
                && final(self).selected_episode_index == first_episode_of(old(self).podcasts@, 0),
    {
        if self.podcasts.len() > 0 {
            self.selected_podcast_index = Some(0);
            if self.podcasts[0].episodes().len() > 0 {
                self.selected_episode_index = Some(0);
            } else {
                self.selected_episode_index = None;
            }
        } else {
            self.selected_podcast_index = None;
            self.selected_episode_index = None;
        }
        self.episodes_list_offset = 0;
        self.focused_panel = FocusedPanel::Podcasts;
        self.update_show_notes_content();
    }

    /// Puts the show notes of the selection into the show-notes panel.
    fn update_show_notes_content(&mut self)
        requires
            old(self).wf(),
        ensures
            final(self).wf(),
            final(self).notes_current(),
            final(self).podcasts == old(self).podcasts,
            final(self).selected_podcast_index == old(self).selected_podcast_index,
            final(self).selected_episode_index == old(self).selected_episode_index,
            final(self).episodes_list_offset == old(self).episodes_list_offset,
            final(self).should_quit == old(self).should_quit,
            final(self).playing_episode == old(self).playing_episode,
            final(self).focused_panel == old(self).focused_panel,
    {
        let new_content: String = match self.selected_podcast_index {
            Some(i) => match self.selected_episode_index {
                Some(j) => {
                    let eps = self.podcasts[i].episodes();
                    proof {
                        assert(eps@.len() == self.podcasts@[i as int]@.episodes.len());
                        assert(eps@[j as int]@ == self.podcasts@[i as int]@.episodes[j as int]);
                    }
                    format_episode_description(eps[j].description())
                },
                None => "Select an episode to see its show notes.".to_string(),
            },
            None => "Select a podcast and then an episode to see show notes.".to_string(),
        };
        self.show_notes_state.set_content(new_content);
    }

    /// Moves the focus to the next panel, going round.
    pub fn focus_next_panel(&mut self)
        ensures
            old(self).wf() ==> final(self).wf(),
            final(self).focused_panel == panel_after(old(self).focused_panel),
            final(self).should_quit == old(self).should_quit,
            final(self).podcasts == old(self).podcasts,
            final(self).selected_podcast_index == old(self).selected_podcast_index,
            final(self).selected_episode_index == old(self).selected_episode_index,
            final(self).show_notes_state == old(self).show_notes_state,
    {
        self.focused_panel = match self.focused_panel {
            FocusedPanel::Podcasts => FocusedPanel::Episodes,
            FocusedPanel::Episodes => FocusedPanel::ShowNotes,
            FocusedPanel::ShowNotes => FocusedPanel::Podcasts,
        };
    }

    /// Moves the focus to the previous panel, going round.
    pub fn focus_prev_panel(&mut self)
        ensures
            old(self).wf() ==> final(self).wf(),
            final(self).focused_panel == panel_before(old(self).focused_panel),
            final(self).should_quit == old(self).should_quit,
            final(self).podcasts == old(self).podcasts,
            final(self).selected_podcast_index == old(self).selected_podcast_index,
            final(self).selected_episode_index == old(self).selected_episode_index,
            final(self).show_notes_state == old(self).show_notes_state,
    {
        self.focused_panel = match self.focused_panel {
            FocusedPanel::Podcasts => FocusedPanel::ShowNotes,
            FocusedPanel::Episodes => FocusedPanel::Podcasts,
            FocusedPanel::ShowNotes => FocusedPanel::Episodes,
        };
    }

    /// Selects podcast `i` with its first episode, from the top of the
    /// episode list.
    fn select_podcast_at(&mut self, i: usize)
        requires
            i < old(self).podcasts@.len(),
        ensures
            final(self).wf(),
            final(self).notes_current(),
            final(self).podcasts == old(self).podcasts,
            final(self).selected_podcast_index == Some(i),
            final(self).selected_episode_index == first_episode_of(old(self).podcasts@, i as int),
            final(self).episodes_list_offset == 0,
            final(self).should_quit == old(self).should_quit,
            final(self).focused_panel == old(self).focused_panel,
    {
        self.selected_podcast_index = Some(i);
        self.selected_episode_index = None;
        self.episodes_list_offset = 0;
        if self.podcasts[i].episodes().len() > 0 {
            self.selected_episode_index = Some(0);
        }
        self.update_show_notes_content();
    }

    /// Clears every selection.
    fn clear_selection(&mut self)
        ensures
            final(self).wf(),
            final(self).notes_current(),
            final(self).podcasts == old(self).podcasts,
            final(self).selected_podcast_index is None,
            final(self).selected_episode_index is None,
            final(self).episodes_list_offset == 0,
            final(self).should_quit == old(self).should_quit,
            final(self).focused_panel == old(self).focused_panel,
    {
        self.selected_podcast_index = None;
        self.selected_episode_index = None;
        self.episodes_list_offset = 0;
        self.update_show_notes_content();
    }

    /// Selects the next podcast, staying on the last; the first where none
    /// was selected.
    pub fn select_next_podcast(&mut self)
        requires
            old(self).wf(),
        ensures
            final(self).should_quit == old(self).should_quit,
            final(self).wf(),
            final(self).notes_current(),
            final(self).podcasts == old(self).podcasts,
            final(self).focused_panel == old(self).focused_panel,
            old(self).podcasts@.len() == 0 ==> final(self).selected_podcast_index is None,
            old(self).podcasts@.len() > 0 ==> final(self).selected_podcast_index == Some(
                match old(self).selected_podcast_index {
                    Some(i) => if i + 1 < old(self).podcasts@.len() {
                        (i + 1) as usize
                    } else {
                        i
                    },
                    None => 0usize,
                },
            ) && final(self).selected_episode_index == first_episode_of(
                old(self).podcasts@,
                final(self).selected_podcast_index->0 as int,
            ),
    {
        if self.podcasts.len() == 0 {
            self.clear_selection();
            return;
        }
        let max_index: usize = self.podcasts.len() - 1;
        let new_idx: usize = match self.selected_podcast_index {
            Some(i) => if i < max_index {
                i + 1
            } else {
                i
            },
            None => 0,
        };
        self.select_podcast_at(new_idx);
    }

    /// Selects the previous podcast, staying on the first; the first where
    /// none was selected.
    pub fn select_prev_podcast(&mut self)
        requires
            old(self).wf(),
        ensures
            final(self).should_quit == old(self).should_quit,
            final(self).wf(),
            final(self).notes_current(),
            final(self).podcasts == old(self).podcasts,
            final(self).focused_panel == old(self).focused_panel,
            old(self).podcasts@.len() == 0 ==> final(self).selected_podcast_index is None,
            old(self).podcasts@.len() > 0 ==> final(self).selected_podcast_index == Some(
                match old(self).selected_podcast_index {
                    Some(i) => if i > 0 {
                        (i - 1) as usize
                    } else {
                        i
                    },
                    None => 0usize,
                },
            ) && final(self).selected_episode_index == first_episode_of(
                old(self).podcasts@,
                final(self).selected_podcast_index->0 as int,
            ),
    {
        if self.podcasts.len() == 0 {
            self.clear_selection();
            return;
        }
        let new_idx: usize = match self.selected_podcast_index {
            Some(i) => if i > 0 {
                i - 1
            } else {
                i
            },
            None => 0,
        };
        self.select_podcast_at(new_idx);
    }

    /// The number of episodes of the selected podcast, if one is selected.
    fn selected_episode_count(&self) -> (r: Option<usize>)
        requires
            self.wf(),
        ensures
            match self.selected_podcast_index {
                Some(i) => r matches Some(k) && k == self.podcasts@[i as int]@.episodes.len(),
                None => r is None,
            },
    {
        match self.selected_podcast_index {
            Some(i) => {
                let eps = self.podcasts[i].episodes();
                proof {
                    assert(eps@.len() == self.podcasts@[i as int]@.episodes.len());
                }
                Some(eps.len())
            },
            None => None,
        }
    }

    /// Selects the next episode of the selected podcast, staying on the
    /// last; the first where none was selected.
    pub fn select_next_episode(&mut self)
        requires
            old(self).wf(),
        ensures
            final(self).should_quit == old(self).should_quit,
            final(self).wf(),
            final(self).notes_current(),
            final(self).podcasts == old(self).podcasts,
            final(self).selected_podcast_index == old(self).selected_podcast_index,
            final(self).focused_panel == old(self).focused_panel,
            final(self).selected_episode_index == match old(self).selected_podcast_index {
                None => None,
                Some(i) => episode_after(
                    old(self).selected_episode_index,
                    old(self).podcasts@[i as int]@.episodes.len(),
                ),
            },
    {
        match self.selected_episode_count() {
            None => {
                self.selected_episode_index = None;
            },
            Some(n) => {
                if n == 0 {
                    self.selected_episode_index = None;
                } else {
                    let new_idx: usize = match self.selected_episode_index {
                        Some(j) => if j < n - 1 {
                            j + 1
                        } else {
                            j
                        },
                        None => 0,
                    };
                    self.selected_episode_index = Some(new_idx);
                }
            },
        }
        self.update_show_notes_content();
    }

    /// Selects the previous episode of the selected podcast, staying on the
    /// first; the first where none was selected.
    pub fn select_prev_episode(&mut self)
        requires
            old(self).wf(),
        ensures
            final(self).should_quit == old(self).should_quit,
            final(self).wf(),
            final(self).notes_current(),
            final(self).podcasts == old(self).podcasts,
            final(self).selected_podcast_index == old(self).selected_podcast_index,
            final(self).focused_panel == old(self).focused_panel,
            final(self).selected_episode_index == match old(self).selected_podcast_index {
                None => None,
                Some(i) => episode_before(
                    old(self).selected_episode_index,
                    old(self).podcasts@[i as int]@.episodes.len(),
                ),
            },
    {
        match self.selected_episode_count() {
            None => {
                self.selected_episode_index = None;
            },
            Some(n) => {
                if n == 0 {
                    self.selected_episode_index = None;
                } else {
                    let new_idx: usize = match self.selected_episode_index {
                        Some(j) => if j > 0 {
                            j - 1
                        } else {
                            j
                        },
                        None => 0,
                    };
                    self.selected_episode_index = Some(new_idx);
                }
            },
        }
        self.update_show_notes_content();
    }

    /// Moves down in the focused list; the show notes do not move.
    pub fn select_next_item_in_focused_list(&mut self)
        requires
            old(self).wf(),
        ensures
            final(self).should_quit == old(self).should_quit,
            final(self).wf(),
            final(self).podcasts == old(self).podcasts,
            final(self).focused_panel == old(self).focused_panel,
            old(self).focused_panel == FocusedPanel::ShowNotes ==> *final(self) == *old(self),
    {
        match self.focused_panel {
            FocusedPanel::Podcasts => self.select_next_podcast(),
            FocusedPanel::Episodes => self.select_next_episode(),
            FocusedPanel::ShowNotes => {},
        }
    }

    /// Moves up in the focused list; the show notes do not move.
    pub fn select_prev_item_in_focused_list(&mut self)
        requires
            old(self).wf(),
        ensures
            final(self).should_quit == old(self).should_quit,
            final(self).wf(),
            final(self).podcasts == old(self).podcasts,
            final(self).focused_panel == old(self).focused_panel,
            old(self).focused_panel == FocusedPanel::ShowNotes ==> *final(self) == *old(self),
    {
        match self.focused_panel {
            FocusedPanel::Podcasts => self.select_prev_podcast(),
            FocusedPanel::Episodes => self.select_prev_episode(),
            FocusedPanel::ShowNotes => {},
        }
    }

    pub fn scroll_show_notes_up_action(&mut self)
        ensures
            old(self).wf() ==> final(self).wf(),
            final(self).should_quit == old(self).should_quit,
            final(self).show_notes_state.scroll_offset_vertical == if old(
                self,
            ).show_notes_state.scroll_offset_vertical > 1 {
                old(self).show_notes_state.scroll_offset_vertical - 1
            } else {
                0
            },
            final(self).podcasts == old(self).podcasts,
            final(self).selected_podcast_index == old(self).selected_podcast_index,
            final(self).selected_episode_index == old(self).selected_episode_index,
    {
        self.show_notes_state.scroll_up(1);
    }

    pub fn scroll_show_notes_down_action(&mut self)
        ensures
            final(self).show_notes_state.scroll_offset_vertical == offset_after_scroll_down(
                old(self).show_notes_state,
                1,
            ),
            old(self).wf() ==> final(self).wf(),
            final(self).should_quit == old(self).should_quit,
            final(self).podcasts == old(self).podcasts,
            final(self).selected_podcast_index == old(self).selected_podcast_index,
            final(self).selected_episode_index == old(self).selected_episode_index,
            final(self).show_notes_state.content == old(self).show_notes_state.content,
    {
        self.show_notes_state.scroll_down(1);
    }

    pub fn page_up_show_notes_action(&mut self)
        ensures
            old(self).wf() ==> final(self).wf(),
            final(self).should_quit == old(self).should_quit,
            final(self).show_notes_state.scroll_offset_vertical == if old(
                self,
            ).show_notes_state.scroll_offset_vertical > 5 {
                old(self).show_notes_state.scroll_offset_vertical - 5
            } else {
                0
            },
            final(self).podcasts == old(self).podcasts,
            final(self).selected_podcast_index == old(self).selected_podcast_index,
            final(self).selected_episode_index == old(self).selected_episode_index,
    {
        self.show_notes_state.scroll_up(5);
    }

    pub fn page_down_show_notes_action(&mut self)
        ensures
            final(self).show_notes_state.scroll_offset_vertical == offset_after_scroll_down(
                old(self).show_notes_state,
                5,
            ),
            old(self).wf() ==> final(self).wf(),
            final(self).should_quit == old(self).should_quit,
            final(self).podcasts == old(self).podcasts,
            final(self).selected_podcast_index == old(self).selected_podcast_index,
            final(self).selected_episode_index == old(self).selected_episode_index,
            final(self).show_notes_state.content == old(self).show_notes_state.content,
    {
        self.show_notes_state.scroll_down(5);
    }

    /// Reacts to a key: 'q' quits; the arrows move in the focused panel or
    /// between panels; Tab and BackTab move between panels.
    pub fn on_key(&mut self, key: KeyInput)
        requires
            old(self).wf(),
        ensures
            final(self).wf(),
            final(self).podcasts == old(self).podcasts,
            final(self).should_quit == (old(self).should_quit || key == KeyInput::Char('q')),
            key == KeyInput::Right || key == KeyInput::Tab ==> final(self).focused_panel
                == panel_after(old(self).focused_panel),
            key == KeyInput::Left || key == KeyInput::BackTab ==> final(self).focused_panel
                == panel_before(old(self).focused_panel),
    {
        if key == KeyInput::Char('q') {
            self.should_quit = true;
            return;
        }
        match key {
            KeyInput::Right | KeyInput::Tab => self.focus_next_panel(),
            KeyInput::Left | KeyInput::BackTab => self.focus_prev_panel(),
            KeyInput::Down => match self.focused_panel {
                FocusedPanel::Podcasts => self.select_next_podcast(),
                FocusedPanel::Episodes => self.select_next_episode(),
                FocusedPanel::ShowNotes => self.scroll_show_notes_down_action(),
            },
            KeyInput::Up => match self.focused_panel {
                FocusedPanel::Podcasts => self.select_prev_podcast(),
                FocusedPanel::Episodes => self.select_prev_episode(),
                FocusedPanel::ShowNotes => self.scroll_show_notes_up_action(),
            },
            KeyInput::PageDown => {
                if self.focused_panel == FocusedPanel::ShowNotes {
                    self.page_down_show_notes_action();
                }
            },
            KeyInput::PageUp => {
                if self.focused_panel == FocusedPanel::ShowNotes {
                    self.page_up_show_notes_action();
                }
            },
            _ => {},
        }
    }

    /// The selected podcast.
    pub fn selected_podcast(&self) -> (r: Option<&Podcast>)
        requires
            self.wf(),
        ensures
            match self.selected_podcast_index {
                Some(i) => r == Some(&self.podcasts@[i as int]),
                None => r is None,
            },
    {
        match self.selected_podcast_index {
            Some(i) => Some(&self.podcasts[i]),
            None => None,
        }
    }

    /// The selected episode of the selected podcast.
    pub fn selected_episode(&self) -> (r: Option<&Episode>)
        requires
            self.wf(),
        ensures
            match (self.selected_podcast_index, self.selected_episode_index) {
                (Some(i), Some(j)) => r matches Some(e) && e@ == self.podcasts@[i as int]@.episodes[j as int],
                _ => r is None,
            },
    {
        match (self.selected_podcast_index, self.selected_episode_index) {
            (Some(i), Some(j)) => {
                let eps = self.podcasts[i].episodes();
                proof {
                    assert(eps@.len() == self.podcasts@[i as int]@.episodes.len());
                    assert(eps@[j as int]@ == self.podcasts@[i as int]@.episodes[j as int]);
                }
                Some(&eps[j])
            },
            _ => None,
        }
    }

    /// Adds a podcast without episodes, for trying the interface out.
    pub fn load_test_podcast(&mut self)
        requires
            old(self).wf(),
        ensures
            final(self).wf(),
    {
        let test_podcast = Podcast::new(
            PodcastURL::new("http://example.com/feed"),
            "Test Podcast".to_string(),
            Some("A test podcast".to_string()),
            None,
            None,
            Vec::new(),
        );
        self.add_podcast(test_podcast);
    }
}

} // verus!
