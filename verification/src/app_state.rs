use crate::actions::{AppAction, AppActionView, AppEvent, BrowserEvent};
use crate::browser_state::{BrowserState, BrowserStateView};
use crate::models::{SongDescription, SongView};
use vstd::prelude::*;

verus! {

/// The active playlist: the songs the player goes through.
#[derive(Debug, PartialEq, Eq)]
pub struct PlaylistState {
    pub songs: Vec<SongDescription>,
}

impl DeepView for PlaylistState {
    type V = Seq<SongView>;

    open spec fn deep_view(&self) -> Seq<SongView> {
        self.songs.deep_view()
    }
}

impl PlaylistState {
    /// An empty playlist.
    pub fn new() -> (playlist: Self)
        ensures
            playlist.deep_view() == Seq::<SongView>::empty(),
    {
        PlaylistState { songs: Vec::new() }
    }

    /// The songs of the playlist, in playing order.
    pub fn songs(&self) -> (songs: &Vec<SongDescription>)
        ensures
            *songs == self.songs,
    {
        &self.songs
    }
}

/// The whole application state.
#[derive(Debug, PartialEq, Eq)]
pub struct AppState {
    pub browser_state: BrowserState,
    pub playlist: PlaylistState,
    /// The song that is playing, whatever screen is on display.
    pub current_song_id: Option<String>,
}

/// The mathematical content of an `AppState`.
pub struct AppStateView {
    pub browser_state: BrowserStateView,
    pub playlist: Seq<SongView>,
    pub current_song_id: Option<Seq<char>>,
}

impl DeepView for AppState {
    type V = AppStateView;

    open spec fn deep_view(&self) -> AppStateView {
        AppStateView {
            browser_state: self.browser_state.deep_view(),
            playlist: self.playlist.deep_view(),
            current_song_id: self.current_song_id.deep_view(),
        }
    }
}

/// The events of the browsing part, as events of the application.
pub open spec fn wrap_browser_events(events: Seq<BrowserEvent>) -> Seq<AppEvent> {
    events.map_values(|event: BrowserEvent| AppEvent::BrowserEvent(event))
}

impl AppStateView {
    /// The state at start: the home screen, an empty playlist, nothing
    /// playing.
    pub open spec fn initial() -> AppStateView {
        AppStateView {
            browser_state: BrowserStateView::initial(),
            playlist: Seq::empty(),
            current_song_id: None,
        }
    }

    /// The state after `action`.
    pub open spec fn reduce(self, action: AppActionView) -> AppStateView {
        match action {
            AppActionView::ViewAlbum(id) => AppStateView {
                browser_state: self.browser_state.view_album(id),
                ..self
            },
            AppActionView::ViewArtist(id) => AppStateView {
                browser_state: self.browser_state.view_artist(id),
                ..self
            },
            AppActionView::LoadPlaylist(songs) => AppStateView { playlist: songs, ..self },
            AppActionView::Load(id) => AppStateView { current_song_id: Some(id), ..self },
            AppActionView::BrowserAction(action) => AppStateView {
                browser_state: self.browser_state.update_with(action),
                ..self
            },
        }
    }

    /// The events that applying `action` to this state emits.
    pub open spec fn events_for(self, action: AppActionView) -> Seq<AppEvent> {
        match action {
            AppActionView::ViewAlbum(_) => seq![
                AppEvent::BrowserEvent(BrowserEvent::NavigationChanged),
            ],
            AppActionView::ViewArtist(_) => seq![
                AppEvent::BrowserEvent(BrowserEvent::NavigationChanged),
            ],
            AppActionView::LoadPlaylist(_) => seq![AppEvent::PlaylistChanged],
            AppActionView::Load(_) => seq![AppEvent::TrackChanged],
            AppActionView::BrowserAction(action) => wrap_browser_events(
                self.browser_state.events_for(action),
            ),
        }
    }

    /// The state after `actions`, applied one after the other from the
    /// first to the last.
    pub open spec fn reduce_all(self, actions: Seq<AppActionView>) -> AppStateView
        decreases actions.len(),
    {
        if actions.len() == 0 {
            self
        } else {
            self.reduce(actions.first()).reduce_all(actions.drop_first())
        }
    }

    /// The events that applying `actions` one after the other emits, in
    /// the order of emission.
    pub open spec fn events_for_all(self, actions: Seq<AppActionView>) -> Seq<AppEvent>
        decreases actions.len(),
    {
        if actions.len() == 0 {
            Seq::empty()
        } else {
            self.events_for(actions.first()) + self.reduce(actions.first()).events_for_all(
                actions.drop_first(),
            )
        }
    }
}

/// Turns the events of the browsing part into events of the application,
/// one for one and in order.
pub fn wrap_events(events: Vec<BrowserEvent>) -> (wrapped: Vec<AppEvent>)
    ensures
        wrapped@ == wrap_browser_events(events@),
{
    let mut wrapped: Vec<AppEvent> = Vec::new();
    let mut i: usize = 0;
    while i < events.len()
        invariant
            i <= events.len(),
            wrapped@ == wrap_browser_events(events@.take(i as int)),
        decreases events.len() - i,
    {
        wrapped.push(AppEvent::BrowserEvent(events[i]));
        i = i + 1;
    }
    wrapped
}

impl AppState {
    /// The state at start.
    pub fn new() -> (state: Self)
        ensures
            state.deep_view() == AppStateView::initial(),
    {
        AppState {
            browser_state: BrowserState::new(),
            playlist: PlaylistState::new(),
            current_song_id: None,
        }
    }

    /// Applies `action` and tells what changed.
    pub fn update_state(&mut self, action: AppAction) -> (events: Vec<AppEvent>)
        ensures
            final(self).deep_view() == old(self).deep_view().reduce(action.deep_view()),
            events@ == old(self).deep_view().events_for(action.deep_view()),
    {
        match action {
            AppAction::ViewAlbum(id) => {
                let events = self.browser_state.view_album(id);
                wrap_events(events)
            },
            AppAction::ViewArtist(id) => {
                let events = self.browser_state.view_artist(id);
                wrap_events(events)
            },
            AppAction::LoadPlaylist(songs) => {
                self.playlist.songs = songs;
                vec![AppEvent::PlaylistChanged]
            },
            AppAction::Load(id) => {
                self.current_song_id = Some(id);
                vec![AppEvent::TrackChanged]
            },
            AppAction::BrowserAction(action) => {
                let events = self.browser_state.update_with(action);
                wrap_events(events)
            },
        }
    }
}

/// One more action at the end of a sequence is applied to the state that
/// the sequence leaves: actions take effect in the order in which they
/// stand.
pub proof fn lemma_reduce_all_push(
    state: AppStateView,
    actions: Seq<AppActionView>,
    action: AppActionView,
)
    ensures
        state.reduce_all(actions.push(action)) == state.reduce_all(actions).reduce(action),
        state.events_for_all(actions.push(action)) == state.events_for_all(actions)
            + state.reduce_all(actions).events_for(action),
    decreases actions.len(),
{
    if actions.len() == 0 {
        let single = actions.push(action);
        let after = state.reduce(action);
        assert(after.reduce_all(single.drop_first()) == after);
        assert(after.events_for_all(single.drop_first()) =~= Seq::empty());
    } else {
        let next = state.reduce(actions.first());
        assert(actions.push(action).drop_first() =~= actions.drop_first().push(action));
        lemma_reduce_all_push(next, actions.drop_first(), action);
    }
}

/// Applying a sequence of actions in two runs, the first part and then the
/// rest, gives what applying it in one run gives.
pub proof fn lemma_reduce_all_concat(
    state: AppStateView,
    first: Seq<AppActionView>,
    rest: Seq<AppActionView>,
)
    ensures
        state.reduce_all(first + rest) == state.reduce_all(first).reduce_all(rest),
        state.events_for_all(first + rest) == state.events_for_all(first) + state.reduce_all(
            first,
        ).events_for_all(rest),
    decreases first.len(),
{
    if first.len() > 0 {
        let next = state.reduce(first.first());
        assert((first + rest).drop_first() =~= first.drop_first() + rest);
        lemma_reduce_all_concat(next, first.drop_first(), rest);
    }
}

} // verus!
