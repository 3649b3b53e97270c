use crate::actions::{BrowserAction, BrowserActionView, BrowserEvent};
use crate::list_store::ListStore;
use crate::models::{AlbumModel, AlbumView, SongDescription, SongView};
use crate::pagination::{Pagination, PaginationView};
use vstd::prelude::*;

verus! {

/// The page size of a releases listing that has not been fetched yet.
pub const DEFAULT_BATCH_SIZE: usize = 20;

/// The screen on display.
#[derive(Debug, PartialEq, Eq)]
pub enum ScreenName {
    Home,
    Artist(String),
    AlbumDetails(String),
}

/// The mathematical content of a `ScreenName`.
pub enum ScreenView {
    Home,
    Artist(Seq<char>),
    AlbumDetails(Seq<char>),
}

impl DeepView for ScreenName {
    type V = ScreenView;

    open spec fn deep_view(&self) -> ScreenView {
        match self {
            ScreenName::Home => ScreenView::Home,
            ScreenName::Artist(id) => ScreenView::Artist(id@),
            ScreenName::AlbumDetails(id) => ScreenView::AlbumDetails(id@),
        }
    }
}

/// What the artist page shows. It changes only when an action is applied
/// to it.
#[derive(Debug, PartialEq, Eq)]
pub struct ArtistState {
    /// The artist's name, once the details have arrived.
    pub artist: Option<String>,
    pub albums: ListStore<AlbumModel>,
    pub top_tracks: Vec<SongDescription>,
    pub next_page: Pagination,
}

/// The mathematical content of an `ArtistState`.
pub struct ArtistStateView {
    pub artist: Option<Seq<char>>,
    pub albums: Seq<AlbumView>,
    pub top_tracks: Seq<SongView>,
    pub next_page: PaginationView,
}

impl DeepView for ArtistState {
    type V = ArtistStateView;

    open spec fn deep_view(&self) -> ArtistStateView {
        ArtistStateView {
            artist: self.artist.deep_view(),
            albums: self.albums.deep_view(),
            top_tracks: self.top_tracks.deep_view(),
            next_page: self.next_page.deep_view(),
        }
    }
}

impl ArtistStateView {
    /// The page of the artist `id` before anything has been fetched: no
    /// name, no releases, no tracks, and nothing to load more of.
    pub open spec fn opened(id: Seq<char>) -> ArtistStateView {
        ArtistStateView {
            artist: None,
            albums: Seq::empty(),
            top_tracks: Seq::empty(),
            next_page: PaginationView {
                data: id,
                batch_size: DEFAULT_BATCH_SIZE as nat,
                next_offset: None,
            },
        }
    }

    /// The page after `action`.
    ///
    /// Fetched details replace what the page showed, cursor included. A
    /// further page of releases goes behind the releases already shown,
    /// and the cursor moves by what came.
    pub open spec fn update_with(self, action: BrowserActionView) -> ArtistStateView {
        match action {
            BrowserActionView::SetArtistDetails(details) => ArtistStateView {
                artist: Some(details.name),
                albums: details.albums,
                top_tracks: details.top_tracks,
                next_page: details.next_page,
            },
            BrowserActionView::AppendArtistReleases(albums) => ArtistStateView {
                artist: self.artist,
                albums: self.albums + albums,
                top_tracks: self.top_tracks,
                next_page: self.next_page.after_page(albums.len()),
            },
        }
    }
}

impl ArtistState {
    /// The page of the artist `id` before anything has been fetched.
    pub fn new(id: String) -> (state: Self)
        ensures
            state.deep_view() == ArtistStateView::opened(id@),
    {
        let state = ArtistState {
            artist: None,
            albums: ListStore::new(),
            top_tracks: Vec::new(),
            next_page: Pagination::exhausted(id, DEFAULT_BATCH_SIZE),
        };
        assert(state.albums.deep_view() =~= Seq::empty());
        assert(state.top_tracks.deep_view() =~= Seq::empty());
        state
    }

    /// Applies `action` to the page and tells what changed.
    pub fn update_with(&mut self, action: BrowserAction) -> (events: Vec<BrowserEvent>)
        ensures
            final(self).deep_view() == old(self).deep_view().update_with(action.deep_view()),
            events@ == seq![BrowserEvent::ArtistDetailsUpdated],
    {
        match action {
            BrowserAction::SetArtistDetails(details) => {
                self.artist = Some(details.name);
                self.albums = ListStore::from_vec(details.albums);
                self.top_tracks = details.top_tracks;
                self.next_page = details.next_page;
            },
            BrowserAction::AppendArtistReleases(albums) => {
                let ghost shown = self.albums.deep_view();
                let ghost fetched = albums.deep_view();
                self.next_page.set_loaded_count(albums.len());
                self.albums.extend(albums);
                assert(self.albums.deep_view() =~= shown + fetched);
            },
        }
        vec![BrowserEvent::ArtistDetailsUpdated]
    }
}

/// The browsing part of the state: the screen on display, and the artist
/// page while one is open.
#[derive(Debug, PartialEq, Eq)]
pub struct BrowserState {
    pub screen: ScreenName,
    pub artist_details: Option<ArtistState>,
}

/// The mathematical content of a `BrowserState`.
pub struct BrowserStateView {
    pub screen: ScreenView,
    pub artist_details: Option<ArtistStateView>,
}

impl DeepView for BrowserState {
    type V = BrowserStateView;

    open spec fn deep_view(&self) -> BrowserStateView {
        BrowserStateView {
            screen: self.screen.deep_view(),
            artist_details: self.artist_details.deep_view(),
        }
    }
}

impl BrowserStateView {
    /// The state at start: the home screen, no artist page.
    pub open spec fn initial() -> BrowserStateView {
        BrowserStateView { screen: ScreenView::Home, artist_details: None }
    }

    /// The state after a move to the page of the artist `id`: a fresh page
    /// takes the place of any earlier one.
    pub open spec fn view_artist(self, id: Seq<char>) -> BrowserStateView {
        BrowserStateView {
            screen: ScreenView::Artist(id),
            artist_details: Some(ArtistStateView::opened(id)),
        }
    }

    /// The state after a move to the album `id`. The artist page, if any,
    /// stays as it is.
    pub open spec fn view_album(self, id: Seq<char>) -> BrowserStateView {
        BrowserStateView { screen: ScreenView::AlbumDetails(id), artist_details: self.artist_details }
    }

    /// The state after `action`. Without an artist page the action has
    /// nothing to apply to and changes nothing.
    pub open spec fn update_with(self, action: BrowserActionView) -> BrowserStateView {
        match self.artist_details {
            Some(page) => BrowserStateView {
                screen: self.screen,
                artist_details: Some(page.update_with(action)),
            },
            None => self,
        }
    }

    /// What `action` changes: the artist details where there is an artist
    /// page, else nothing.
    pub open spec fn events_for(self, action: BrowserActionView) -> Seq<BrowserEvent> {
        match self.artist_details {
            Some(_) => seq![BrowserEvent::ArtistDetailsUpdated],
            None => Seq::empty(),
        }
    }
}

impl BrowserState {
    /// The state at start.
    pub fn new() -> (state: Self)
        ensures
            state.deep_view() == BrowserStateView::initial(),
    {
        BrowserState { screen: ScreenName::Home, artist_details: None }
    }

    /// The artist page, while one is open.
    pub fn artist_state(&self) -> (page: Option<&ArtistState>)
        ensures
            match page {
                Some(p) => self.artist_details == Some(*p),
                None => self.artist_details is None,
            },
    {
        self.artist_details.as_ref()
    }

    /// Moves to the page of the artist `id`.
    pub fn view_artist(&mut self, id: String) -> (events: Vec<BrowserEvent>)
        ensures
            final(self).deep_view() == old(self).deep_view().view_artist(id@),
            events@ == seq![BrowserEvent::NavigationChanged],
    {
        let page = ArtistState::new(id.clone());
        self.screen = ScreenName::Artist(id);
        self.artist_details = Some(page);
        vec![BrowserEvent::NavigationChanged]
    }

    /// Moves to the album `id`.
    pub fn view_album(&mut self, id: String) -> (events: Vec<BrowserEvent>)
        ensures
            final(self).deep_view() == old(self).deep_view().view_album(id@),
            events@ == seq![BrowserEvent::NavigationChanged],
    {
        self.screen = ScreenName::AlbumDetails(id);
        vec![BrowserEvent::NavigationChanged]
    }

    /// Applies `action` and tells what changed.
    pub fn update_with(&mut self, action: BrowserAction) -> (events: Vec<BrowserEvent>)
        ensures
            final(self).deep_view() == old(self).deep_view().update_with(action.deep_view()),
            events@ == old(self).deep_view().events_for(action.deep_view()),
    {
        match &mut self.artist_details {
            Some(page) => page.update_with(action),
            None => Vec::new(),
        }
    }
}

} // verus!
