use crate::models::{
    AlbumModel, AlbumView, ArtistDescription, ArtistView, SongDescription, SongView,
};
use vstd::prelude::*;

verus! {

/// A change to the browsing part of the state.
#[derive(Debug, PartialEq, Eq)]
pub enum BrowserAction {
    /// A freshly fetched artist, with the cursor to its further releases.
    SetArtistDetails(ArtistDescription),
    /// A further page of releases of the artist on display.
    AppendArtistReleases(Vec<AlbumModel>),
}

/// The mathematical content of a `BrowserAction`.
pub enum BrowserActionView {
    SetArtistDetails(ArtistView),
    AppendArtistReleases(Seq<AlbumView>),
}

impl DeepView for BrowserAction {
    type V = BrowserActionView;

    open spec fn deep_view(&self) -> BrowserActionView {
        match self {
            BrowserAction::SetArtistDetails(artist) => BrowserActionView::SetArtistDetails(
                artist.deep_view(),
            ),
            BrowserAction::AppendArtistReleases(albums) => BrowserActionView::AppendArtistReleases(
                albums.deep_view(),
            ),
        }
    }
}

impl Clone for BrowserAction {
    fn clone(&self) -> (copy: Self)
        ensures
            copy.deep_view() == self.deep_view(),
    {
        match self {
            BrowserAction::SetArtistDetails(artist) => BrowserAction::SetArtistDetails(
                artist.clone(),
            ),
            BrowserAction::AppendArtistReleases(albums) => BrowserAction::AppendArtistReleases(
                albums.clone(),
            ),
        }
    }
}

/// An intended change of the application state. Actions are the only way
/// to change it.
#[derive(Debug, PartialEq, Eq)]
pub enum AppAction {
    /// Show the album with this id.
    ViewAlbum(String),
    /// Show the artist with this id.
    ViewArtist(String),
    /// Make these songs the active playlist.
    LoadPlaylist(Vec<SongDescription>),
    /// Play the song with this id.
    Load(String),
    BrowserAction(BrowserAction),
}

/// The mathematical content of an `AppAction`.
pub enum AppActionView {
    ViewAlbum(Seq<char>),
    ViewArtist(Seq<char>),
    LoadPlaylist(Seq<SongView>),
    Load(Seq<char>),
    BrowserAction(BrowserActionView),
}

impl DeepView for AppAction {
    type V = AppActionView;

    open spec fn deep_view(&self) -> AppActionView {
        match self {
            AppAction::ViewAlbum(id) => AppActionView::ViewAlbum(id@),
            AppAction::ViewArtist(id) => AppActionView::ViewArtist(id@),
            AppAction::LoadPlaylist(songs) => AppActionView::LoadPlaylist(songs.deep_view()),
            AppAction::Load(id) => AppActionView::Load(id@),
            AppAction::BrowserAction(action) => AppActionView::BrowserAction(action.deep_view()),
        }
    }
}

impl Clone for AppAction {
    fn clone(&self) -> (copy: Self)
        ensures
            copy.deep_view() == self.deep_view(),
    {
        match self {
            AppAction::ViewAlbum(id) => AppAction::ViewAlbum(id.clone()),
            AppAction::ViewArtist(id) => AppAction::ViewArtist(id.clone()),
            AppAction::LoadPlaylist(songs) => AppAction::LoadPlaylist(songs.clone()),
            AppAction::Load(id) => AppAction::Load(id.clone()),
            AppAction::BrowserAction(action) => AppAction::BrowserAction(action.clone()),
        }
    }
}

/// What changed in the browsing part of the state.
#[derive(Clone, Copy, Debug, PartialEq, Eq, Structural)]
pub enum BrowserEvent {
    NavigationChanged,
    ArtistDetailsUpdated,
}

/// A notice that the state has changed. It tells what changed, not the new
/// values.
#[derive(Clone, Copy, Debug, PartialEq, Eq, Structural)]
pub enum AppEvent {
    PlaylistChanged,
    TrackChanged,
    BrowserEvent(BrowserEvent),
}

} // verus!
