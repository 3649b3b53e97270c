use crate::actions::{
    AppAction, AppActionView, AppEvent, BrowserAction, BrowserActionView, BrowserEvent,
};
use crate::api::{handle_error, ApiError, ApiRequest, ApiRequestView};
use crate::app_model::AppModel;
use crate::app_state::{AppState, AppStateView};
use crate::dispatcher::{completed, ActionDispatcher};
use crate::list_store::ListStore;
use crate::models::{
    AlbumModel, AlbumView, ArtistDescription, ArtistView, SongDescription, SongView,
};
use crate::playlist_model::{
    contains_song, play_actions, PlaylistModel, SongAction, SongActionView, SongMenuItem,
    SongMenuItemView,
};
use vstd::prelude::*;

verus! {

/// The name of the artist on display, once the details have arrived.
pub open spec fn artist_name(state: AppStateView) -> Option<Seq<char>> {
    match state.browser_state.artist_details {
        Some(page) => page.artist,
        None => None,
    }
}

/// The releases that the artist page lists, while there is an artist page.
pub open spec fn artist_albums(state: AppStateView) -> Option<Seq<AlbumView>> {
    match state.browser_state.artist_details {
        Some(page) => Some(page.albums),
        None => None,
    }
}

/// The top tracks that the artist page lists, while there is an artist
/// page.
pub open spec fn artist_top_tracks(state: AppStateView) -> Option<Seq<SongView>> {
    match state.browser_state.artist_details {
        Some(page) => Some(page.top_tracks),
        None => None,
    }
}

/// The fetch that brings the next page of releases: one page of the
/// cursor's batch size, from the cursor's next offset on. There is none
/// without an artist page, and none once the cursor is exhausted.
pub open spec fn next_page_request(state: AppStateView) -> Option<ApiRequestView> {
    match state.browser_state.artist_details {
        Some(page) => match page.next_page.next_offset {
            Some(offset) => Some(
                ApiRequestView::ArtistAlbums {
                    id: page.next_page.data,
                    offset,
                    batch_size: page.next_page.batch_size,
                },
            ),
            None => None,
        },
        None => None,
    }
}

/// The action that the outcome of a fetch of artist details produces: the
/// details are to be set where the fetch succeeded, and nothing is to
/// happen where it failed.
pub open spec fn artist_outcome(result: Result<ArtistView, ApiError>) -> Option<AppActionView> {
    match result {
        Ok(artist) => Some(AppActionView::BrowserAction(BrowserActionView::SetArtistDetails(artist))),
        Err(_) => None,
    }
}

/// The action that the outcome of a fetch of a page of releases produces:
/// the page is to be appended where the fetch succeeded, and nothing is to
/// happen where it failed.
pub open spec fn releases_outcome(result: Result<Seq<AlbumView>, ApiError>) -> Option<
    AppActionView,
> {
    match result {
        Ok(albums) => Some(
            AppActionView::BrowserAction(BrowserActionView::AppendArtistReleases(albums)),
        ),
        Err(_) => None,
    }
}

/// The view-model of the artist details screen. It reads the state of the
/// store it was made for, and hands every change it wants to its
/// dispatcher; it never changes the state itself.
pub struct ArtistDetailsModel<'a> {
    app_model: &'a AppModel,
    dispatcher: ActionDispatcher,
}

fn project_artist_name(state: &AppState) -> (name: Option<&String>)
    ensures
        name.deep_view() == artist_name(state.deep_view()),
{
    state.browser_state.artist_state()?.artist.as_ref()
}

fn project_albums(state: &AppState) -> (albums: Option<&ListStore<AlbumModel>>)
    ensures
        albums.deep_view() == artist_albums(state.deep_view()),
{
    Some(&state.browser_state.artist_state()?.albums)
}

fn project_top_tracks(state: &AppState) -> (tracks: Option<&Vec<SongDescription>>)
    ensures
        tracks.deep_view() == artist_top_tracks(state.deep_view()),
{
    Some(&state.browser_state.artist_state()?.top_tracks)
}

impl<'a> ArtistDetailsModel<'a> {
    /// The application state that this view-model reads.
    pub closed spec fn state(&self) -> AppStateView {
        self.app_model.deep_view()
    }

    /// The actions dispatched and not yet taken out, oldest first.
    pub closed spec fn pending(&self) -> Seq<AppActionView> {
        self.dispatcher.pending()
    }

    /// The fetches scheduled and not yet taken out, oldest first.
    pub closed spec fn scheduled(&self) -> Seq<ApiRequestView> {
        self.dispatcher.scheduled()
    }

    /// A view-model that reads `app_model` and dispatches through
    /// `dispatcher`.
    pub fn new(app_model: &'a AppModel, dispatcher: ActionDispatcher) -> (model: Self)
        ensures
            model.state() == app_model.deep_view(),
            model.pending() == dispatcher.pending(),
            model.scheduled() == dispatcher.scheduled(),
    {
        Self { app_model, dispatcher }
    }

    /// Gives up the view-model, and with it its borrow of the store, and
    /// returns the dispatcher with all that it holds.
    pub fn into_dispatcher(self) -> (dispatcher: ActionDispatcher)
        ensures
            dispatcher.pending() == self.pending(),
            dispatcher.scheduled() == self.scheduled(),
    {
        self.dispatcher
    }

    /// The name of the artist, or nothing before the details have arrived.
    pub fn get_artist_name(&self) -> (name: Option<&String>)
        ensures
            name.deep_view() == artist_name(self.state()),
    {
        self.app_model.map_state_opt(project_artist_name)
    }

    /// The list of releases to display, or nothing while there is no
    /// artist page.
    pub fn get_list_store(&self) -> (albums: Option<&ListStore<AlbumModel>>)
        ensures
            albums.deep_view() == artist_albums(self.state()),
    {
        self.app_model.map_state_opt(project_albums)
    }

    /// Starts the fetch of the details of the artist `id`. Nothing else
    /// happens until the fetch completes.
    pub fn load_artist_details(&mut self, id: String)
        ensures
            final(self).scheduled() == old(self).scheduled().push(ApiRequestView::Artist { id: id@ }),
            final(self).pending() == old(self).pending(),
            final(self).state() == old(self).state(),
    {
        self.dispatcher.dispatch_async(ApiRequest::Artist { id });
    }

    /// The action that a completed fetch of artist details produces.
    pub fn artist_loaded(result: Result<ArtistDescription, ApiError>) -> (action: Option<AppAction>)
        ensures
            action.deep_view() == artist_outcome(
                match result {
                    Ok(artist) => Ok(artist.deep_view()),
                    Err(err) => Err(err),
                },
            ),
    {
        match result {
            Ok(artist) => Some(AppAction::BrowserAction(BrowserAction::SetArtistDetails(artist))),
            Err(err) => handle_error(err),
        }
    }

    /// Asks for the album `id` to be shown.
    pub fn open_album(&mut self, id: &str)
        ensures
            final(self).pending() == old(self).pending().push(AppActionView::ViewAlbum(id@)),
            final(self).scheduled() == old(self).scheduled(),
            final(self).state() == old(self).state(),
    {
        self.dispatcher.dispatch(AppAction::ViewAlbum(id.to_owned()));
    }

    /// Starts the fetch of the next page of releases, and tells whether it
    /// did: where there is no artist page, or no further page, nothing is
    /// fetched and nothing is returned.
    pub fn load_more(&mut self) -> (started: Option<()>)
        ensures
            match next_page_request(old(self).state()) {
                Some(request) => started == Some(()) && final(self).scheduled() == old(
                    self,
                ).scheduled().push(request),
                None => started is None && final(self).scheduled() == old(self).scheduled(),
            },
            final(self).pending() == old(self).pending(),
            final(self).state() == old(self).state(),
    {
        let state = self.app_model.get_state();
        let next_page = &state.browser_state.artist_state()?.next_page;

        let id = next_page.data.clone();
        let batch_size = next_page.batch_size;
        let offset = next_page.next_offset?;

        self.dispatcher.dispatch_async(ApiRequest::ArtistAlbums { id, offset, batch_size });

        Some(())
    }

    /// The action that a completed fetch of a page of releases produces.
    pub fn releases_loaded(result: Result<Vec<AlbumModel>, ApiError>) -> (action: Option<AppAction>)
        ensures
            action.deep_view() == releases_outcome(
                match result {
                    Ok(albums) => Ok(albums.deep_view()),
                    Err(err) => Err(err),
                },
            ),
    {
        match result {
            Ok(albums) => Some(AppAction::BrowserAction(BrowserAction::AppendArtistReleases(albums))),
            Err(err) => handle_error(err),
        }
    }
}

impl<'a> PlaylistModel for ArtistDetailsModel<'a> {
    open spec fn app_state(&self) -> AppStateView {
        self.state()
    }

    open spec fn dispatched(&self) -> Seq<AppActionView> {
        self.pending()
    }

    open spec fn context_songs(&self) -> Option<Seq<SongView>> {
        artist_top_tracks(self.state())
    }

    open spec fn refreshes_on(&self, event: AppEvent) -> bool {
        event == AppEvent::BrowserEvent(BrowserEvent::ArtistDetailsUpdated)
    }

    open spec fn offered_actions(&self, id: Seq<char>) -> Option<Seq<SongActionView>> {
        None
    }

    open spec fn offered_menu(&self, id: Seq<char>) -> Option<Seq<SongMenuItemView>> {
        None
    }

    fn songs(&self) -> (songs: Option<&Vec<SongDescription>>) {
        self.app_model.map_state_opt(project_top_tracks)
    }

    fn current_song_id(&self) -> (id: Option<String>) {
        self.app_model.get_state().current_song_id.clone()
    }

    fn play_song(&mut self, id: String)
        ensures
            final(self).scheduled() == old(self).scheduled(),
    {
        let full_state = self.app_model.get_state();
        let is_in_playlist = contains_song(full_state.playlist.songs(), &id);
        let own_songs = match self.songs() {
            Some(songs) if !is_in_playlist => Some(songs.clone()),
            _ => None,
        };
        if let Some(songs) = own_songs {
            self.dispatcher.dispatch(AppAction::LoadPlaylist(songs));
        }
        self.dispatcher.dispatch(AppAction::Load(id));
    }

    fn should_refresh_songs(&self, event: &AppEvent) -> (refresh: bool)
        ensures
            refresh == (*event == AppEvent::BrowserEvent(BrowserEvent::ArtistDetailsUpdated)),
    {
        match event {
            AppEvent::BrowserEvent(BrowserEvent::ArtistDetailsUpdated) => true,
            _ => false,
        }
    }

    fn actions_for(&self, _id: String) -> (actions: Option<Vec<SongAction>>)
        ensures
            actions is None,
    {
        None
    }

    fn menu_for(&self, _id: String) -> (menu: Option<Vec<SongMenuItem>>)
        ensures
            menu is None,
    {
        None
    }
}

/// Where the next page comes from: there is a page to fetch exactly where
/// there is an artist page whose cursor has a next offset, and the fetch is
/// for one batch from that offset on. An exhausted cursor asks for nothing.
pub proof fn lemma_next_page_request(state: AppStateView)
    ensures
        next_page_request(state) is Some <==> state.browser_state.artist_details is Some
            && state.browser_state.artist_details.unwrap().next_page.next_offset is Some,
        next_page_request(state) is Some ==> {
            let cursor = state.browser_state.artist_details.unwrap().next_page;
            next_page_request(state) == Some(
                ApiRequestView::ArtistAlbums {
                    id: cursor.data,
                    offset: cursor.next_offset.unwrap(),
                    batch_size: cursor.batch_size,
                },
            )
        },
{
}

/// A fetched page of releases goes behind the releases already listed, as
/// it came: nothing is reordered and nothing is dropped. The cursor moves
/// by what came, and the rest of the state stays as it is.
pub proof fn lemma_loaded_page_is_appended(state: AppStateView, fetched: Seq<AlbumView>)
    requires
        state.browser_state.artist_details is Some,
    ensures
        releases_outcome(Ok(fetched)) is Some,
        ({
            let page = state.browser_state.artist_details.unwrap();
            let after = state.reduce(releases_outcome(Ok(fetched)).unwrap());
            &&& artist_albums(after) == Some(page.albums + fetched)
            &&& after.browser_state.artist_details.unwrap().next_page == page.next_page.after_page(
                fetched.len(),
            )
            &&& artist_name(after) == artist_name(state)
            &&& artist_top_tracks(after) == artist_top_tracks(state)
            &&& after.browser_state.screen == state.browser_state.screen
            &&& after.playlist == state.playlist
            &&& after.current_song_id == state.current_song_id
        }),
{
}

/// A fetch that failed produces no action, so that completing its task
/// changes neither the pending actions nor the state that they lead to.
pub proof fn lemma_failed_fetch_changes_nothing(
    state: AppStateView,
    pending: Seq<AppActionView>,
    error: ApiError,
)
    ensures
        artist_outcome(Err(error)) is None,
        releases_outcome(Err(error)) is None,
        completed(pending, artist_outcome(Err(error))) == pending,
        completed(pending, releases_outcome(Err(error))) == pending,
        state.reduce_all(completed(pending, artist_outcome(Err(error)))) == state.reduce_all(
            pending,
        ),
        state.reduce_all(completed(pending, releases_outcome(Err(error)))) == state.reduce_all(
            pending,
        ),
{
}

/// An action that arrives when there is no artist page changes nothing
/// and emits nothing.
pub proof fn lemma_no_page_no_change(state: AppStateView, action: BrowserActionView)
    requires
        state.browser_state.artist_details is None,
    ensures
        state.reduce(AppActionView::BrowserAction(action)) == state,
        state.events_for(AppActionView::BrowserAction(action)) == Seq::<AppEvent>::empty(),
{
}

/// Whatever is applied to an open artist page emits the one event on
/// which the songs of the page are to be read again.
pub proof fn lemma_page_update_emits_refresh_event(state: AppStateView, action: BrowserActionView)
    requires
        state.browser_state.artist_details is Some,
    ensures
        state.events_for(AppActionView::BrowserAction(action)) == seq![
            AppEvent::BrowserEvent(BrowserEvent::ArtistDetailsUpdated),
        ],
{
}

} // verus!
