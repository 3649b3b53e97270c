use artist_details::actions::{AppAction, AppEvent, BrowserAction, BrowserEvent};
use artist_details::api::{handle_error, ApiError, ApiRequest};
use artist_details::app_model::AppModel;
use artist_details::app_state::{wrap_events, AppState, PlaylistState};
use artist_details::browser_state::{ArtistState, BrowserState, ScreenName, DEFAULT_BATCH_SIZE};
use artist_details::dispatcher::ActionDispatcher;
use artist_details::list_store::ListStore;
use artist_details::models::{AlbumModel, ArtistDescription, SongDescription};
use artist_details::pagination::Pagination;

fn song(id: &str) -> SongDescription {
    SongDescription { id: id.to_string(), title: format!("song {}", id), duration: 180 }
}

fn album(id: &str) -> AlbumModel {
    AlbumModel { id: id.to_string(), title: format!("album {}", id) }
}

fn details(albums: Vec<AlbumModel>, next_offset: Option<usize>) -> ArtistDescription {
    ArtistDescription {
        id: "A1".to_string(),
        name: "Artist One".to_string(),
        albums,
        top_tracks: vec![song("t1"), song("t2")],
        next_page: Pagination { data: "A1".to_string(), batch_size: 20, next_offset },
    }
}

fn set_details(albums: Vec<AlbumModel>, next_offset: Option<usize>) -> AppAction {
    AppAction::BrowserAction(BrowserAction::SetArtistDetails(details(albums, next_offset)))
}

fn append(albums: Vec<AlbumModel>) -> AppAction {
    AppAction::BrowserAction(BrowserAction::AppendArtistReleases(albums))
}

#[test]
fn initial_state_is_empty() {
    let state = AppState::new();
    assert_eq!(state.browser_state, BrowserState::new());
    assert_eq!(state.browser_state.screen, ScreenName::Home);
    assert!(state.browser_state.artist_state().is_none());
    assert!(state.playlist.songs().is_empty());
    assert_eq!(state.playlist, PlaylistState::new());
    assert_eq!(state.current_song_id, None);
}

#[test]
fn opened_artist_page_is_blank_and_has_nothing_to_load() {
    let page = ArtistState::new("A1".to_string());
    assert_eq!(page.artist, None);
    assert_eq!(page.albums.len(), 0);
    assert!(page.top_tracks.is_empty());
    assert_eq!(DEFAULT_BATCH_SIZE, 20);
    assert_eq!(
        page.next_page,
        Pagination { data: "A1".to_string(), batch_size: 20, next_offset: None }
    );
}

#[test]
fn view_artist_opens_a_fresh_page() {
    let mut store = AppModel::new(AppState::new());
    let events = store.update_state(AppAction::ViewArtist("A1".to_string()));
    assert_eq!(events, vec![AppEvent::BrowserEvent(BrowserEvent::NavigationChanged)]);
    let state = store.get_state();
    assert_eq!(state.browser_state.screen, ScreenName::Artist("A1".to_string()));
    assert_eq!(state.browser_state.artist_state(), Some(&ArtistState::new("A1".to_string())));
}

#[test]
fn view_artist_replaces_an_earlier_page() {
    let mut store = AppModel::new(AppState::new());
    store.update_all(vec![
        AppAction::ViewArtist("A1".to_string()),
        set_details(vec![album("a")], Some(20)),
        AppAction::ViewArtist("A2".to_string()),
    ]);
    let state = store.get_state();
    assert_eq!(state.browser_state.screen, ScreenName::Artist("A2".to_string()));
    assert_eq!(state.browser_state.artist_state(), Some(&ArtistState::new("A2".to_string())));
}

#[test]
fn view_album_changes_screen_and_keeps_artist_page() {
    let mut store = AppModel::new(AppState::new());
    store.update_all(vec![
        AppAction::ViewArtist("A1".to_string()),
        set_details(vec![album("a")], None),
    ]);
    let events = store.update_state(AppAction::ViewAlbum("a".to_string()));
    assert_eq!(events, vec![AppEvent::BrowserEvent(BrowserEvent::NavigationChanged)]);
    let state = store.get_state();
    assert_eq!(state.browser_state.screen, ScreenName::AlbumDetails("a".to_string()));
    let page = state.browser_state.artist_state().unwrap();
    assert_eq!(page.artist, Some("Artist One".to_string()));
    assert_eq!(page.albums, ListStore::from_vec(vec![album("a")]));
}

#[test]
fn set_details_replaces_what_the_page_showed() {
    let mut store = AppModel::new(AppState::new());
    store.update_all(vec![
        AppAction::ViewArtist("A1".to_string()),
        set_details(vec![album("a"), album("b")], Some(20)),
    ]);
    let events = store.update_state(set_details(vec![album("c")], None));
    assert_eq!(events, vec![AppEvent::BrowserEvent(BrowserEvent::ArtistDetailsUpdated)]);
    let page = store.get_state().browser_state.artist_state().unwrap();
    assert_eq!(page.artist, Some("Artist One".to_string()));
    assert_eq!(page.albums, ListStore::from_vec(vec![album("c")]));
    assert_eq!(page.top_tracks, vec![song("t1"), song("t2")]);
    assert_eq!(
        page.next_page,
        Pagination { data: "A1".to_string(), batch_size: 20, next_offset: None }
    );
}

#[test]
fn appended_page_goes_behind_in_order_without_dedup() {
    let mut store = AppModel::new(AppState::new());
    store.update_all(vec![
        AppAction::ViewArtist("A1".to_string()),
        set_details(vec![album("a"), album("b")], Some(2)),
    ]);
    let events = store.update_state(append(vec![album("b"), album("a"), album("c")]));
    assert_eq!(events, vec![AppEvent::BrowserEvent(BrowserEvent::ArtistDetailsUpdated)]);
    let page = store.get_state().browser_state.artist_state().unwrap();
    assert_eq!(
        page.albums,
        ListStore::from_vec(vec![album("a"), album("b"), album("b"), album("a"), album("c")])
    );
    assert_eq!(page.artist, Some("Artist One".to_string()));
    assert_eq!(page.top_tracks, vec![song("t1"), song("t2")]);
}

#[test]
fn appended_full_page_advances_cursor() {
    let mut store = AppModel::new(AppState::new());
    store.update_all(vec![AppAction::ViewArtist("A1".to_string()), set_details(vec![], Some(20))]);
    let page_items: Vec<AlbumModel> = (0..20).map(|i| album(&format!("r{}", i))).collect();
    store.update_state(append(page_items));
    let page = store.get_state().browser_state.artist_state().unwrap();
    assert_eq!(page.albums.len(), 20);
    assert_eq!(page.next_page.next_offset, Some(40));
    assert_eq!(page.next_page.batch_size, 20);
    assert_eq!(page.next_page.data, "A1");
}

#[test]
fn appended_short_page_exhausts_cursor() {
    let mut store = AppModel::new(AppState::new());
    store.update_all(vec![AppAction::ViewArtist("A1".to_string()), set_details(vec![], Some(20))]);
    let page_items: Vec<AlbumModel> = (0..19).map(|i| album(&format!("r{}", i))).collect();
    store.update_state(append(page_items));
    let page = store.get_state().browser_state.artist_state().unwrap();
    assert_eq!(page.albums.len(), 19);
    assert_eq!(page.next_page.next_offset, None);
}

#[test]
fn two_pages_for_one_offset_both_append() {
    let mut store = AppModel::new(AppState::new());
    store.update_all(vec![
        AppAction::ViewArtist("A1".to_string()),
        set_details(vec![], Some(0)),
        append(vec![album("a")]),
        append(vec![album("a")]),
    ]);
    let page = store.get_state().browser_state.artist_state().unwrap();
    assert_eq!(page.albums, ListStore::from_vec(vec![album("a"), album("a")]));
    assert_eq!(page.next_page.next_offset, None);
}

#[test]
fn browser_action_without_artist_page_changes_nothing() {
    let mut store = AppModel::new(AppState::new());
    let events = store.update_state(set_details(vec![album("a")], Some(20)));
    assert!(events.is_empty());
    assert_eq!(store, AppModel::new(AppState::new()));
    let events = store.update_state(append(vec![album("a")]));
    assert!(events.is_empty());
    assert_eq!(store, AppModel::new(AppState::new()));
}

#[test]
fn load_playlist_replaces_active_playlist() {
    let mut store = AppModel::new(AppState::new());
    let events = store.update_state(AppAction::LoadPlaylist(vec![song("s1"), song("s2")]));
    assert_eq!(events, vec![AppEvent::PlaylistChanged]);
    assert_eq!(store.get_state().playlist.songs(), &vec![song("s1"), song("s2")]);
    store.update_state(AppAction::LoadPlaylist(vec![song("s3")]));
    assert_eq!(store.get_state().playlist.songs(), &vec![song("s3")]);
    assert_eq!(store.get_state().current_song_id, None);
}

#[test]
fn load_sets_current_song() {
    let mut store = AppModel::new(AppState::new());
    let events = store.update_state(AppAction::Load("s2".to_string()));
    assert_eq!(events, vec![AppEvent::TrackChanged]);
    assert_eq!(store.get_state().current_song_id, Some("s2".to_string()));
    assert!(store.get_state().playlist.songs().is_empty());
}

#[test]
fn actions_apply_in_dispatch_order() {
    let mut dispatcher = ActionDispatcher::new();
    dispatcher.dispatch(AppAction::Load("s1".to_string()));
    dispatcher.dispatch(AppAction::LoadPlaylist(vec![song("s1")]));
    dispatcher.dispatch(AppAction::Load("s2".to_string()));
    dispatcher.dispatch(AppAction::LoadPlaylist(vec![song("s2"), song("s3")]));
    let mut store = AppModel::new(AppState::new());
    let events = store.apply_pending(&mut dispatcher);
    assert_eq!(
        events,
        vec![
            AppEvent::TrackChanged,
            AppEvent::PlaylistChanged,
            AppEvent::TrackChanged,
            AppEvent::PlaylistChanged,
        ]
    );
    assert_eq!(store.get_state().current_song_id, Some("s2".to_string()));
    assert_eq!(store.get_state().playlist.songs(), &vec![song("s2"), song("s3")]);
    assert!(dispatcher.take_actions().is_empty());
}

#[test]
fn applying_all_at_once_equals_one_by_one() {
    let actions = || {
        vec![
            AppAction::ViewArtist("A1".to_string()),
            set_details(vec![album("a")], Some(1)),
            append(vec![album("b")]),
            AppAction::LoadPlaylist(vec![song("t1")]),
            AppAction::Load("t1".to_string()),
            AppAction::ViewAlbum("b".to_string()),
        ]
    };
    let mut at_once = AppModel::new(AppState::new());
    let events_at_once = at_once.update_all(actions());
    let mut stepwise = AppModel::new(AppState::new());
    let mut events_stepwise = Vec::new();
    for action in actions() {
        events_stepwise.extend(stepwise.update_state(action));
    }
    assert_eq!(at_once, stepwise);
    assert_eq!(events_at_once, events_stepwise);
    assert_eq!(
        events_at_once,
        vec![
            AppEvent::BrowserEvent(BrowserEvent::NavigationChanged),
            AppEvent::BrowserEvent(BrowserEvent::ArtistDetailsUpdated),
            AppEvent::BrowserEvent(BrowserEvent::ArtistDetailsUpdated),
            AppEvent::PlaylistChanged,
            AppEvent::TrackChanged,
            AppEvent::BrowserEvent(BrowserEvent::NavigationChanged),
        ]
    );
}

#[test]
fn applying_in_two_runs_equals_one_run() {
    let first = || vec![AppAction::ViewArtist("A1".to_string()), set_details(vec![], Some(0))];
    let rest = || vec![append(vec![album("a")]), AppAction::Load("t2".to_string())];
    let mut one_run = AppModel::new(AppState::new());
    let mut all = first();
    all.extend(rest());
    one_run.update_all(all);
    let mut two_runs = AppModel::new(AppState::new());
    two_runs.update_all(first());
    two_runs.update_all(rest());
    assert_eq!(one_run, two_runs);
}

#[test]
fn update_all_of_nothing_changes_nothing() {
    let mut store = AppModel::new(AppState::new());
    let events = store.update_all(vec![]);
    assert!(events.is_empty());
    assert_eq!(store, AppModel::new(AppState::new()));
}

#[test]
fn app_state_update_matches_store_update() {
    let mut state = AppState::new();
    let events = state.update_state(AppAction::Load("s1".to_string()));
    let mut store = AppModel::new(AppState::new());
    let store_events = store.update_state(AppAction::Load("s1".to_string()));
    assert_eq!(events, store_events);
    assert_eq!(store.get_state(), &state);
}

#[test]
fn map_state_opt_returns_what_the_projection_picks() {
    let mut store = AppModel::new(AppState::new());
    assert_eq!(store.map_state_opt(|s| s.current_song_id.as_ref()), None);
    assert!(store.map_state_opt(|s| s.browser_state.artist_state()).is_none());
    store.update_all(vec![
        AppAction::Load("s9".to_string()),
        AppAction::ViewArtist("A1".to_string()),
    ]);
    assert_eq!(store.map_state_opt(|s| s.current_song_id.as_ref()), Some(&"s9".to_string()));
    assert_eq!(
        store.map_state_opt(|s| Some(&s.browser_state.artist_state()?.next_page.data)),
        Some(&"A1".to_string())
    );
}

#[test]
fn dispatcher_hands_out_actions_and_tasks_oldest_first() {
    let mut dispatcher = ActionDispatcher::new();
    dispatcher.dispatch(AppAction::ViewAlbum("x".to_string()));
    dispatcher.dispatch_async(ApiRequest::Artist { id: "A1".to_string() });
    dispatcher.dispatch(AppAction::Load("s".to_string()));
    dispatcher.dispatch_async(ApiRequest::ArtistAlbums {
        id: "A1".to_string(),
        offset: 20,
        batch_size: 20,
    });
    assert_eq!(
        dispatcher.take_tasks(),
        vec![
            ApiRequest::Artist { id: "A1".to_string() },
            ApiRequest::ArtistAlbums { id: "A1".to_string(), offset: 20, batch_size: 20 },
        ]
    );
    assert!(dispatcher.take_tasks().is_empty());
    assert_eq!(
        dispatcher.take_actions(),
        vec![AppAction::ViewAlbum("x".to_string()), AppAction::Load("s".to_string())]
    );
    assert_eq!(dispatcher, ActionDispatcher::new());
}

#[test]
fn completed_task_with_action_dispatches_it_last() {
    let mut dispatcher = ActionDispatcher::new();
    dispatcher.dispatch(AppAction::Load("s".to_string()));
    dispatcher.complete_async(Some(append(vec![album("a")])));
    assert_eq!(
        dispatcher.take_actions(),
        vec![AppAction::Load("s".to_string()), append(vec![album("a")])]
    );
}

#[test]
fn completed_task_without_action_dispatches_nothing() {
    let mut dispatcher = ActionDispatcher::new();
    dispatcher.dispatch(AppAction::Load("s".to_string()));
    dispatcher.dispatch_async(ApiRequest::Artist { id: "A1".to_string() });
    dispatcher.complete_async(None);
    assert_eq!(dispatcher.take_actions(), vec![AppAction::Load("s".to_string())]);
    assert_eq!(dispatcher.take_tasks(), vec![ApiRequest::Artist { id: "A1".to_string() }]);
}

#[test]
fn every_error_is_handled_without_an_action() {
    assert_eq!(handle_error(ApiError::ConnectionError), None);
    assert_eq!(handle_error(ApiError::ConversionError), None);
    assert_eq!(handle_error(ApiError::BadStatus(404)), None);
    assert_eq!(handle_error(ApiError::BadStatus(500)), None);
}

#[test]
fn browser_events_wrap_one_for_one() {
    assert_eq!(wrap_events(vec![]), vec![]);
    assert_eq!(
        wrap_events(vec![BrowserEvent::ArtistDetailsUpdated, BrowserEvent::NavigationChanged]),
        vec![
            AppEvent::BrowserEvent(BrowserEvent::ArtistDetailsUpdated),
            AppEvent::BrowserEvent(BrowserEvent::NavigationChanged),
        ]
    );
}

#[test]
fn cloned_records_are_equal() {
    let songs = vec![song("b"), song("a"), song("b")];
    assert_eq!(songs.clone(), songs);
    assert_eq!(song("a").clone(), song("a"));
    assert_eq!(album("a").clone(), album("a"));
}

#[test]
fn browser_state_moves_between_screens() {
    let mut browser = BrowserState::new();
    assert_eq!(browser.view_album("x".to_string()), vec![BrowserEvent::NavigationChanged]);
    assert_eq!(browser.screen, ScreenName::AlbumDetails("x".to_string()));
    assert!(browser.artist_state().is_none());
    assert_eq!(browser.view_artist("A1".to_string()), vec![BrowserEvent::NavigationChanged]);
    assert_eq!(browser.screen, ScreenName::Artist("A1".to_string()));
    assert_eq!(browser.artist_state(), Some(&ArtistState::new("A1".to_string())));
}

#[test]
fn browser_state_without_page_ignores_browser_actions() {
    let mut browser = BrowserState::new();
    let events =
        browser.update_with(BrowserAction::AppendArtistReleases(vec![album("a")]));
    assert!(events.is_empty());
    assert_eq!(browser, BrowserState::new());
}

#[test]
fn artist_page_applies_browser_actions() {
    let mut page = ArtistState::new("A1".to_string());
    let events = page.update_with(BrowserAction::SetArtistDetails(details(vec![album("a")], Some(1))));
    assert_eq!(events, vec![BrowserEvent::ArtistDetailsUpdated]);
    assert_eq!(page.artist, Some("Artist One".to_string()));
    let events = page.update_with(BrowserAction::AppendArtistReleases(vec![album("b")]));
    assert_eq!(events, vec![BrowserEvent::ArtistDetailsUpdated]);
    assert_eq!(page.albums, ListStore::from_vec(vec![album("a"), album("b")]));
    assert_eq!(page.next_page.next_offset, None);
}

#[test]
fn cloned_actions_are_equal() {
    let actions = vec![
        AppAction::ViewAlbum("a".to_string()),
        AppAction::ViewArtist("A1".to_string()),
        AppAction::LoadPlaylist(vec![song("s1"), song("s2")]),
        AppAction::Load("s1".to_string()),
        set_details(vec![album("a"), album("b")], Some(20)),
        append(vec![album("c")]),
    ];
    for action in &actions {
        assert_eq!(&action.clone(), action);
    }
    assert_eq!(details(vec![album("a")], None).clone(), details(vec![album("a")], None));
}
