use crate::actions::{AppAction, AppActionView, AppEvent};
use crate::app_state::AppStateView;
use crate::models::{SongDescription, SongView};
use vstd::prelude::*;

verus! {

/// An extra action that a context offers for one song: the name under
/// which it is offered, and the action it dispatches.
#[derive(Debug, PartialEq, Eq)]
pub struct SongAction {
    pub name: String,
    pub action: AppAction,
}

/// The mathematical content of a `SongAction`.
pub struct SongActionView {
    pub name: Seq<char>,
    pub action: AppActionView,
}

impl DeepView for SongAction {
    type V = SongActionView;

    open spec fn deep_view(&self) -> SongActionView {
        SongActionView { name: self.name@, action: self.action.deep_view() }
    }
}

/// An entry of the menu that a context offers for one song: its label, and
/// the name of the action it triggers.
#[derive(Debug, PartialEq, Eq)]
pub struct SongMenuItem {
    pub label: String,
    pub action_name: String,
}

/// The mathematical content of a `SongMenuItem`.
pub struct SongMenuItemView {
    pub label: Seq<char>,
    pub action_name: Seq<char>,
}

impl DeepView for SongMenuItem {
    type V = SongMenuItemView;

    open spec fn deep_view(&self) -> SongMenuItemView {
        SongMenuItemView { label: self.label@, action_name: self.action_name@ }
    }
}

/// Whether a song with the id `id` is among `songs`.
pub open spec fn has_song(songs: Seq<SongView>, id: Seq<char>) -> bool {
    exists|i: int| 0 <= i < songs.len() && (#[trigger] songs[i]).id == id
}

/// The actions that playing the song `id` dispatches, in order, from a
/// context that offers `context` while `playlist` is active.
///
/// The song is always loaded. Where it is not in the active playlist, and
/// the context has songs to offer, these first become the active
/// playlist.
pub open spec fn play_actions(
    playlist: Seq<SongView>,
    context: Option<Seq<SongView>>,
    id: Seq<char>,
) -> Seq<AppActionView> {
    match context {
        Some(songs) if !has_song(playlist, id) => seq![
            AppActionView::LoadPlaylist(songs),
            AppActionView::Load(id),
        ],
        _ => seq![AppActionView::Load(id)],
    }
}

/// Tells whether a song with the id `id` is among `songs`.
pub fn contains_song(songs: &Vec<SongDescription>, id: &String) -> (found: bool)
    ensures
        found == has_song(songs.deep_view(), id@),
{
    let mut i: usize = 0;
    while i < songs.len()
        invariant
            i <= songs.len(),
            forall|k: int| 0 <= k < i ==> (#[trigger] songs.deep_view()[k]).id != id@,
        decreases songs.len() - i,
    {
        if songs[i].id == *id {
            assert(songs.deep_view()[i as int].id == id@);
            return true;
        }
        i = i + 1;
    }
    false
}

/// What a browsing context must offer so that the shared player can list
/// and play its songs, whatever the context is.
pub trait PlaylistModel {
    /// The application state that this context reads.
    spec fn app_state(&self) -> AppStateView;

    /// The actions that this context has dispatched and that have not been
    /// taken out yet, oldest first.
    spec fn dispatched(&self) -> Seq<AppActionView>;

    /// The songs that this context offers, where it has any loaded.
    spec fn context_songs(&self) -> Option<Seq<SongView>>;

    /// Whether `event` tells of a change that this context's songs depend
    /// on.
    spec fn refreshes_on(&self, event: AppEvent) -> bool;

    /// The extra actions that this context offers for the song `id`,
    /// where it offers any.
    spec fn offered_actions(&self, id: Seq<char>) -> Option<Seq<SongActionView>>;

    /// The menu that this context offers for the song `id`, where it
    /// offers one.
    spec fn offered_menu(&self, id: Seq<char>) -> Option<Seq<SongMenuItemView>>;

    /// The songs that this context offers, or nothing while they are not
    /// loaded.
    fn songs(&self) -> (songs: Option<&Vec<SongDescription>>)
        ensures
            songs.deep_view() == self.context_songs(),
    ;

    /// The id of the song that is playing. It is read from the shared
    /// state, and is the same in every context.
    fn current_song_id(&self) -> (id: Option<String>)
        ensures
            id.deep_view() == self.app_state().current_song_id,
    ;

    /// Plays the song `id`: the song is loaded, after this context's
    /// songs have become the active playlist if the song is not in the
    /// active one.
    fn play_song(&mut self, id: String)
        ensures
            final(self).dispatched() == old(self).dispatched() + play_actions(
                old(self).app_state().playlist,
                old(self).context_songs(),
                id@,
            ),
            final(self).app_state() == old(self).app_state(),
            final(self).context_songs() == old(self).context_songs(),
    ;

    /// Whether the player should read `songs` again after `event`.
    fn should_refresh_songs(&self, event: &AppEvent) -> (refresh: bool)
        ensures
            refresh == self.refreshes_on(*event),
    ;

    /// The extra actions that this context offers for the song `id`, or
    /// nothing where it offers none.
    fn actions_for(&self, id: String) -> (actions: Option<Vec<SongAction>>)
        ensures
            actions.deep_view() == self.offered_actions(id@),
    ;

    /// The menu that this context offers for the song `id`, or nothing
    /// where it offers none.
    fn menu_for(&self, id: String) -> (menu: Option<Vec<SongMenuItem>>)
        ensures
            menu.deep_view() == self.offered_menu(id@),
    ;
}

} // verus!
