use crate::pagination::{Pagination, PaginationView};
use vstd::prelude::*;

verus! {

/// One playable song.
#[derive(Debug, PartialEq, Eq)]
pub struct SongDescription {
    pub id: String,
    pub title: String,
    pub duration: u32,
}

/// The mathematical content of a `SongDescription`.
pub struct SongView {
    pub id: Seq<char>,
    pub title: Seq<char>,
    pub duration: u32,
}

impl DeepView for SongDescription {
    type V = SongView;

    open spec fn deep_view(&self) -> SongView {
        SongView { id: self.id@, title: self.title@, duration: self.duration }
    }
}

impl Clone for SongDescription {
    fn clone(&self) -> (copy: Self)
        ensures
            copy.deep_view() == self.deep_view(),
    {
        SongDescription {
            id: self.id.clone(),
            title: self.title.clone(),
            duration: self.duration,
        }
    }
}

/// One release of an artist, as a row of the releases list.
#[derive(Debug, PartialEq, Eq)]
pub struct AlbumModel {
    pub id: String,
    pub title: String,
}

/// The mathematical content of an `AlbumModel`.
pub struct AlbumView {
    pub id: Seq<char>,
    pub title: Seq<char>,
}

impl DeepView for AlbumModel {
    type V = AlbumView;

    open spec fn deep_view(&self) -> AlbumView {
        AlbumView { id: self.id@, title: self.title@ }
    }
}

impl Clone for AlbumModel {
    fn clone(&self) -> (copy: Self)
        ensures
            copy.deep_view() == self.deep_view(),
    {
        AlbumModel { id: self.id.clone(), title: self.title.clone() }
    }
}

/// What a fetch of an artist brings: the header, the first page of
/// releases with the cursor to the page after it, and the top tracks.
#[derive(Debug, PartialEq, Eq)]
pub struct ArtistDescription {
    pub id: String,
    pub name: String,
    pub albums: Vec<AlbumModel>,
    pub top_tracks: Vec<SongDescription>,
    pub next_page: Pagination,
}

/// The mathematical content of an `ArtistDescription`.
pub struct ArtistView {
    pub id: Seq<char>,
    pub name: Seq<char>,
    pub albums: Seq<AlbumView>,
    pub top_tracks: Seq<SongView>,
    pub next_page: PaginationView,
}

impl DeepView for ArtistDescription {
    type V = ArtistView;

    open spec fn deep_view(&self) -> ArtistView {
        ArtistView {
            id: self.id@,
            name: self.name@,
            albums: self.albums.deep_view(),
            top_tracks: self.top_tracks.deep_view(),
            next_page: self.next_page.deep_view(),
        }
    }
}

impl Clone for ArtistDescription {
    fn clone(&self) -> (copy: Self)
        ensures
            copy.deep_view() == self.deep_view(),
    {
        ArtistDescription {
            id: self.id.clone(),
            name: self.name.clone(),
            albums: self.albums.clone(),
            top_tracks: self.top_tracks.clone(),
            next_page: self.next_page.clone(),
        }
    }
}

} // verus!
