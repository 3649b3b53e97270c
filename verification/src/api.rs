use crate::actions::AppAction;
use vstd::prelude::*;

verus! {

/// A fetch that a deferred task asks of the remote catalogue.
#[derive(Debug, PartialEq, Eq)]
pub enum ApiRequest {
    /// The details of the artist `id`.
    Artist { id: String },
    /// `batch_size` releases of the artist `id`, from position `offset` on.
    ArtistAlbums { id: String, offset: usize, batch_size: usize },
}

/// The mathematical content of an `ApiRequest`.
pub enum ApiRequestView {
    Artist { id: Seq<char> },
    ArtistAlbums { id: Seq<char>, offset: nat, batch_size: nat },
}

impl DeepView for ApiRequest {
    type V = ApiRequestView;

    open spec fn deep_view(&self) -> ApiRequestView {
        match self {
            ApiRequest::Artist { id } => ApiRequestView::Artist { id: id@ },
            ApiRequest::ArtistAlbums { id, offset, batch_size } => ApiRequestView::ArtistAlbums {
                id: id@,
                offset: *offset as nat,
                batch_size: *batch_size as nat,
            },
        }
    }
}

/// Why a fetch failed.
#[derive(Clone, Copy, Debug, PartialEq, Eq, Structural)]
pub enum ApiError {
    /// The catalogue could not be reached.
    ConnectionError,
    /// The answer could not be read.
    ConversionError,
    /// The catalogue answered with this status instead of the data.
    BadStatus(u16),
}

/// The action that a failed fetch leads to: none, whatever the error. A
/// failure is reported, and never changes the state.
pub fn handle_error(_err: ApiError) -> (action: Option<AppAction>)
    ensures
        action is None,
{
    None
}

} // verus!
