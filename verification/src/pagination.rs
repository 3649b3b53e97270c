use vstd::prelude::*;

verus! {

/// How to fetch the next page of a list: what is listed, how many items a
/// page holds, and where the next page starts. No next offset means that the
/// listing is exhausted.
#[derive(Debug, PartialEq, Eq)]
pub struct Pagination {
    pub data: String,
    pub batch_size: usize,
    pub next_offset: Option<usize>,
}

/// The mathematical content of a `Pagination`.
pub struct PaginationView {
    pub data: Seq<char>,
    pub batch_size: nat,
    pub next_offset: Option<nat>,
}

impl DeepView for Pagination {
    type V = PaginationView;

    open spec fn deep_view(&self) -> PaginationView {
        PaginationView {
            data: self.data@,
            batch_size: self.batch_size as nat,
            next_offset: match self.next_offset {
                Some(offset) => Some(offset as nat),
                None => None,
            },
        }
    }
}

impl PaginationView {
    /// The cursor after a page of `loaded` items has arrived.
    ///
    /// A full page moves the offset past the items that came; a short page
    /// ends the listing, and so does an offset that no longer fits a machine
    /// word. An exhausted cursor stays exhausted.
    pub open spec fn after_page(self, loaded: nat) -> PaginationView {
        PaginationView {
            data: self.data,
            batch_size: self.batch_size,
            next_offset: match self.next_offset {
                Some(offset) => if loaded >= self.batch_size && offset + loaded <= usize::MAX {
                    Some(offset + loaded)
                } else {
                    None
                },
                None => None,
            },
        }
    }
}

impl Pagination {
    /// A cursor at the start of the listing of `data`.
    pub fn new(data: String, batch_size: usize) -> (cursor: Self)
        ensures
            cursor.deep_view() == (PaginationView {
                data: data@,
                batch_size: batch_size as nat,
                next_offset: Some(0nat),
            }),
    {
        Pagination { data, batch_size, next_offset: Some(0) }
    }

    /// A cursor over `data` with nothing left to fetch.
    pub fn exhausted(data: String, batch_size: usize) -> (cursor: Self)
        ensures
            cursor.deep_view() == (PaginationView {
                data: data@,
                batch_size: batch_size as nat,
                next_offset: None,
            }),
    {
        Pagination { data, batch_size, next_offset: None }
    }

    /// Records that a page of `loaded_count` items has arrived.
    pub fn set_loaded_count(&mut self, loaded_count: usize)
        ensures
            final(self).deep_view() == old(self).deep_view().after_page(loaded_count as nat),
    {
        let next = match self.next_offset {
            Some(offset) => if loaded_count >= self.batch_size {
                offset.checked_add(loaded_count)
            } else {
                None
            },
            None => None,
        };
        self.next_offset = next;
    }
}

/// A page that arrives never moves a cursor back: what is listed and the
/// batch size stay, a next offset is the earlier one plus what came, and
/// an exhausted cursor stays exhausted.
pub proof fn lemma_after_page_advances(cursor: PaginationView, loaded: nat)
    ensures
        cursor.after_page(loaded).data == cursor.data,
        cursor.after_page(loaded).batch_size == cursor.batch_size,
        cursor.next_offset is None ==> cursor.after_page(loaded).next_offset is None,
        cursor.after_page(loaded).next_offset matches Some(next) ==> {
            &&& cursor.next_offset matches Some(offset)
            &&& next == offset + loaded
            &&& next >= offset
            &&& loaded >= cursor.batch_size
        },
        loaded < cursor.batch_size ==> cursor.after_page(loaded).next_offset is None,
{
}

impl Clone for Pagination {
    fn clone(&self) -> (copy: Self)
        ensures
            copy.deep_view() == self.deep_view(),
    {
        Pagination {
            data: self.data.clone(),
            batch_size: self.batch_size,
            next_offset: self.next_offset,
        }
    }
}

} // verus!
