//! Data reported by the remote platform, and the accumulation of paginated
//! member listings into one complete, order-preserving list.

use vstd::prelude::*;

verus! {

/// Metadata of a playlist as reported by the platform.
pub struct PlaylistInfo {
    /// The display title of the playlist.
    pub title: String,
}

/// One member of a playlist: a video identifier together with its display
/// title.  Such values are only ever obtained from the platform, never
/// constructed locally.
pub struct PlaylistItem {
    /// The platform-assigned identifier of the video.
    pub video_id: String,
    /// The display title of the video.
    pub title: String,
}

impl Clone for PlaylistItem {
    fn clone(&self) -> (r: Self)
        ensures
            r == *self,
    {
        PlaylistItem { video_id: self.video_id.clone(), title: self.title.clone() }
    }
}

impl PlaylistInfo {
    /// A metadata query answers with a list of titles, one per matching
    /// playlist.  The playlist exists exactly when that list is non-empty,
    /// and its title is then the first entry.
    pub fn from_titles(titles: Vec<String>) -> (r: Option<PlaylistInfo>)
        ensures
            r is Some <==> titles@.len() > 0,
            titles@.len() > 0 ==> r == (Some(PlaylistInfo { title: titles@[0] })),
    {
        let mut titles = titles;
        if titles.len() > 0 {
            Some(PlaylistInfo { title: titles.remove(0) })
        } else {
            None
        }
    }
}

/// Accumulates the pages of a paginated member listing.  The caller fetches
/// one page at a time and hands it in together with whether the platform
/// announced a further page; the collector yields the concatenation of all
/// pages, in fetch order, once the last page has arrived.
pub struct PageCollector {
    items: Vec<PlaylistItem>,
    done: bool,
}

impl PageCollector {
    /// The members collected so far, in fetch order.
    pub closed spec fn collected(&self) -> Seq<PlaylistItem> {
        self.items@
    }

    /// Whether the last page has been handed in.
    pub closed spec fn is_done(&self) -> bool {
        self.done
    }

    /// An empty collector, ready for the first page.
    pub fn new() -> (c: PageCollector)
        ensures
            c.collected() == Seq::<PlaylistItem>::empty(),
            !c.is_done(),
    {
        PageCollector { items: Vec::new(), done: false }
    }

    /// Appends one fetched page.  `has_more` is whether the platform
    /// announced a continuation token for a further page.
    pub fn push_page(&mut self, page: Vec<PlaylistItem>, has_more: bool)
        requires
            !old(self).is_done(),
        ensures
            final(self).collected() == old(self).collected() + page@,
            final(self).is_done() == !has_more,
    {
        let mut page = page;
        self.items.append(&mut page);
        self.done = !has_more;
    }

    /// Whether the listing is complete.
    pub fn finished(&self) -> (r: bool)
        ensures
            r == self.is_done(),
    {
        self.done
    }

    /// The complete member list.  Only available once the last page has been
    /// handed in, so that no caller ever sees a partial listing.
    pub fn into_items(self) -> (r: Vec<PlaylistItem>)
        requires
            self.is_done(),
        ensures
            r@ == self.collected(),
    {
        self.items
    }
}

} // verus!
