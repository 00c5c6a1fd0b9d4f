//! Lazy, forward-only iteration over a paginated list endpoint.

use vstd::prelude::*;

use crate::Error;

verus! {

/// An opaque token naming where the next page of a listing resumes;
/// absence of a cursor means "start from the beginning".
#[derive(Debug)]
pub struct PageCursor {
    /// Marker the service derives the next page from, typically the last
    /// item's identifier.
    pub marker: String,
    /// The fixed page-size limit to request the next page with, if the
    /// listing is size-limited.
    pub limit: Option<u64>,
}

impl Clone for PageCursor {
    fn clone(&self) -> (res: Self)
        ensures
            res == *self,
    {
        PageCursor { marker: self.marker.clone(), limit: self.limit }
    }
}

/// One fetched page: its items in service order, and the cursor for the
/// page after it, if the service reports one.
#[derive(Debug)]
pub struct Page<T> {
    pub items: Vec<T>,
    pub next: Option<PageCursor>,
}

/// Presents a paginated list endpoint as a single forward-only lazy
/// sequence: pages are fetched only when the buffered items run out and
/// the consumer asks for more.
///
/// Single-pass: once exhausted it stays exhausted. The instance must be
/// owned by one consumer; it is not meant for concurrent advancement.
#[derive(Debug)]
pub struct ResourceIterator<T> {
    buffered: Vec<T>,
    cursor: Option<PageCursor>,
    exhausted: bool,
}

impl<T> ResourceIterator<T> {
    /// Items fetched but not yet yielded, front first.
    pub closed spec fn spec_buffered(&self) -> Seq<T> {
        self.buffered@
    }

    /// The cursor the next page fetch would use.
    pub closed spec fn spec_cursor(&self) -> Option<PageCursor> {
        self.cursor
    }

    /// Whether the sequence has ended; a terminal state.
    pub closed spec fn spec_exhausted(&self) -> bool {
        self.exhausted
    }

    /// A fresh iterator: nothing buffered, starting from the beginning.
    /// Lazy: no fetch happens until the first [`ResourceIterator::next`].
    pub fn new() -> (r: ResourceIterator<T>)
        ensures
            r.spec_buffered() == Seq::<T>::empty(),
            r.spec_cursor() is None,
            !r.spec_exhausted(),
    {
        ResourceIterator { buffered: Vec::new(), cursor: None, exhausted: false }
    }

    /// Yield the next item, fetching one further page at most.
    ///
    /// Buffered items are served first, in page order. When the buffer is
    /// empty and the iterator is not exhausted, `fetch` is called on the
    /// current cursor: an empty page, or a page without a next cursor,
    /// marks the iterator exhausted after its items are yielded; a fetch
    /// failure is surfaced at once and leaves the state unchanged, so a
    /// retried call re-issues the same page request.
    pub fn next<F: Fn(Option<PageCursor>) -> Result<Page<T>, Error>>(
        &mut self,
        fetch: &F,
    ) -> (r: Option<Result<T, Error>>)
        requires
            forall|c: Option<PageCursor>| call_requires(*fetch, (c,)),
        ensures
            old(self).spec_buffered().len() > 0 ==> {
                &&& r == Some(Ok::<T, Error>(old(self).spec_buffered()[0]))
                &&& final (self).spec_buffered() == old(self).spec_buffered().drop_first()
                &&& final (self).spec_cursor() == old(self).spec_cursor()
                &&& final (self).spec_exhausted() == old(self).spec_exhausted()
            },
            (old(self).spec_buffered().len() == 0 && old(self).spec_exhausted()) ==> {
                &&& r is None
                &&& *final (self) == *old(self)
            },
            (old(self).spec_buffered().len() == 0 && !old(self).spec_exhausted()) ==> exists|
                reply: Result<Page<T>, Error>,
            |
                {
                    &&& #[trigger] call_ensures(*fetch, (old(self).spec_cursor(),), reply)
                    &&& match reply {
                        Err(e) => r == Some(Err::<T, Error>(e)) && *final (self) == *old(self),
                        Ok(page) => {
                            &&& final (self).spec_cursor() == page.next
                            &&& final (self).spec_exhausted() == (page.items@.len() == 0
                                || page.next is None)
                            &&& if page.items@.len() == 0 {
                                r is None && final (self).spec_buffered() == Seq::<T>::empty()
                            } else {
                                r == Some(Ok::<T, Error>(page.items@[0])) && final (self)
                                    .spec_buffered() == page.items@.drop_first()
                            }
                        },
                    }
                },
    {
        if self.buffered.len() > 0 {
            let item = self.buffered.remove(0);
            return Some(Ok(item));
        }
        if self.exhausted {
            return None;
        }
        let cursor_arg = match &self.cursor {
            None => None,
            Some(c) => Some(c.clone()),
        };
        match (*fetch)(cursor_arg) {
            Err(e) => Some(Err(e)),
            Ok(page) => {
                let mut items = page.items;
                let next_is_none = page.next.is_none();
                self.exhausted = items.len() == 0 || next_is_none;
                self.cursor = page.next;
                if items.len() == 0 {
                    self.buffered = items;
                    None
                } else {
                    let item = items.remove(0);
                    self.buffered = items;
                    Some(Ok(item))
                }
            },
        }
    }
}

} // verus!
