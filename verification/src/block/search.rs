//! The search panel: a text buffer with a cursor, and the result view a
//! successful search produces.

use vstd::prelude::*;
use crate::block::Index;
use crate::block::tracks::Track;

verus! {

/// The largest buffer the cursor, a `u16`, can span.
pub open spec fn query_capacity() -> int {
    0xffff
}

/// The search panel's text buffer.  The cursor column always equals the
/// number of characters typed, so the buffer never outgrows the cursor.
pub struct Search {
    pub cursor_position: u16,
    pub query: String,
}

impl Search {
    pub open spec fn inv(&self) -> bool {
        self.cursor_position == self.query@.len() && self.query@.len() <= query_capacity()
    }

    pub fn new() -> (r: Self)
        ensures
            r.inv(),
            r.query@ == Seq::<char>::empty(),
            r.cursor_position == 0,
    {
        Search { cursor_position: 0, query: String::new() }
    }

    /// Appends one typed character and advances the cursor.  A buffer that
    /// has reached the cursor's range is left unchanged.
    pub fn append(&mut self, c: char)
        requires
            old(self).inv(),
        ensures
            final(self).inv(),
            old(self).query@.len() < query_capacity() ==> final(self).query@ == old(
                self,
            ).query@.push(c),
            old(self).query@.len() >= query_capacity() ==> *final(self) == *old(self),
            final(self).cursor_position == final(self).query@.len(),
    {
        if self.cursor_position < 0xffff {
            push_char(&mut self.query, c);
            self.cursor_position += 1;
        }
    }

    /// Removes the last character and retreats the cursor, silently doing
    /// nothing on an empty buffer.
    pub fn backspace(&mut self)
        requires
            old(self).inv(),
        ensures
            final(self).inv(),
            old(self).query@.len() > 0 ==> final(self).query@ == old(self).query@.drop_last(),
            old(self).query@.len() == 0 ==> *final(self) == *old(self),
            final(self).cursor_position == final(self).query@.len(),
    {
        if self.cursor_position > 0 {
            pop_char(&mut self.query);
            self.cursor_position -= 1;
        }
    }
}

/// Relies on String::push: appends the given character to the end of the
/// string.
#[verifier::external_body]
fn push_char(s: &mut String, c: char)
    ensures
        final(s)@ == old(s)@.push(c),
{
    s.push(c)
}

/// Relies on String::pop: removes the last character and returns it, or
/// returns None and leaves the string as it was when it is empty.
#[verifier::external_body]
fn pop_char(s: &mut String) -> (r: Option<char>)
    ensures
        old(s)@.len() == 0 ==> r is None && final(s)@ == old(s)@,
        old(s)@.len() > 0 ==> r == Some(old(s)@.last()) && final(s)@ == old(s)@.drop_last(),
{
    s.pop()
}

/// The main view a successful search produces: the matching tracks under the
/// query that found them, with a fresh cursor.
pub struct SearchResults {
    pub index: Index,
    pub query: String,
    pub songs: Vec<Track>,
}

impl SearchResults {
    pub fn new(query: String, songs: Vec<Track>) -> (r: Self)
        ensures
            r.index.inner == 0,
            r.index.bound() == songs@.len(),
            r.index.inv(),
            r.query == query,
            r.songs == songs,
    {
        let bound = songs.len();
        SearchResults { index: Index::new(bound), query, songs }
    }
}

} // verus!
