//! The sequence iterator: an ordered list of texts and a cursor, from which
//! the host pulls one text at a time.

use crate::error::BridgeError;
use crate::handle::Handle;
use crate::handle::HandleTable;
use crate::handle::release_handle;
use vstd::prelude::*;
use vstd::string::*;

verus! {

/// What an iterator is, to its contracts: the texts, and how many of them
/// have been handed out.
pub struct Cursor {
    pub items: Seq<Seq<char>>,
    pub position: nat,
}

impl Cursor {
    /// The cursor before the first text of `items`.
    pub open spec fn over(items: Seq<Seq<char>>) -> Cursor {
        Cursor { items, position: 0 }
    }

    /// What the next pull returns: the text at the cursor, or nothing once
    /// the cursor is past the last text.
    pub open spec fn current(self) -> Option<Seq<char>> {
        if self.position < self.items.len() {
            Some(self.items[self.position as int])
        } else {
            None
        }
    }

    /// The cursor after the next pull: one text further, or where it was
    /// once it is past the last text.
    pub open spec fn advance(self) -> Cursor {
        if self.position < self.items.len() {
            Cursor { items: self.items, position: self.position + 1 }
        } else {
            self
        }
    }

    /// The cursor after `pulls` pulls.
    pub open spec fn after(self, pulls: nat) -> Cursor
        decreases pulls,
    {
        if pulls == 0 {
            self
        } else {
            self.after((pulls - 1) as nat).advance()
        }
    }
}

/// The texts that a list of strings holds, in order.
pub open spec fn texts(contents: Seq<String>) -> Seq<Seq<char>> {
    Seq::new(contents.len(), |i: int| contents[i]@)
}

/// An iterator over texts. It is made over a finished list, is not reset,
/// and is released as a whole.
pub struct VecStringHead {
    contents: Vec<String>,
    index: usize,
}

impl View for VecStringHead {
    type V = Cursor;

    closed spec fn view(&self) -> Cursor {
        Cursor { items: texts(self.contents@), position: self.index as nat }
    }
}

impl VecStringHead {
    /// An iterator before the first of `contents`.
    pub fn new(contents: Vec<String>) -> (head: Self)
        ensures
            head@ == Cursor::over(texts(contents@)),
    {
        VecStringHead { contents, index: 0 }
    }

    /// Hands out a copy of the text at the cursor and moves the cursor on;
    /// past the last text it hands out nothing and stays.
    pub fn advance(&mut self) -> (text: Option<String>)
        ensures
            final(self)@ == old(self)@.advance(),
            match text {
                Some(t) => old(self)@.current() == Some(t@),
                None => old(self)@.current() is None,
            },
    {
        if self.index < self.contents.len() {
            let text = self.contents[self.index].clone();
            self.index = self.index + 1;
            Some(text)
        } else {
            None
        }
    }
}

/// Takes a finished list into the table of iterators and returns the handle
/// of an iterator before its first text.
pub fn open_iterator(iterators: &mut HandleTable<VecStringHead>, contents: Vec<String>) -> (ptr:
    Handle)
    requires
        old(iterators).wf(),
        old(iterators).spec_has_room(),
    ensures
        final(iterators).wf(),
        !ptr.spec_is_null(),
        !old(iterators).issued().contains(ptr),
        final(iterators).issued() == old(iterators).issued().insert(ptr),
        old(iterators).precedes(final(iterators)),
        final(iterators)@ == old(iterators)@.insert(ptr, final(iterators)@[ptr]),
        final(iterators)@[ptr]@ == Cursor::over(texts(contents@)),
{
    iterators.insert(VecStringHead::new(contents))
}

/// Pulls the next text from the iterator that `ptr` names: `Some` with a
/// copy of the text at the cursor, or `None` once the iterator is exhausted,
/// however often it is asked then. A handle that names no iterator is
/// reported and changes nothing.
pub fn vec_string_get_next(iterators: &mut HandleTable<VecStringHead>, ptr: Handle) -> (r: Result<
    Option<String>,
    BridgeError,
>)
    requires
        old(iterators).wf(),
    ensures
        final(iterators).wf(),
        final(iterators).issued() == old(iterators).issued(),
        final(iterators).spec_has_room() == old(iterators).spec_has_room(),
        old(iterators).precedes(final(iterators)),
        match r {
            Err(e) => {
                &&& !old(iterators)@.contains_key(ptr)
                &&& e == BridgeError::InvalidHandle
                &&& *final(iterators) == *old(iterators)
            },
            Ok(text) => {
                &&& old(iterators)@.contains_key(ptr)
                &&& final(iterators)@ == old(iterators)@.insert(ptr, final(iterators)@[ptr])
                &&& final(iterators)@[ptr]@ == old(iterators)@[ptr]@.advance()
                &&& match text {
                    Some(t) => old(iterators)@[ptr]@.current() == Some(t@),
                    None => old(iterators)@[ptr]@.current() is None,
                }
            },
        },
{
    match iterators.get_mut(ptr) {
        None => Err(BridgeError::InvalidHandle),
        Some(head) => Ok(head.advance()),
    }
}

/// Releases the iterator that `ptr` names: it leaves the table, with its
/// list, and is handed to the caller, who drops it. Releasing the null
/// handle does nothing. A handle that is neither null nor names an iterator
/// is reported, and nothing changes.
pub fn free_vec_string(iterators: &mut HandleTable<VecStringHead>, ptr: Handle) -> (r: Result<
    Option<VecStringHead>,
    BridgeError,
>)
    requires
        old(iterators).wf(),
    ensures
        final(iterators).wf(),
        final(iterators).issued() == old(iterators).issued(),
        final(iterators)@ == old(iterators)@.remove(ptr),
        old(iterators).precedes(final(iterators)),
        old(iterators).spec_has_room() ==> final(iterators).spec_has_room(),
        ptr.spec_is_null() ==> r == Ok::<Option<VecStringHead>, BridgeError>(None),
        match r {
            Ok(Some(head)) => old(iterators)@.contains_key(ptr) && head == old(iterators)@[ptr],
            Ok(None) => ptr.spec_is_null() && *final(iterators) == *old(iterators),
            Err(e) => {
                &&& !ptr.spec_is_null()
                &&& !old(iterators)@.contains_key(ptr)
                &&& e == BridgeError::InvalidHandle
                &&& *final(iterators) == *old(iterators)
            },
        },
{
    release_handle(iterators, ptr)
}

/// Pulled from the start, an iterator over `items` returns them one by one
/// in their order, and from the pull after the last one on it returns
/// nothing, and stays where it is.
pub proof fn lemma_pulls_in_order(items: Seq<Seq<char>>, pulls: nat)
    ensures
        Cursor::over(items).after(pulls).items == items,
        pulls < items.len() ==> Cursor::over(items).after(pulls).current() == Some(
            items[pulls as int],
        ),
        pulls >= items.len() ==> Cursor::over(items).after(pulls).current() is None,
        pulls >= items.len() ==> Cursor::over(items).after(pulls + 1) == Cursor::over(items).after(
            pulls,
        ),
        Cursor::over(items).after(pulls).position == if pulls < items.len() {
            pulls
        } else {
            items.len()
        },
    decreases pulls,
{
    if pulls > 0 {
        lemma_pulls_in_order(items, (pulls - 1) as nat);
    }
}

} // verus!
