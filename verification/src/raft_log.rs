//! An append-only log of entries, each stamped with the sequence number it was
//! appended under.

use vstd::prelude::*;

verus! {

#[derive(Debug)]
struct RaftLogMessage<T> {
    id: usize,
    data: T,
}

/// An append-only log; entry `i` holds the `i`-th value appended.
#[derive(Debug)]
pub struct RaftLog<T> {
    messages: Vec<RaftLogMessage<T>>,
    id: usize,
}

impl<T> View for RaftLog<T> {
    type V = Seq<T>;

    /// The values in the log, oldest first.
    closed spec fn view(&self) -> Seq<T> {
        self.messages@.map_values(|m: RaftLogMessage<T>| m.data)
    }
}

impl<T> RaftLog<T> {
    /// The next sequence number equals the number of entries, and entry `i`
    /// carries sequence number `i`.
    pub closed spec fn well_formed(&self) -> bool {
        &&& self.id == self.messages@.len()
        &&& forall|i: int| 0 <= i < self.messages@.len() ==> #[trigger] self.messages@[i].id == i
    }
}

impl<T: Clone> RaftLog<T> {
    /// An empty log.
    pub fn new() -> (log: RaftLog<T>)
        ensures
            log.well_formed(),
            log@ == Seq::<T>::empty(),
    {
        let log = RaftLog { messages: Vec::new(), id: 0 };
        assert(log@ =~= Seq::<T>::empty());
        log
    }

    fn get_id(&mut self) -> (value: usize)
        requires
            old(self).id < usize::MAX,
        ensures
            value == old(self).id,
            final(self).id == old(self).id + 1,
            final(self).messages == old(self).messages,
    {
        let value = self.id;
        self.id = self.id + 1;
        value
    }

    /// Appends `data` as the newest entry.
    pub fn append(&mut self, data: T)
        requires
            old(self).well_formed(),
            old(self)@.len() < usize::MAX,
        ensures
            final(self).well_formed(),
            final(self)@ == old(self)@.push(data),
    {
        let id = self.get_id();
        self.messages.push(RaftLogMessage { id: id, data: data });
        assert(self@ =~= old(self)@.push(data));
    }

    /// A copy of the entry at `index`; the log must hold that entry.
    pub fn get(&self, index: usize) -> (r: Option<T>)
        requires
            self.well_formed(),
            index < self@.len(),
        ensures
            r matches Some(v) && cloned(self@[index as int], v),
    {
        let list = &self.messages;
        let data = list[index].data.clone();
        if index < list.len() {
            Some(data)
        } else {
            None
        }
    }
}

/// A read gives back what the write stored: once `after` is `before` with
/// `data` appended, the entry at the old length is `data` and every earlier
/// entry is the one that was there.
pub proof fn lemma_read_after_append<T>(before: RaftLog<T>, data: T, after: RaftLog<T>, index: int)
    requires
        after@ == before@.push(data),
        0 <= index <= before@.len(),
    ensures
        after@.len() == before@.len() + 1,
        after@[index] == (if index == before@.len() { data } else { before@[index] }),
{
}

} // verus!
