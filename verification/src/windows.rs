//! The set of windows that are open.

use vstd::prelude::*;

verus! {

/// `ids` with `id` added at the end, unless it is there already.
pub open spec fn with_window(ids: Seq<u64>, id: u64) -> Seq<u64> {
    if ids.contains(id) {
        ids
    } else {
        ids.push(id)
    }
}

/// `ids` without `id`.
pub open spec fn without_window(ids: Seq<u64>, id: u64) -> Seq<u64> {
    if ids.contains(id) {
        ids.remove(ids.index_of(id))
    } else {
        ids
    }
}

/// Adding a window to a list without repetitions leaves it without
/// repetitions and adds exactly that window.
pub proof fn lemma_with_window(ids: Seq<u64>, id: u64)
    requires
        ids.no_duplicates(),
    ensures
        with_window(ids, id).no_duplicates(),
        with_window(ids, id).to_set() == ids.to_set().insert(id),
        with_window(ids, id).len() == if ids.contains(id) {
            ids.len()
        } else {
            ids.len() + 1
        },
{
    if ids.contains(id) {
        assert(ids.to_set().insert(id) =~= ids.to_set());
    } else {
        ids.lemma_push_to_set_commute(id);
    }
}

/// Removing a window from a list without repetitions leaves it without
/// repetitions and removes exactly that window.
pub proof fn lemma_without_window(ids: Seq<u64>, id: u64)
    requires
        ids.no_duplicates(),
    ensures
        without_window(ids, id).no_duplicates(),
        without_window(ids, id).to_set() == ids.to_set().remove(id),
        !without_window(ids, id).contains(id),
        without_window(ids, id).len() == if ids.contains(id) {
            ids.len() - 1
        } else {
            ids.len() as int
        },
{
    if ids.contains(id) {
        let at = ids.index_of(id);
        let rest = ids.remove(at);
        assert forall|i: int| 0 <= i < rest.len() implies #[trigger] rest[i] == ids[if i < at {
            i
        } else {
            i + 1
        }] by {}
        assert forall|w: u64| rest.contains(w) <==> ids.contains(w) && w != id by {
            if rest.contains(w) {
                let i = choose|i: int| 0 <= i < rest.len() && rest[i] == w;
                assert(rest[i] == ids[if i < at {
                    i
                } else {
                    i + 1
                }]);
            }
            if ids.contains(w) && w != id {
                let j = choose|j: int| 0 <= j < ids.len() && ids[j] == w;
                if j < at {
                    assert(rest[j] == w);
                } else {
                    assert(rest[j - 1] == w);
                }
            }
        }
        assert(rest.to_set() =~= ids.to_set().remove(id));
    } else {
        assert(ids.to_set().remove(id) =~= ids.to_set());
    }
}

/// The windows that are open, by their identifiers, in the order in which they
/// were opened.
#[derive(Clone, Debug)]
pub struct WindowSet {
    ids: Vec<u64>,
}

impl View for WindowSet {
    type V = Seq<u64>;

    closed spec fn view(&self) -> Seq<u64> {
        self.ids@
    }
}

impl WindowSet {
    /// No window is listed twice.
    pub open spec fn wf(&self) -> bool {
        self@.no_duplicates()
    }

    /// The set with no window in it.
    pub fn new() -> (set: WindowSet)
        ensures
            set.wf(),
            set@ == Seq::<u64>::empty(),
    {
        WindowSet { ids: Vec::new() }
    }

    /// The number of open windows.
    pub fn len(&self) -> (n: usize)
        ensures
            n == self@.len(),
    {
        self.ids.len()
    }

    /// Whether no window is open.
    pub fn is_empty(&self) -> (b: bool)
        ensures
            b == (self@.len() == 0),
    {
        self.ids.len() == 0
    }

    /// Whether the window `id` is open.
    pub fn contains(&self, id: u64) -> (b: bool)
        ensures
            b == self@.contains(id),
    {
        self.position(id).is_some()
    }

    /// The identifier of the `i`-th open window, or `None` where fewer are
    /// open.
    pub fn get(&self, i: usize) -> (id: Option<u64>)
        ensures
            id == if i < self@.len() {
                Some(self@[i as int])
            } else {
                None
            },
    {
        if i < self.ids.len() {
            Some(self.ids[i])
        } else {
            None
        }
    }

    /// Where `id` stands in the list.
    fn position(&self, id: u64) -> (at: Option<usize>)
        ensures
            at is None <==> !self@.contains(id),
            at matches Some(i) ==> i < self@.len() && self@[i as int] == id,
    {
        let mut i: usize = 0;
        while i < self.ids.len()
            invariant
                i <= self.ids@.len(),
                forall|j: int| 0 <= j < i ==> self.ids@[j] != id,
            decreases self.ids@.len() - i,
        {
            if self.ids[i] == id {
                return Some(i);
            }
            i = i + 1;
        }
        None
    }

    /// Adds the window `id`. Returns whether it was new.
    pub fn insert(&mut self, id: u64) -> (added: bool)
        requires
            old(self).wf(),
        ensures
            final(self).wf(),
            added == !old(self)@.contains(id),
            final(self)@ == with_window(old(self)@, id),
    {
        if self.position(id).is_some() {
            return false;
        }
        proof {
            lemma_with_window(self@, id);
        }
        self.ids.push(id);
        true
    }

    /// Removes the window `id`. Returns whether it was open.
    pub fn remove(&mut self, id: u64) -> (removed: bool)
        requires
            old(self).wf(),
        ensures
            final(self).wf(),
            removed == old(self)@.contains(id),
            final(self)@ == without_window(old(self)@, id),
    {
        match self.position(id) {
            None => false,
            Some(i) => {
                proof {
                    lemma_without_window(self@, id);
                    assert(self@.index_of(id) == i);
                }
                self.ids.remove(i);
                true
            },
        }
    }
}

} // verus!
