//! The reactor's table of parked wakers.
//!
//! A task that waits for I/O leaves its waker in a free slot of this table; the
//! slot's index is the token under which the poller reports readiness, and the
//! reactor uses the token to find the waker again.
use vstd::prelude::*;

verus! {

/// The token under which the poller reports that the reactor itself was woken
/// (so that another thread can take its lock). No waker slot carries it.
pub const WAKER_TOKEN: usize = usize::MAX;

/// `i` is the first free slot of `s`: every slot before it holds a waker, and it
/// is either a free slot or one past the end of the table.
pub open spec fn is_first_free<W>(s: Seq<Option<W>>, i: int) -> bool {
    &&& 0 <= i <= s.len()
    &&& i < s.len() ==> s[i] is None
    &&& forall|j: int| 0 <= j < i ==> s[j] is Some
}

/// The table after `waker` has been stored at slot `token`: the slot is
/// overwritten when it lies inside the table, appended otherwise.
pub open spec fn stored<W>(s: Seq<Option<W>>, token: int, waker: W) -> Seq<Option<W>> {
    if token < s.len() {
        s.update(token, Some(waker))
    } else {
        s.push(Some(waker))
    }
}

/// A new waker has a slot with an index other than `usize::MAX`: some slot is
/// free, or the table can grow by one slot below that index.
pub open spec fn has_room<W>(s: Seq<Option<W>>) -> bool {
    s.len() < usize::MAX || exists|j: int| 0 <= j < s.len() && s[j] is None
}

/// The waker a readiness event under `token` wakes: the one parked in the
/// token's slot, if any. The reactor's own token has no slot.
pub open spec fn waker_under<W>(s: Seq<Option<W>>, token: usize) -> Option<W> {
    if token != WAKER_TOKEN && token < s.len() {
        s[token as int]
    } else {
        None
    }
}

/// An event under any token other than the reactor's, inside the table, is for
/// exactly the waker in that token's slot, whichever other slots are free.
pub proof fn lemma_event_wakes_its_own_slot<W>(s: Seq<Option<W>>, token: usize)
    requires
        token != WAKER_TOKEN,
        token < s.len(),
    ensures
        waker_under(s, token) == s[token as int],
{
}

/// An event under the reactor's token, or under a token past the table's end,
/// is for no waker.
pub proof fn lemma_event_outside_slots_wakes_nobody<W>(s: Seq<Option<W>>, token: usize)
    requires
        token == WAKER_TOKEN || token >= s.len(),
    ensures
        waker_under(s, token) is None,
{
}

/// A table that can still grow below index `usize::MAX` has room for a new
/// waker, and so does a table with a free slot; a table without room is full
/// and at its largest size.
pub proof fn lemma_room_for_new_waker<W>(s: Seq<Option<W>>)
    ensures
        s.len() < usize::MAX ==> has_room(s),
        (exists|j: int| 0 <= j < s.len() && s[j] is None) ==> has_room(s),
        !has_room(s) ==> s.len() >= usize::MAX && forall|j: int| 0 <= j < s.len() ==> s[j] is Some,
{
}

/// Slots of wakers; a free slot holds `None`.
pub struct WakerSlots<W> {
    slots: Vec<Option<W>>,
}

impl<W> View for WakerSlots<W> {
    type V = Seq<Option<W>>;

    closed spec fn view(&self) -> Seq<Option<W>> {
        self.slots@
    }
}

/// Where the reactor sends a readiness event.
pub enum EventRoute<'a, W> {
    /// The event woke the reactor itself; nobody else is woken.
    ReactorWaker,
    /// The event belongs to the waker parked in the event's slot.
    Wake(&'a W),
    /// No waker is parked under the event's token.
    Unknown,
}

impl<W> WakerSlots<W> {
    /// An empty table.
    pub fn new() -> (t: Self)
        ensures
            t@ == Seq::<Option<W>>::empty(),
    {
        WakerSlots { slots: Vec::new() }
    }

    /// The first free slot, or the table's length when every slot is taken.
    fn first_free(&self) -> (i: usize)
        ensures
            is_first_free(self@, i as int),
    {
        let n = self.slots.len();
        let mut i: usize = 0;
        while i < n
            invariant
                n == self.slots@.len(),
                i <= n,
                forall|j: int| 0 <= j < i ==> self.slots@[j] is Some,
            decreases n - i,
        {
            if self.slots[i].is_none() {
                return i;
            }
            i = i + 1;
        }
        i
    }

    /// Whether `store` can find a slot for one more waker.
    pub fn can_store(&self) -> (r: bool)
        ensures
            r == has_room(self@),
            self@.len() < usize::MAX ==> r,
            (exists|j: int| 0 <= j < self@.len() && self@[j] is None) ==> r,
            !r ==> self@.len() >= usize::MAX && forall|j: int|
                0 <= j < self@.len() ==> self@[j] is Some,
    {
        let i = self.first_free();
        i < self.slots.len() || self.slots.len() < usize::MAX
    }

    /// Parks `waker` in the first free slot, growing the table by one slot when
    /// none is free, and returns the slot's index as its token.
    pub fn store(&mut self, waker: W) -> (token: usize)
        requires
            has_room(old(self)@),
        ensures
            is_first_free(old(self)@, token as int),
            token < final(self)@.len(),
            token != WAKER_TOKEN,
            final(self)@ == stored(old(self)@, token as int, waker),
    {
        let spot = self.first_free();
        if spot == self.slots.len() {
            self.slots.push(Some(waker));
        } else {
            self.slots.set(spot, Some(waker));
        }
        spot
    }

    /// Takes the waker parked under `token` out of the table, freeing its slot.
    pub fn remove(&mut self, token: usize) -> (waker: W)
        requires
            token < old(self)@.len(),
            old(self)@[token as int] is Some,
        ensures
            old(self)@[token as int] == Some(waker),
            final(self)@ == old(self)@.update(token as int, None),
    {
        let old_waker = self.slots[token].take();
        old_waker.unwrap()
    }

    /// The waker parked under `token`, if any.
    pub fn get(&self, token: usize) -> (r: Option<&W>)
        ensures
            match r {
                Some(w) => token < self@.len() && self@[token as int] == Some(*w),
                None => token >= self@.len() || self@[token as int] is None,
            },
    {
        if token < self.slots.len() {
            self.slots[token].as_ref()
        } else {
            None
        }
    }

    /// Decides whom a readiness event with `token` is for.
    pub fn route_event(&self, token: usize) -> (r: EventRoute<'_, W>)
        ensures
            r is ReactorWaker <==> token == WAKER_TOKEN,
            r is Unknown <==> token != WAKER_TOKEN && waker_under(self@, token) is None,
            r matches EventRoute::Wake(w) ==> waker_under(self@, token) == Some(*w),
            token != WAKER_TOKEN && token < self@.len() && self@[token as int] is Some ==> (r matches EventRoute::Wake(w) && self@[token as int] == Some(*w)),
            r matches EventRoute::Wake(w) ==> token < self@.len() && self@[token as int] == Some(*w),
            r is Unknown <==> token != WAKER_TOKEN && (token >= self@.len() || self@[token as int] is None),
    {
        if token == WAKER_TOKEN {
            EventRoute::ReactorWaker
        } else {
            match self.get(token) {
                Some(w) => EventRoute::Wake(w),
                None => EventRoute::Unknown,
            }
        }
    }
}

/// Storing a waker never disturbs a parked one: the new waker takes a free slot
/// and every other slot keeps what it held.
pub proof fn lemma_store_keeps_parked<W>(s: Seq<Option<W>>, token: int, waker: W, j: int)
    requires
        is_first_free(s, token),
        0 <= j < s.len(),
        j != token,
    ensures
        stored(s, token, waker)[j] == s[j],
        stored(s, token, waker)[token] == Some(waker),
        token < s.len() ==> s[token] is None,
{
}

/// Removing the waker that was just stored hands it back and leaves the table
/// as it was, up to one more free slot at its end.
pub proof fn lemma_store_then_remove<W>(s: Seq<Option<W>>, token: int, waker: W)
    requires
        is_first_free(s, token),
    ensures
        stored(s, token, waker)[token] == Some(waker),
        stored(s, token, waker).update(token, None) == (if token < s.len() {
            s
        } else {
            s.push(None)
        }),
{
    if token < s.len() {
        assert(s.update(token, Some(waker)).update(token, None) =~= s);
    } else {
        assert(s.push(Some(waker)).update(token, None) =~= s.push(None));
    }
}

/// A slot freed by removal is reused: the next waker goes to that slot or to a
/// lower free one, and the table does not grow.
pub proof fn lemma_remove_then_store_reuses<W>(s: Seq<Option<W>>, freed: int, token: int)
    requires
        0 <= freed < s.len(),
        is_first_free(s.update(freed, None), token),
    ensures
        token <= freed,
        has_room(s.update(freed, None)),
{
    let t = s.update(freed, None);
    if token > freed {
        assert(t[freed] is Some);
    }
}

/// A stored waker is what a readiness event under its token wakes, until it is
/// removed.
pub proof fn lemma_stored_waker_is_found<W>(s: Seq<Option<W>>, token: usize, waker: W)
    requires
        s.len() <= usize::MAX,
        has_room(s),
        is_first_free(s, token as int),
    ensures
        token != WAKER_TOKEN,
        waker_under(stored(s, token as int, waker), token) == Some(waker),
        waker_under(stored(s, token as int, waker).update(token as int, None), token) is None,
{
    if s.len() >= usize::MAX {
        let j = choose|j: int| 0 <= j < s.len() && s[j] is None;
        assert(token <= j);
    }
}

} // verus!
