//! The registrations of event listeners, kept for teardown.
use vstd::prelude::*;

verus! {

/// The listeners subscribed on the surface, in the order of registration.
pub struct ListenerSet<L> {
    listeners: Vec<L>,
    closed: bool,
}

/// The mathematical state of a `ListenerSet`.
pub ghost struct ListenerSetView<L> {
    pub listeners: Seq<L>,
    pub closed: bool,
}

impl<L> View for ListenerSet<L> {
    type V = ListenerSetView<L>;

    closed spec fn view(&self) -> ListenerSetView<L> {
        ListenerSetView { listeners: self.listeners@, closed: self.closed }
    }
}

impl<L> ListenerSetView<L> {
    /// A closed set holds no listener.
    pub open spec fn wf(self) -> bool {
        self.closed ==> self.listeners.len() == 0
    }
}

/// The set after the host subscribed `listener`: a closed set stays as it is.
pub open spec fn registered<L>(set: ListenerSetView<L>, listener: L) -> ListenerSetView<L> {
    if set.closed { set } else { ListenerSetView { listeners: set.listeners.push(listener), closed: false } }
}

/// The set after teardown: closed, with no listener left.
pub open spec fn torn_down<L>(set: ListenerSetView<L>) -> ListenerSetView<L> {
    ListenerSetView { listeners: Seq::empty(), closed: true }
}

impl<L> ListenerSet<L> {
    pub fn new() -> (r: ListenerSet<L>)
        ensures
            r@.wf(),
            r@.listeners.len() == 0,
            !r@.closed,
    {
        ListenerSet { listeners: Vec::new(), closed: false }
    }

    /// Records a listener that the host has subscribed. A closed set takes
    /// none and hands it back, to be unsubscribed at once.
    pub fn register(&mut self, listener: L) -> (r: Option<L>)
        requires
            old(self)@.wf(),
        ensures
            final(self)@.wf(),
            final(self)@ == registered(old(self)@, listener),
            old(self)@.closed ==> r == Some(listener),
            !old(self)@.closed ==> r is None,
    {
        if self.closed {
            Some(listener)
        } else {
            self.listeners.push(listener);
            None
        }
    }

    /// Tears the set down: every listener ever registered is handed back,
    /// in order, to be unsubscribed, and none is kept.
    pub fn close(&mut self) -> (r: Vec<L>)
        requires
            old(self)@.wf(),
        ensures
            final(self)@.wf(),
            r@ == old(self)@.listeners,
            final(self)@ == torn_down(old(self)@),
    {
        let mut taken: Vec<L> = Vec::new();
        std::mem::swap(&mut taken, &mut self.listeners);
        self.closed = true;
        assert(self.listeners@ =~= Seq::<L>::empty());
        taken
    }

    pub fn len(&self) -> (r: usize)
        ensures
            r == self@.listeners.len(),
    {
        self.listeners.len()
    }

    pub fn is_closed(&self) -> (r: bool)
        ensures
            r == self@.closed,
    {
        self.closed
    }
}

/// After teardown no listener stays subscribed, however many the host is
/// asked to subscribe later: a later event reaches no callback.
pub proof fn lemma_teardown_leaves_none<L>(set: ListenerSetView<L>, later: Seq<L>)
    ensures
        subscribed_after(torn_down(set), later).listeners.len() == 0,
    decreases later.len(),
{
    if later.len() > 0 {
        lemma_teardown_leaves_none(set, later.drop_last());
    }
}

/// The set after the host subscribed each of `later` in turn.
pub open spec fn subscribed_after<L>(set: ListenerSetView<L>, later: Seq<L>) -> ListenerSetView<L>
    decreases later.len(),
{
    if later.len() == 0 {
        set
    } else {
        registered(subscribed_after(set, later.drop_last()), later.last())
    }
}

} // verus!
