use vstd::prelude::*;

verus! {

/// A list of callbacks that are all called, in the order in which they
/// registered, with every event that is announced.
///
/// All callbacks of one notifier share the type `F`; a notifier that must
/// hold closures of different types uses a boxed `dyn Fn(&E)` for `F`.
#[verifier::reject_recursive_types(E)]
pub struct Notifier<E, F> {
    subscribers: Vec<F>,
    events: core::marker::PhantomData<E>,
}

impl<E, F: Fn(&E)> Notifier<E, F> {
    /// The registered callbacks, first registered first.
    pub closed spec fn subscribers(&self) -> Seq<F> {
        self.subscribers@
    }

    pub fn new() -> (n: Notifier<E, F>)
        ensures
            n.subscribers() == Seq::<F>::empty(),
    {
        Notifier { subscribers: Vec::new(), events: core::marker::PhantomData }
    }

    pub fn register(&mut self, callback: F)
        ensures
            final(self).subscribers() == old(self).subscribers().push(callback),
    {
        self.subscribers.push(callback);
    }

    /// Calls every registered callback with `event`, in the order of
    /// registration.
    pub fn notify(&self, event: E)
        requires
            forall|i: int| 0 <= i < self.subscribers().len()
                ==> #[trigger] self.subscribers()[i].requires((&event,)),
        ensures
            forall|i: int| 0 <= i < self.subscribers().len()
                ==> #[trigger] self.subscribers()[i].ensures((&event,), ()),
    {
        let n: usize = self.subscribers.len();
        for k in 0..n
            invariant
                n == self.subscribers@.len(),
                forall|i: int| 0 <= i < self.subscribers().len()
                    ==> #[trigger] self.subscribers()[i].requires((&event,)),
                forall|i: int| 0 <= i < k
                    ==> #[trigger] self.subscribers()[i].ensures((&event,), ()),
        {
            let callback = &self.subscribers[k];
            assert(self.subscribers()[k as int].requires((&event,)));
            callback(&event);
        }
    }
}

} // verus!
