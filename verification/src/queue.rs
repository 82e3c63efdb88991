use vstd::prelude::*;

verus! {

/// A fixed-capacity container pushed and popped at the same end, so the last
/// value pushed is the first popped. Overflow and underflow are
/// capacity-planning bugs, excluded by precondition.
pub struct Queue<T, const N: usize> {
    data: Vec<T>,
}

impl<T: Copy, const N: usize> Queue<T, N> {
    /// The held values, oldest first.
    pub closed spec fn view(&self) -> Seq<T> {
        self.data@
    }

    /// The queue never exceeds its capacity.
    pub open spec fn wf(&self) -> bool {
        self.view().len() <= N
    }

    /// An empty queue.
    pub fn new() -> (r: Queue<T, N>)
        ensures
            r.wf(),
            r.view() == Seq::<T>::empty(),
    {
        Queue { data: Vec::new() }
    }

    /// How many values are held.
    pub fn size(&self) -> (r: usize)
        ensures
            r == self.view().len(),
    {
        self.data.len()
    }

    /// Whether the queue holds nothing.
    pub fn empty(&self) -> (r: bool)
        ensures
            r == (self.view().len() == 0),
    {
        self.size() == 0
    }

    /// Appends a value.
    pub fn push(&mut self, data: T)
        requires
            old(self).wf(),
            old(self).view().len() < N,
        ensures
            final(self).wf(),
            final(self).view() == old(self).view().push(data),
    {
        self.data.push(data);
    }

    /// Removes and hands back the value pushed most recently.
    pub fn pop(&mut self) -> (r: T)
        requires
            old(self).wf(),
            old(self).view().len() > 0,
        ensures
            final(self).wf(),
            final(self).view() == old(self).view().drop_last(),
            r == old(self).view().last(),
    {
        let r: Option<T> = self.data.pop();
        match r {
            Some(v) => v,
            None => {
                proof {
                    assert(false);
                }
                unreached()
            },
        }
    }
}

} // verus!
