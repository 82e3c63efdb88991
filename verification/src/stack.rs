use vstd::prelude::*;

verus! {

/// A fixed-capacity stack of `Copy` values. Pushing onto a full stack and
/// popping from an empty one are capacity-planning bugs, excluded by
/// precondition.
pub struct Stack<T, const N: usize> {
    data: Vec<T>,
}

impl<T: Copy, const N: usize> Stack<T, N> {
    /// The held values, bottom first.
    pub closed spec fn view(&self) -> Seq<T> {
        self.data@
    }

    /// The stack never exceeds its capacity.
    pub open spec fn wf(&self) -> bool {
        self.view().len() <= N
    }

    /// How many values are held.
    pub fn size(&self) -> (r: usize)
        ensures
            r == self.view().len(),
    {
        self.data.len()
    }

    /// Whether the stack holds nothing.
    pub fn empty(&self) -> (r: bool)
        ensures
            r == (self.view().len() == 0),
    {
        self.size() == 0
    }

    /// Pushes a value on top.
    pub fn push(&mut self, data: T)
        requires
            old(self).wf(),
            old(self).view().len() < N,
        ensures
            final(self).wf(),
            final(self).view() == old(self).view().push(data),
    {
        self.data.push(data);
    }

    /// Pops the top value.
    pub fn pop(&mut self) -> (r: T)
        requires
            old(self).wf(),
            old(self).view().len() > 0,
        ensures
            final(self).wf(),
            final(self).view() == old(self).view().drop_last(),
            r == old(self).view().last(),
    {
        let r: Option<T> = self.data.pop();
        match r {
            Some(v) => v,
            None => {
                proof {
                    assert(false);
                }
                unreached()
            },
        }
    }

    /// An empty stack.
    pub fn new() -> (r: Stack<T, N>)
        ensures
            r.wf(),
            r.view() == Seq::<T>::empty(),
    {
        Stack { data: Vec::new() }
    }
}

impl<T: Copy, const N: usize> Default for Stack<T, N> {
    /// An empty stack.
    fn default() -> (r: Stack<T, N>)
        ensures
            r.wf(),
            r.view() == Seq::<T>::empty(),
    {
        Stack::new()
    }
}

} // verus!
