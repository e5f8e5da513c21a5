//! The operand stack of 256-bit words, the auxiliary return stack, and the
//! stack bounds that each operation declares.

use vstd::prelude::*;
use crate::err::RunError;
use crate::word::Word;

verus! {

/// The default limit on the height of an operand stack.
pub const STACK_LIMIT: i16 = 1024;

/// The greatest height at which an operation that pops `pops` items and
/// pushes `push` items may start without passing the default limit.
pub fn max_stack(pops: &i16, push: &i16) -> (r: i16)
    requires
        i16::MIN <= STACK_LIMIT + *pops - *push <= i16::MAX,
    ensures
        r == STACK_LIMIT + *pops - *push,
{
    let wide: i32 = (STACK_LIMIT as i32) + (*pops as i32) - (*push as i32);
    wide as i16
}

/// The least height at which an operation that pops `pops` items may start.
pub fn min_stack(pops: &i16, push: &i16) -> (r: i16)
    ensures
        r == *pops,
{
    *pops
}

/// `max_stack` for an operation that reads `n` items and leaves `n + 1`.
pub fn max_dup_stack(n: &i16) -> (r: i16)
    requires
        *n < i16::MAX,
    ensures
        r == STACK_LIMIT - 1,
{
    max_stack(n, &(*n + 1))
}

/// `min_stack` for an operation that reads `n` items and leaves `n + 1`.
pub fn min_dup_stack(n: &i16) -> (r: i16)
    ensures
        r == *n,
{
    *n
}

/// `max_stack` for an operation that reads `n` items and leaves `n`.
pub fn max_swap_stack(n: &i16) -> (r: i16)
    ensures
        r == STACK_LIMIT,
{
    max_stack(n, n)
}

/// `min_stack` for an operation that reads `n` items and leaves `n`.
pub fn min_swap_stack(n: &i16) -> (r: i16)
    ensures
        r == *n,
{
    *n
}

/// The stack after a push of `w`: unchanged where it is at its limit.
pub open spec fn pushed(s: Seq<Word>, limit: nat, w: Word) -> Seq<Word> {
    if s.len() < limit {
        s.push(w)
    } else {
        s
    }
}

/// The stack after a pop: unchanged where it is empty.
pub open spec fn popped(s: Seq<Word>) -> Seq<Word> {
    if s.len() > 0 {
        s.drop_last()
    } else {
        s
    }
}

/// A push of the word it carries, or a pop.
pub enum StackOp {
    Push(Word),
    Pop,
}

/// The stack after the pushes and pops of `ops`, first one first.
pub open spec fn after_ops(s: Seq<Word>, limit: nat, ops: Seq<StackOp>) -> Seq<Word>
    decreases ops.len(),
{
    if ops.len() == 0 {
        s
    } else {
        let before = after_ops(s, limit, ops.drop_last());
        match ops.last() {
            StackOp::Push(w) => pushed(before, limit, w),
            StackOp::Pop => popped(before),
        }
    }
}

/// Whatever is pushed and popped, in whatever order, a stack that is within
/// its limit stays within it.
pub proof fn lemma_ops_keep_limit(s: Seq<Word>, limit: nat, ops: Seq<StackOp>)
    requires
        s.len() <= limit,
    ensures
        after_ops(s, limit, ops).len() <= limit,
    decreases ops.len(),
{
    if ops.len() > 0 {
        lemma_ops_keep_limit(s, limit, ops.drop_last());
    }
}

/// `words.len()` pushes onto a stack that has room for them, followed by as
/// many pops, leave the stack as it was: where it was empty, it is empty
/// again, and one more pop is an underflow.
pub proof fn lemma_pops_undo_pushes(s: Seq<Word>, limit: nat, words: Seq<Word>)
    requires
        s.len() + words.len() <= limit,
    ensures
        after_ops(
            s,
            limit,
            Seq::new(words.len(), |i: int| StackOp::Push(words[i])) + Seq::new(
                words.len(),
                |i: int| StackOp::Pop,
            ),
        ) == s,
    decreases words.len(),
{
    let pushes = Seq::new(words.len(), |i: int| StackOp::Push(words[i]));
    let pops = Seq::new(words.len(), |i: int| StackOp::Pop);
    lemma_pushes(s, limit, words);
    lemma_pops(s + words, limit, pushes, words.len());
    assert((s + words).subrange(0, s.len() as int) =~= s);
}

/// Pushes onto a stack that has room for them put all the words on it.
proof fn lemma_pushes(s: Seq<Word>, limit: nat, words: Seq<Word>)
    requires
        s.len() + words.len() <= limit,
    ensures
        after_ops(s, limit, Seq::new(words.len(), |i: int| StackOp::Push(words[i]))) == s + words,
    decreases words.len(),
{
    let pushes = Seq::new(words.len(), |i: int| StackOp::Push(words[i]));
    if words.len() == 0 {
        assert(s + words =~= s);
    } else {
        let fewer = words.drop_last();
        lemma_pushes(s, limit, fewer);
        assert(pushes.drop_last() =~= Seq::new(fewer.len(), |i: int| StackOp::Push(fewer[i])));
        assert((s + fewer).push(words.last()) =~= s + words);
    }
}

/// `k` pops after `ops` take the `k` topmost items off a stack that holds them.
proof fn lemma_pops(t: Seq<Word>, limit: nat, ops: Seq<StackOp>, k: nat)
    requires
        k <= t.len(),
    ensures
        forall|s: Seq<Word>| #[trigger]
            after_ops(s, limit, ops) == t ==> after_ops(
                s,
                limit,
                ops + Seq::new(k, |i: int| StackOp::Pop),
            ) == t.subrange(0, t.len() - k),
    decreases k,
{
    let pops = Seq::new(k, |i: int| StackOp::Pop);
    if k == 0 {
        assert(ops + pops =~= ops);
        assert(t.subrange(0, t.len() as int) =~= t);
    } else {
        let fewer = Seq::new((k - 1) as nat, |i: int| StackOp::Pop);
        lemma_pops(t, limit, ops, (k - 1) as nat);
        assert((ops + pops).drop_last() =~= ops + fewer);
        assert(t.subrange(0, t.len() - k + 1).drop_last() =~= t.subrange(0, t.len() - k));
    }
}

/// A stack of words with a limit on its height. The top is the last item.
pub struct Stack {
    data: Vec<Word>,
    height: u128,
}

impl View for Stack {
    type V = Seq<Word>;

    /// The items, bottom first.
    closed spec fn view(&self) -> Seq<Word> {
        self.data@
    }
}

impl Stack {
    #[verifier::type_invariant]
    spec fn inv(self) -> bool {
        self.data@.len() <= self.height
    }

    /// The greatest number of items that the stack may hold.
    pub closed spec fn limit(&self) -> nat {
        self.height as nat
    }

    /// The stack holds no more items than its limit allows.
    pub open spec fn wf(&self) -> bool {
        self@.len() <= self.limit()
    }

    /// An empty stack that may hold up to `height` items.
    pub fn new(height: u128) -> (r: Stack)
        ensures
            r@ == Seq::<Word>::empty(),
            r.limit() == height,
            r.wf(),
    {
        Stack { data: Vec::new(), height }
    }

    /// An empty stack with the default limit.
    pub fn default() -> (r: Stack)
        ensures
            r@ == Seq::<Word>::empty(),
            r.limit() == STACK_LIMIT,
            r.wf(),
    {
        Stack::new(1024)
    }

    /// Puts `data` on top; `StackOverflow`, with the stack unchanged, where
    /// the stack is at its limit.
    pub fn push(&mut self, data: &Word) -> (r: Result<(), RunError>)
        ensures
            final(self).wf(),
            final(self).limit() == old(self).limit(),
            old(self)@.len() < old(self).limit() ==> r == Ok::<(), RunError>(()) && final(self)@
                == old(self)@.push(*data),
            old(self)@.len() >= old(self).limit() ==> r == Err::<(), RunError>(
                RunError::StackOverflow,
            ) && final(self)@ == old(self)@,
            final(self)@ == pushed(old(self)@, old(self).limit(), *data),
    {
        proof {
            use_type_invariant(&*self);
        }
        if (self.data.len() as u128) >= self.height {
            return Err(RunError::StackOverflow);
        }
        let mut items: Vec<Word> = Vec::new();
        core::mem::swap(&mut self.data, &mut items);
        items.push(*data);
        core::mem::swap(&mut self.data, &mut items);
        Ok(())
    }

    /// Puts the items of `data` on top, first item first; `StackOverflow`,
    /// with the stack unchanged, where they do not all fit.
    pub fn push_multiple(&mut self, data: &Vec<Word>) -> (r: Result<(), RunError>)
        ensures
            final(self).wf(),
            final(self).limit() == old(self).limit(),
            old(self)@.len() + data@.len() <= old(self).limit() ==> r == Ok::<(), RunError>(())
                && final(self)@ == old(self)@ + data@,
            old(self)@.len() + data@.len() > old(self).limit() ==> r == Err::<(), RunError>(
                RunError::StackOverflow,
            ) && final(self)@ == old(self)@,
    {
        proof {
            use_type_invariant(&*self);
        }
        if (self.data.len() as u128) + (data.len() as u128) > self.height {
            return Err(RunError::StackOverflow);
        }
        let mut items: Vec<Word> = Vec::new();
        core::mem::swap(&mut self.data, &mut items);
        let mut i: usize = 0;
        while i < data.len()
            invariant
                i <= data.len(),
                items@ == old(self).data@ + data@.subrange(0, i as int),
            decreases data.len() - i,
        {
            items.push(data[i]);
            i += 1;
            assert(items@ =~= old(self).data@ + data@.subrange(0, i as int));
        }
        assert(data@.subrange(0, i as int) =~= data@);
        core::mem::swap(&mut self.data, &mut items);
        Ok(())
    }

    /// Takes the top item off; `StackUnderflow` on an empty stack.
    pub fn pop(&mut self) -> (r: Result<Word, RunError>)
        ensures
            final(self).wf(),
            final(self).limit() == old(self).limit(),
            old(self)@.len() > 0 ==> r == Ok::<Word, RunError>(old(self)@.last()) && final(self)@
                == old(self)@.drop_last(),
            old(self)@.len() == 0 ==> r == Err::<Word, RunError>(RunError::StackUnderflow)
                && final(self)@ == old(self)@,
            final(self)@ == popped(old(self)@),
    {
        proof {
            use_type_invariant(&*self);
        }
        let mut items: Vec<Word> = Vec::new();
        core::mem::swap(&mut self.data, &mut items);
        let top = items.pop();
        core::mem::swap(&mut self.data, &mut items);
        match top {
            Some(w) => Ok(w),
            None => Err(RunError::StackUnderflow),
        }
    }

    /// The top item, left in place and open to change; `StackUnderflow` on an
    /// empty stack.
    pub fn peek(&mut self) -> (r: Result<&mut Word, RunError>)
        ensures
            old(self)@.len() == 0 ==> r.is_err() && r.unwrap_err() == RunError::StackUnderflow
                && final(self)@ == old(self)@,
            old(self)@.len() > 0 ==> r.is_ok() && *r.unwrap() == old(self)@.last() && final(self)@
                == old(self)@.drop_last().push(*final(r.unwrap())),
            final(self).limit() == old(self).limit(),
    {
        proof {
            use_type_invariant(&*self);
        }
        let n = self.data.len();
        if n == 0 {
            return Err(RunError::StackUnderflow);
        }
        Ok(&mut self.data[n - 1])
    }

    /// Replaces the top item by `data`; `StackUnderflow` on an empty stack.
    pub fn set_top(&mut self, data: &Word) -> (r: Result<(), RunError>)
        ensures
            final(self).wf(),
            final(self).limit() == old(self).limit(),
            old(self)@.len() > 0 ==> r == Ok::<(), RunError>(()) && final(self)@ == old(
                self,
            )@.drop_last().push(*data),
            old(self)@.len() == 0 ==> r == Err::<(), RunError>(RunError::StackUnderflow)
                && final(self)@ == old(self)@,
    {
        proof {
            use_type_invariant(&*self);
        }
        let n = self.data.len();
        if n == 0 {
            return Err(RunError::StackUnderflow);
        }
        self.data[n - 1] = *data;
        assert(self.data@ =~= old(self).data@.drop_last().push(*data));
        Ok(())
    }

    /// Exchanges the top item with the item `n` places below it;
    /// `StackUnderflow`, with the stack unchanged, where there is no such item.
    pub fn swap(&mut self, n: i16) -> (r: Result<(), RunError>)
        ensures
            final(self).wf(),
            final(self).limit() == old(self).limit(),
            0 <= n < old(self)@.len() ==> r == Ok::<(), RunError>(()) && final(self)@ == old(
                self,
            )@.update(old(self)@.len() - 1, old(self)@[old(self)@.len() - 1 - n]).update(
                old(self)@.len() - 1 - n,
                old(self)@.last(),
            ),
            !(0 <= n < old(self)@.len()) ==> r == Err::<(), RunError>(RunError::StackUnderflow)
                && final(self)@ == old(self)@,
    {
        proof {
            use_type_invariant(&*self);
        }
        let len = self.data.len();
        if n < 0 || (n as usize) >= len {
            return Err(RunError::StackUnderflow);
        }
        let below: usize = len - 1 - (n as usize);
        let top = self.data[len - 1];
        let other = self.data[below];
        self.data[len - 1] = other;
        self.data[below] = top;
        Ok(())
    }

    /// Puts a copy of the `n`-th item from the top, counted from 1, on top.
    /// `StackUnderflow` where there is no such item, else `StackOverflow`
    /// where the stack is at its limit; the stack is then unchanged.
    pub fn dup(&mut self, n: i16) -> (r: Result<(), RunError>)
        ensures
            final(self).wf(),
            final(self).limit() == old(self).limit(),
            1 <= n <= old(self)@.len() && old(self)@.len() < old(self).limit() ==> r == Ok::<
                (),
                RunError,
            >(()) && final(self)@ == old(self)@.push(old(self)@[old(self)@.len() - n]),
            !(1 <= n <= old(self)@.len()) ==> r == Err::<(), RunError>(RunError::StackUnderflow)
                && final(self)@ == old(self)@,
            1 <= n <= old(self)@.len() && old(self)@.len() >= old(self).limit() ==> r == Err::<
                (),
                RunError,
            >(RunError::StackOverflow) && final(self)@ == old(self)@,
    {
        proof {
            use_type_invariant(&*self);
        }
        let len = self.data.len();
        if n < 1 || (n as usize) > len {
            return Err(RunError::StackUnderflow);
        }
        if (len as u128) >= self.height {
            return Err(RunError::StackOverflow);
        }
        let item = self.data[len - (n as usize)];
        let mut items: Vec<Word> = Vec::new();
        core::mem::swap(&mut self.data, &mut items);
        items.push(item);
        core::mem::swap(&mut self.data, &mut items);
        Ok(())
    }

    /// The `n`-th item from the top, counted from 0; `StackUnderflow` where
    /// there is no such item.
    pub fn back(&self, n: i16) -> (r: Result<Word, RunError>)
        ensures
            0 <= n < self@.len() ==> r == Ok::<Word, RunError>(self@[self@.len() - 1 - n]),
            !(0 <= n < self@.len()) ==> r == Err::<Word, RunError>(RunError::StackUnderflow),
    {
        let len = self.data.len();
        if n < 0 || (n as usize) >= len {
            return Err(RunError::StackUnderflow);
        }
        Ok(self.data[len - 1 - (n as usize)])
    }

    /// The number of items on the stack.
    pub fn size(&self) -> (r: usize)
        ensures
            r == self@.len(),
            self.wf(),
    {
        proof {
            use_type_invariant(self);
        }
        self.data.len()
    }
}

/// A stack of 32-bit program positions, kept for subroutine instructions.
pub struct ReturnStack {
    data: Vec<u32>,
}

impl View for ReturnStack {
    type V = Seq<u32>;

    /// The items, bottom first.
    closed spec fn view(&self) -> Seq<u32> {
        self.data@
    }
}

impl ReturnStack {
    /// An empty return stack.
    pub fn new() -> (r: ReturnStack)
        ensures
            r@ == Seq::<u32>::empty(),
    {
        ReturnStack { data: Vec::new() }
    }

    /// Puts `d` on top.
    pub fn push(&mut self, d: u32)
        ensures
            final(self)@ == old(self)@.push(d),
    {
        self.data.push(d);
    }

    /// Takes the top item off; `Err(false)` on an empty stack.
    pub fn pop(&mut self) -> (r: Result<u32, bool>)
        ensures
            old(self)@.len() > 0 ==> r == Ok::<u32, bool>(old(self)@.last()) && final(self)@
                == old(self)@.drop_last(),
            old(self)@.len() == 0 ==> r == Err::<u32, bool>(false) && final(self)@ == old(self)@,
    {
        match self.data.pop() {
            Some(v) => Ok(v),
            None => Err(false),
        }
    }
}

} // verus!
