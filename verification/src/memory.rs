//! The linear memory of a call: a byte buffer that starts empty, grows on
//! demand and never shrinks, with the estimates of how far an instruction
//! needs it to reach.

use vstd::prelude::*;
use crate::err::RunError;
use crate::stack::Stack;
use crate::vecutil::{right_pad_bytes, right_padded, zeros};
use crate::word::{be_bytes, Word};

verus! {

/// `s` with the bytes of `v` written over the places from `offset` on.
pub open spec fn written(s: Seq<u8>, offset: int, v: Seq<u8>) -> Seq<u8> {
    Seq::new(
        s.len(),
        |i: int|
            if offset <= i < offset + v.len() {
                v[i - offset]
            } else {
                s[i]
            },
    )
}

/// The `size` bytes of `s` from `start` on, with zero for every place beyond
/// the end of `s`.
pub open spec fn window(s: Seq<u8>, start: int, size: nat) -> Seq<u8> {
    Seq::new(
        size,
        |i: int|
            if start + i < s.len() {
                s[start + i]
            } else {
                0u8
            },
    )
}

/// The size in bytes that memory must have to hold `length` bytes from
/// `offset` on, and whether that size is beyond 64 bits. A length of zero
/// asks for nothing, whatever the offset. Where the length or the offset is
/// itself beyond 64 bits the size is given as 0; where only their sum is,
/// as the sum modulo two to the power 64.
pub open spec fn mem_size64(offset: nat, length: nat) -> (u64, bool) {
    if length == 0 {
        (0u64, false)
    } else if length > u64::MAX || offset > u64::MAX {
        (0u64, true)
    } else if offset + length > u64::MAX {
        ((offset + length - 0x1_0000_0000_0000_0000) as u64, true)
    } else {
        ((offset + length) as u64, false)
    }
}

/// The memory size that a range of `length` bytes at `offset` asks for.
pub fn calc_mem_size64(offset: &Word, length: &Word) -> (r: (u64, bool))
    ensures
        r == mem_size64(offset@, length@),
{
    if !length.fits_u64() {
        return (0, true);
    }
    calc_mem_size64_with_uint(offset, length.low_u64())
}

/// The memory size that a range of `length` bytes at `offset` asks for, for
/// a length that is known to fit in 64 bits.
pub fn calc_mem_size64_with_uint(offset: &Word, length: u64) -> (r: (u64, bool))
    ensures
        r == mem_size64(offset@, length as nat),
{
    if length == 0 {
        return (0, false);
    }
    if !offset.fits_u64() {
        return (0, true);
    }
    let off: u64 = offset.low_u64();
    if off > u64::MAX - length {
        ((((off as u128) + (length as u128)) - 0x1_0000_0000_0000_0000u128) as u64, true)
    } else {
        (off + length, false)
    }
}

/// `size` bytes of `data` from `start` on, padded with zeros where `data`
/// ends before them.
pub fn get_data(data: &Vec<u8>, start: u64, size: u64) -> (r: Vec<u8>)
    requires
        size <= usize::MAX,
    ensures
        r@ == window(data@, start as int, size as nat),
{
    let length: usize = data.len();
    let from: usize = if (start as u128) > (length as u128) {
        length
    } else {
        start as usize
    };
    let to: usize = if (size as u128) > ((length - from) as u128) {
        length
    } else {
        from + (size as usize)
    };
    let mut part: Vec<u8> = Vec::new();
    let mut i: usize = from;
    while i < to
        invariant
            from <= i <= to <= data.len(),
            part@ == data@.subrange(from as int, i as int),
        decreases to - i,
    {
        part.push(data[i]);
        i += 1;
        assert(part@ =~= data@.subrange(from as int, i as int));
    }
    let out = right_pad_bytes(&part, size);
    assert(out@ =~= window(data@, start as int, size as nat));
    out
}

/// The number of 32-byte words that `size` bytes take up.
pub fn to_u64_size(size: u64) -> (r: u64)
    ensures
        r == (size + 31) / 32,
{
    if size > u64::MAX - 31 {
        return u64::MAX / 32 + 1;
    }
    (size + 31) / 32
}

/// Whether every byte is zero.
pub fn all_zero(bs: &Vec<u8>) -> (r: bool)
    ensures
        r == (forall|i: int| 0 <= i < bs@.len() ==> bs@[i] == 0u8),
{
    let mut i: usize = 0;
    while i < bs.len()
        invariant
            i <= bs.len(),
            forall|j: int| 0 <= j < i ==> bs@[j] == 0u8,
        decreases bs.len() - i,
    {
        if bs[i] != 0 {
            return false;
        }
        i += 1;
    }
    true
}

/// Growth never shrinks: growing to `n` bytes and then to no more than `n`
/// leaves the size of the first growth, which is the larger of `n` and the
/// size before; what was there stays, and every new byte is zero.
pub proof fn lemma_growth_is_monotonic(s: Seq<u8>, n: nat, m: nat)
    requires
        m <= n,
    ensures
        right_padded(right_padded(s, n), m) == right_padded(s, n),
        right_padded(s, n).len() == (if s.len() >= n {
            s.len()
        } else {
            n
        }),
        forall|i: int| 0 <= i < s.len() ==> right_padded(s, n)[i] == s[i],
        forall|i: int| s.len() <= i < n ==> right_padded(s, n)[i] == 0u8,
{
}

/// In a memory that was grown from nothing and never written to, every
/// read gives zeros.
pub proof fn lemma_unwritten_memory_is_zero(n: nat, offset: nat, size: nat)
    ensures
        window(right_padded(Seq::<u8>::empty(), n), offset as int, size) == zeros(size),
{
    assert(window(right_padded(Seq::<u8>::empty(), n), offset as int, size) =~= zeros(size));
}

/// A byte buffer addressed from 0.
pub struct Memory {
    value: Vec<u8>,
}

impl View for Memory {
    type V = Seq<u8>;

    /// The bytes, from offset 0 on.
    closed spec fn view(&self) -> Seq<u8> {
        self.value@
    }
}

impl Memory {
    /// An empty memory.
    pub fn new() -> (r: Memory)
        ensures
            r@ == Seq::<u8>::empty(),
    {
        Memory { value: Vec::new() }
    }

    /// Writes the `size` bytes of `value` at `offset`, after growing the
    /// memory with zeros as far as the range reaches. Nothing happens for a
    /// size of zero.
    pub fn set(&mut self, offset: u64, size: u64, value: &Vec<u8>)
        requires
            offset + size <= usize::MAX,
            size > 0 ==> value@.len() == size,
        ensures
            size == 0 ==> final(self)@ == old(self)@,
            size > 0 ==> final(self)@ == written(
                right_padded(old(self)@, (offset + size) as nat),
                offset as int,
                value@,
            ),
    {
        if size > 0 {
            self.resize(offset + size);
            let ghost grown = self.value@;
            let base: usize = offset as usize;
            let mut i: usize = 0;
            while i < size as usize
                invariant
                    i <= size,
                    base == offset,
                    value@.len() == size,
                    offset + size <= usize::MAX,
                    self.value@.len() == grown.len(),
                    grown.len() >= offset + size,
                    forall|j: int| 0 <= j < grown.len() ==> self.value@[j] == (if offset <= j
                        < offset + i {
                        value@[j - offset]
                    } else {
                        grown[j]
                    }),
                decreases size - i,
            {
                self.value[base + i] = value[i];
                i += 1;
            }
            assert(self.value@ =~= written(grown, offset as int, value@));
        }
    }

    /// Writes the 32 bytes of `value`, most significant byte first, at
    /// `offset`, after growing the memory with zeros as far as `offset + 32`.
    pub fn set32(&mut self, offset: u64, value: &Word)
        requires
            offset + 32 <= usize::MAX,
        ensures
            final(self)@ == written(
                right_padded(old(self)@, (offset + 32) as nat),
                offset as int,
                be_bytes(value@, 32),
            ),
    {
        let bytes = value.to_big_endian();
        self.set(offset, 32, &bytes);
    }

    /// Grows the memory with zeros to `size` bytes; leaves it as it is where
    /// it is that large already.
    pub fn resize(&mut self, size: u64)
        requires
            size <= usize::MAX,
        ensures
            final(self)@ == right_padded(old(self)@, size as nat),
    {
        let n: usize = size as usize;
        while self.value.len() < n
            invariant
                old(self).value@.len() <= self.value@.len(),
                self.value@.len() <= n || self.value@.len() == old(self).value@.len(),
                self.value@ == old(self).value@ + zeros(
                    (self.value@.len() - old(self).value@.len()) as nat,
                ),
            decreases n - self.value.len(),
        {
            self.value.push(0u8);
            assert(self.value@ =~= old(self).value@ + zeros(
                (self.value@.len() - old(self).value@.len()) as nat,
            ));
        }
        assert(self.value@ =~= right_padded(old(self)@, size as nat));
    }

    /// A copy of the `size` bytes from `offset` on, after growing the memory
    /// with zeros as far as the range reaches; `None`, with the memory
    /// unchanged, for a size of zero.
    pub fn get_copy(&mut self, offset: i64, size: i64) -> (r: Option<Vec<u8>>)
        requires
            0 <= offset,
            0 <= size,
            offset + size <= usize::MAX,
        ensures
            size == 0 ==> r.is_none() && final(self)@ == old(self)@,
            size > 0 ==> final(self)@ == right_padded(old(self)@, (offset + size) as nat)
                && r.is_some() && r.unwrap()@ == window(old(self)@, offset as int, size as nat),
    {
        if size == 0 {
            return None;
        }
        let begin: usize = offset as usize;
        let end: usize = begin + (size as usize);
        self.resize(end as u64);
        let mut ret: Vec<u8> = Vec::new();
        let mut i: usize = begin;
        while i < end
            invariant
                begin <= i <= end <= self.value@.len(),
                ret@ == self.value@.subrange(begin as int, i as int),
            decreases end - i,
        {
            ret.push(self.value[i]);
            i += 1;
            assert(ret@ =~= self.value@.subrange(begin as int, i as int));
        }
        assert(ret@ =~= window(old(self)@, offset as int, size as nat));
        Some(ret)
    }

    /// The length of the memory in bytes.
    pub fn size(&self) -> (r: usize)
        ensures
            r == self@.len(),
    {
        self.value.len()
    }

    /// The bytes of the memory.
    pub fn data(&self) -> (r: &Vec<u8>)
        ensures
            r@ == self@,
    {
        &self.value
    }
}

/// The `n`-th item from the top of a stack, counted from 0.
pub open spec fn from_top(s: Seq<Word>, n: int) -> Word {
    s[s.len() - 1 - n]
}

/// The memory size that a range asks for whose offset is the `off`-th item
/// from the top and whose length is the `len`-th.
pub open spec fn range_size(s: Seq<Word>, off: int, len: int) -> (u64, bool) {
    mem_size64(from_top(s, off)@, from_top(s, len)@)
}

/// The larger of the sizes that two ranges ask for; `(0, true)` where either
/// is beyond 64 bits.
pub open spec fn two_range_size(s: Seq<Word>, off1: int, len1: int, off2: int, len2: int) -> (
    u64,
    bool,
) {
    let x = range_size(s, off1, len1);
    let y = range_size(s, off2, len2);
    if x.1 || y.1 {
        (0u64, true)
    } else if x.0 > y.0 {
        (x.0, false)
    } else {
        (y.0, false)
    }
}

/// `range_size` of the stack's items, or `StackUnderflow` where the stack
/// does not reach down to both.
fn stack_range_size(stack: &Stack, off: i16, len: i16) -> (r: Result<(u64, bool), RunError>)
    requires
        0 <= off,
        0 <= len,
    ensures
        off < stack@.len() && len < stack@.len() ==> r == Ok::<(u64, bool), RunError>(
            range_size(stack@, off as int, len as int),
        ),
        !(off < stack@.len() && len < stack@.len()) ==> r == Err::<(u64, bool), RunError>(
            RunError::StackUnderflow,
        ),
{
    let o = match stack.back(off) {
        Ok(w) => w,
        Err(e) => {
            return Err(RunError::StackUnderflow);
        },
    };
    let l = match stack.back(len) {
        Ok(w) => w,
        Err(e) => {
            return Err(RunError::StackUnderflow);
        },
    };
    Ok(calc_mem_size64(&o, &l))
}

/// The memory size that a range of `length` bytes asks for whose offset is
/// on top of the stack, or `StackUnderflow` on an empty stack.
fn stack_word_size(stack: &Stack, length: u64) -> (r: Result<(u64, bool), RunError>)
    ensures
        stack@.len() > 0 ==> r == Ok::<(u64, bool), RunError>(
            mem_size64(from_top(stack@, 0)@, length as nat),
        ),
        stack@.len() == 0 ==> r == Err::<(u64, bool), RunError>(RunError::StackUnderflow),
{
    match stack.back(0) {
        Ok(w) => Ok(calc_mem_size64_with_uint(&w, length)),
        Err(e) => Err(RunError::StackUnderflow),
    }
}

/// `two_range_size` of the stack's items, or `StackUnderflow` where the
/// stack does not reach down to all four.
fn stack_two_range_size(stack: &Stack, off1: i16, len1: i16, off2: i16, len2: i16) -> (r: Result<
    (u64, bool),
    RunError,
>)
    requires
        0 <= off2 < len2 < off1 < len1,
    ensures
        len1 < stack@.len() ==> r == Ok::<(u64, bool), RunError>(
            two_range_size(stack@, off1 as int, len1 as int, off2 as int, len2 as int),
        ),
        len1 >= stack@.len() ==> r == Err::<(u64, bool), RunError>(RunError::StackUnderflow),
{
    if (len1 as usize) >= stack.size() {
        return Err(RunError::StackUnderflow);
    }
    let x = match stack_range_size(stack, off1, len1) {
        Ok(v) => v,
        Err(e) => {
            return Err(e);
        },
    };
    if x.1 {
        return Ok((0, true));
    }
    let y = match stack_range_size(stack, off2, len2) {
        Ok(v) => v,
        Err(e) => {
            return Err(e);
        },
    };
    if y.1 {
        return Ok((0, true));
    }
    if x.0 > y.0 {
        return Ok((x.0, false));
    }
    Ok((y.0, false))
}

/// The memory size that `SHA3` asks for: offset 0 and length 1 places
/// below the top. `StackUnderflow` where the stack holds 1 items or fewer.
pub fn memory_sha3(stack: &Stack) -> (r: Result<(u64, bool), RunError>)
    ensures
        stack@.len() > 1 ==> r == Ok::<(u64, bool), RunError>(range_size(stack@, 0, 1)),
        stack@.len() <= 1 ==> r == Err::<(u64, bool), RunError>(RunError::StackUnderflow),
{
    stack_range_size(stack, 0, 1)
}

/// The memory size that `CALLDATACOPY` asks for: offset 0 and length 2 places
/// below the top. `StackUnderflow` where the stack holds 2 items or fewer.
pub fn memory_calldata_copy(stack: &Stack) -> (r: Result<(u64, bool), RunError>)
    ensures
        stack@.len() > 2 ==> r == Ok::<(u64, bool), RunError>(range_size(stack@, 0, 2)),
        stack@.len() <= 2 ==> r == Err::<(u64, bool), RunError>(RunError::StackUnderflow),
{
    stack_range_size(stack, 0, 2)
}

/// The memory size that `RETURNDATACOPY` asks for: offset 0 and length 2 places
/// below the top. `StackUnderflow` where the stack holds 2 items or fewer.
pub fn memory_returndata_copy(stack: &Stack) -> (r: Result<(u64, bool), RunError>)
    ensures
        stack@.len() > 2 ==> r == Ok::<(u64, bool), RunError>(range_size(stack@, 0, 2)),
        stack@.len() <= 2 ==> r == Err::<(u64, bool), RunError>(RunError::StackUnderflow),
{
    stack_range_size(stack, 0, 2)
}

/// The memory size that `CODECOPY` asks for: offset 0 and length 2 places
/// below the top. `StackUnderflow` where the stack holds 2 items or fewer.
pub fn memory_code_copy(stack: &Stack) -> (r: Result<(u64, bool), RunError>)
    ensures
        stack@.len() > 2 ==> r == Ok::<(u64, bool), RunError>(range_size(stack@, 0, 2)),
        stack@.len() <= 2 ==> r == Err::<(u64, bool), RunError>(RunError::StackUnderflow),
{
    stack_range_size(stack, 0, 2)
}

/// The memory size that `EXTCODECOPY` asks for: offset 1 and length 3 places
/// below the top. `StackUnderflow` where the stack holds 3 items or fewer.
pub fn memory_extcode_copy(stack: &Stack) -> (r: Result<(u64, bool), RunError>)
    ensures
        stack@.len() > 3 ==> r == Ok::<(u64, bool), RunError>(range_size(stack@, 1, 3)),
        stack@.len() <= 3 ==> r == Err::<(u64, bool), RunError>(RunError::StackUnderflow),
{
    stack_range_size(stack, 1, 3)
}

/// The memory size that `MLOAD` asks for: 32 bytes at the offset on top of the
/// stack. `StackUnderflow` on an empty stack.
pub fn memory_mload(stack: &Stack) -> (r: Result<(u64, bool), RunError>)
    ensures
        stack@.len() > 0 ==> r == Ok::<(u64, bool), RunError>(
            mem_size64(from_top(stack@, 0)@, 32),
        ),
        stack@.len() == 0 ==> r == Err::<(u64, bool), RunError>(RunError::StackUnderflow),
{
    stack_word_size(stack, 32)
}

/// The memory size that `MSTORE8` asks for: 1 byte at the offset on top of the
/// stack. `StackUnderflow` on an empty stack.
pub fn memory_mstore8(stack: &Stack) -> (r: Result<(u64, bool), RunError>)
    ensures
        stack@.len() > 0 ==> r == Ok::<(u64, bool), RunError>(
            mem_size64(from_top(stack@, 0)@, 1),
        ),
        stack@.len() == 0 ==> r == Err::<(u64, bool), RunError>(RunError::StackUnderflow),
{
    stack_word_size(stack, 1)
}

/// The memory size that `MSTORE` asks for: 32 bytes at the offset on top of the
/// stack. `StackUnderflow` on an empty stack.
pub fn memory_mstore(stack: &Stack) -> (r: Result<(u64, bool), RunError>)
    ensures
        stack@.len() > 0 ==> r == Ok::<(u64, bool), RunError>(
            mem_size64(from_top(stack@, 0)@, 32),
        ),
        stack@.len() == 0 ==> r == Err::<(u64, bool), RunError>(RunError::StackUnderflow),
{
    stack_word_size(stack, 32)
}

/// The memory size that `CREATE` asks for: offset 1 and length 2 places
/// below the top. `StackUnderflow` where the stack holds 2 items or fewer.
pub fn memory_create(stack: &Stack) -> (r: Result<(u64, bool), RunError>)
    ensures
        stack@.len() > 2 ==> r == Ok::<(u64, bool), RunError>(range_size(stack@, 1, 2)),
        stack@.len() <= 2 ==> r == Err::<(u64, bool), RunError>(RunError::StackUnderflow),
{
    stack_range_size(stack, 1, 2)
}

/// The memory size that `CREATE2` asks for: offset 1 and length 2 places
/// below the top. `StackUnderflow` where the stack holds 2 items or fewer.
pub fn memory_create2(stack: &Stack) -> (r: Result<(u64, bool), RunError>)
    ensures
        stack@.len() > 2 ==> r == Ok::<(u64, bool), RunError>(range_size(stack@, 1, 2)),
        stack@.len() <= 2 ==> r == Err::<(u64, bool), RunError>(RunError::StackUnderflow),
{
    stack_range_size(stack, 1, 2)
}

/// The memory size that `CALL` asks for: the larger of its argument range
/// (offset 3, length 4 places below the top) and its result range (offset
/// 5, length 6). `StackUnderflow` where the stack holds 6 items or fewer.
pub fn memory_call(stack: &Stack) -> (r: Result<(u64, bool), RunError>)
    ensures
        stack@.len() > 6 ==> r == Ok::<(u64, bool), RunError>(
            two_range_size(stack@, 5, 6, 3, 4),
        ),
        stack@.len() <= 6 ==> r == Err::<(u64, bool), RunError>(RunError::StackUnderflow),
{
    stack_two_range_size(stack, 5, 6, 3, 4)
}

/// The memory size that `DELEGATECALL` asks for: the larger of its argument range
/// (offset 2, length 3 places below the top) and its result range (offset
/// 4, length 5). `StackUnderflow` where the stack holds 5 items or fewer.
pub fn memory_delegate_call(stack: &Stack) -> (r: Result<(u64, bool), RunError>)
    ensures
        stack@.len() > 5 ==> r == Ok::<(u64, bool), RunError>(
            two_range_size(stack@, 4, 5, 2, 3),
        ),
        stack@.len() <= 5 ==> r == Err::<(u64, bool), RunError>(RunError::StackUnderflow),
{
    stack_two_range_size(stack, 4, 5, 2, 3)
}

/// The memory size that `STATICCALL` asks for: the larger of its argument range
/// (offset 2, length 3 places below the top) and its result range (offset
/// 4, length 5). `StackUnderflow` where the stack holds 5 items or fewer.
pub fn memory_static_call(stack: &Stack) -> (r: Result<(u64, bool), RunError>)
    ensures
        stack@.len() > 5 ==> r == Ok::<(u64, bool), RunError>(
            two_range_size(stack@, 4, 5, 2, 3),
        ),
        stack@.len() <= 5 ==> r == Err::<(u64, bool), RunError>(RunError::StackUnderflow),
{
    stack_two_range_size(stack, 4, 5, 2, 3)
}

/// The memory size that `RETURN` asks for: offset 0 and length 1 places
/// below the top. `StackUnderflow` where the stack holds 1 items or fewer.
pub fn memory_return(stack: &Stack) -> (r: Result<(u64, bool), RunError>)
    ensures
        stack@.len() > 1 ==> r == Ok::<(u64, bool), RunError>(range_size(stack@, 0, 1)),
        stack@.len() <= 1 ==> r == Err::<(u64, bool), RunError>(RunError::StackUnderflow),
{
    stack_range_size(stack, 0, 1)
}

/// The memory size that `REVERT` asks for: offset 0 and length 1 places
/// below the top. `StackUnderflow` where the stack holds 1 items or fewer.
pub fn memory_revert(stack: &Stack) -> (r: Result<(u64, bool), RunError>)
    ensures
        stack@.len() > 1 ==> r == Ok::<(u64, bool), RunError>(range_size(stack@, 0, 1)),
        stack@.len() <= 1 ==> r == Err::<(u64, bool), RunError>(RunError::StackUnderflow),
{
    stack_range_size(stack, 0, 1)
}

/// The memory size that `a LOG instruction` asks for: offset 0 and length 1 places
/// below the top. `StackUnderflow` where the stack holds 1 items or fewer.
pub fn memory_log(stack: &Stack) -> (r: Result<(u64, bool), RunError>)
    ensures
        stack@.len() > 1 ==> r == Ok::<(u64, bool), RunError>(range_size(stack@, 0, 1)),
        stack@.len() <= 1 ==> r == Err::<(u64, bool), RunError>(RunError::StackUnderflow),
{
    stack_range_size(stack, 0, 1)
}

} // verus!
