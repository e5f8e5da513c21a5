//! The contract that a call runs: its code, the parties, the call data, and
//! the map of the offsets at which an instruction starts.

use vstd::prelude::*;
use crate::opcode::{JUMPDEST, PUSH1, PUSH32};
use crate::word::Word;

verus! {

/// The number of immediate bytes that follow the opcode `op`: `n` for
/// `PUSHn`, none for any other.
pub open spec fn push_width(op: u8) -> int {
    if 0x60 <= op <= 0x7f {
        op - 0x60 + 1
    } else {
        0
    }
}

/// Whether a scan of `code` that stands at the instruction start `pc` and
/// steps from each instruction over its immediate bytes to the next comes to
/// stand at `pos`.
pub open spec fn reaches(code: Seq<u8>, pc: int, pos: int) -> bool
    decreases pos - pc,
{
    if pc < 0 || pc >= code.len() || pc > pos {
        false
    } else if pc == pos {
        true
    } else {
        let next = pc + 1 + push_width(code[pc]);
        if next > pos {
            false
        } else {
            reaches(code, next, pos)
        }
    }
}

/// Whether an instruction starts at `pos`, as opposed to the immediate bytes
/// of a `PUSHn` or a place beyond the code.
pub open spec fn is_code(code: Seq<u8>, pos: int) -> bool {
    reaches(code, 0, pos)
}

/// Whether `dest` may be jumped to: a `JUMPDEST` instruction starts there.
pub open spec fn jumpdest_at(code: Seq<u8>, dest: nat) -> bool {
    dest < code.len() && code[dest as int] == JUMPDEST && is_code(code, dest as int)
}

/// The byte of `code` at `pc`, and zero beyond its end.
pub open spec fn byte_at(code: Seq<u8>, pc: nat) -> u8 {
    if pc < code.len() {
        code[pc as int]
    } else {
        0u8
    }
}

/// For each offset of `code`, whether an instruction starts there.
pub fn code_bitmap(code: &Vec<u8>) -> (map: Vec<bool>)
    ensures
        map@.len() == code@.len(),
        forall|pos: int| 0 <= pos < code@.len() ==> map@[pos] == is_code(code@, pos),
{
    let n: usize = code.len();
    let mut map: Vec<bool> = Vec::new();
    let mut k: usize = 0;
    while k < n
        invariant
            k <= n,
            map@.len() == k,
            forall|j: int| 0 <= j < k ==> map@[j] == false,
        decreases n - k,
    {
        map.push(false);
        k += 1;
    }
    let mut pc: usize = 0;
    while pc < n
        invariant
            n == code@.len(),
            map@.len() == n,
            forall|pos: int| 0 <= pos < pc && pos < n ==> map@[pos] == is_code(code@, pos),
            forall|pos: int| pc <= pos < n ==> map@[pos] == false,
            forall|pos: int|
                pc <= pos < n ==> is_code(code@, pos) == reaches(code@, pc as int, pos),
        decreases n - pc,
    {
        let op: u8 = code[pc];
        let width: usize = if PUSH1 <= op && op <= PUSH32 {
            (op - PUSH1) as usize + 1
        } else {
            0
        };
        map[pc] = true;
        let next: usize = if width >= n - pc {
            n
        } else {
            pc + 1 + width
        };
        assert forall|pos: int| next <= pos < n implies is_code(code@, pos) == reaches(
            code@,
            next as int,
            pos,
        ) by {
            assert(reaches(code@, pc as int, pos) == reaches(code@, pc + 1 + push_width(op), pos));
        }
        assert forall|pos: int| pc < pos < next && pos < n implies !is_code(code@, pos) by {
            assert(!reaches(code@, pc as int, pos));
        }
        pc = next;
    }
    map
}

/// A contract as one call sees it.
pub struct Contract {
    code: Vec<u8>,
    code_map: Vec<bool>,
    codehash: [u8; 32],
    address: [u8; 20],
    caller: [u8; 20],
    input: Vec<u8>,
}

impl Contract {
    #[verifier::type_invariant]
    spec fn inv(self) -> bool {
        &&& self.code_map@.len() == self.code@.len()
        &&& forall|pos: int|
            0 <= pos < self.code@.len() ==> self.code_map@[pos] == is_code(self.code@, pos)
    }

    /// The bytecode.
    pub closed spec fn code_view(&self) -> Seq<u8> {
        self.code@
    }

    /// The call data.
    pub closed spec fn input_view(&self) -> Seq<u8> {
        self.input@
    }

    /// The hash of the code.
    pub closed spec fn codehash_view(&self) -> Seq<u8> {
        self.codehash@
    }

    /// The address at which the contract is deployed.
    pub closed spec fn address_view(&self) -> Seq<u8> {
        self.address@
    }

    /// The address of the caller.
    pub closed spec fn caller_view(&self) -> Seq<u8> {
        self.caller@
    }

    /// A contract with the given code, parties and call data.
    pub fn new(
        code: Vec<u8>,
        codehash: [u8; 32],
        address: [u8; 20],
        caller: [u8; 20],
        input: Vec<u8>,
    ) -> (r: Contract)
        ensures
            r.code_view() == code@,
            r.codehash_view() == codehash@,
            r.address_view() == address@,
            r.caller_view() == caller@,
            r.input_view() == input@,
    {
        let code_map = code_bitmap(&code);
        Contract { code, code_map, codehash, address, caller, input }
    }

    /// A contract without code, with zero addresses and empty call data.
    pub fn empty() -> (r: Contract)
        ensures
            r.code_view() == Seq::<u8>::empty(),
            r.input_view() == Seq::<u8>::empty(),
            r.codehash_view() == Seq::new(32, |i: int| 0u8),
            r.address_view() == Seq::new(20, |i: int| 0u8),
            r.caller_view() == Seq::new(20, |i: int| 0u8),
    {
        let r = Contract::new(Vec::new(), [0u8;32], [0u8;20], [0u8;20], Vec::new());
        assert(r.codehash_view() =~= Seq::new(32, |i: int| 0u8));
        assert(r.address_view() =~= Seq::new(20, |i: int| 0u8));
        assert(r.caller_view() =~= Seq::new(20, |i: int| 0u8));
        r
    }

    /// Replaces the call data.
    pub fn set_input(&mut self, input: Vec<u8>)
        ensures
            final(self).input_view() == input@,
            final(self).code_view() == old(self).code_view(),
            final(self).codehash_view() == old(self).codehash_view(),
            final(self).address_view() == old(self).address_view(),
            final(self).caller_view() == old(self).caller_view(),
    {
        proof {
            use_type_invariant(&*self);
        }
        self.input = input;
    }

    /// The bytecode.
    pub fn code(&self) -> (r: &Vec<u8>)
        ensures
            r@ == self.code_view(),
    {
        &self.code
    }

    /// The call data.
    pub fn input(&self) -> (r: &Vec<u8>)
        ensures
            r@ == self.input_view(),
    {
        &self.input
    }

    /// The hash of the code.
    pub fn codehash(&self) -> (r: [u8; 32])
        ensures
            r@ == self.codehash_view(),
    {
        self.codehash
    }

    /// The address at which the contract is deployed.
    pub fn address(&self) -> (r: [u8; 20])
        ensures
            r@ == self.address_view(),
    {
        self.address
    }

    /// The address of the caller.
    pub fn caller(&self) -> (r: [u8; 20])
        ensures
            r@ == self.caller_view(),
    {
        self.caller
    }

    /// Whether a `JUMPDEST` instruction starts at `dest`.
    pub fn valid_jumpdest(&self, dest: &Word) -> (r: bool)
        ensures
            r == jumpdest_at(self.code_view(), dest@),
    {
        proof {
            use_type_invariant(self);
        }
        let n: usize = self.code.len();
        if !dest.fits_u64() {
            return false;
        }
        let d: u64 = dest.low_u64();
        if (d as u128) >= (n as u128) {
            return false;
        }
        let at: usize = d as usize;
        self.code[at] == JUMPDEST && self.code_map[at]
    }

    /// The byte of the code at `n`, and zero beyond the end of the code.
    pub fn get_byte(&self, n: u64) -> (r: u8)
        ensures
            r == byte_at(self.code_view(), n as nat),
    {
        if (n as u128) < (self.code.len() as u128) {
            return self.code[n as usize];
        }
        0
    }
}

impl Default for Contract {
    /// A contract without code, with zero addresses and empty call data.
    fn default() -> (r: Contract)
        ensures
            r.code_view() == Seq::<u8>::empty(),
            r.input_view() == Seq::<u8>::empty(),
            r.codehash_view() == Seq::new(32, |i: int| 0u8),
            r.address_view() == Seq::new(20, |i: int| 0u8),
            r.caller_view() == Seq::new(20, |i: int| 0u8),
    {
        Contract::empty()
    }
}

} // verus!
