//! The decode cache: the forms of the opcodes met so far.

use crate::decoder::{decode, spec_decode, Instruction};
use std::collections::HashMap;
use vstd::prelude::*;
use vstd::set_lib::{lemma_int_range, lemma_len_subset, lemma_map_size_bound, set_int_range};

verus! {

/// The form that the table gives for `opcode`: the instruction decoded
/// with zero for its operand bytes.
pub open spec fn form_of(opcode: u8) -> Instruction {
    spec_decode(opcode, 0, 0)
}

/// The most forms that a cache can hold: one per opcode byte.
pub const MAX_FORMS: usize = 256;

/// A set of opcodes is finite and has at most `MAX_FORMS` members.
pub proof fn lemma_opcodes_bounded(opcodes: Set<u8>)
    ensures
        opcodes.finite(),
        opcodes.len() <= MAX_FORMS,
{
    let numbers = set_int_range(0, 256);
    let as_opcode = |i: int| i as u8;
    let all = numbers.map(as_opcode);
    lemma_int_range(0, 256);
    lemma_map_size_bound(numbers, all, as_opcode);
    assert forall|opcode: u8| opcodes.contains(opcode) implies all.contains(opcode) by {
        assert(numbers.contains(opcode as int) && as_opcode(opcode as int) == opcode);
    }
    lemma_len_subset(opcodes, all);
}

/// Remembers the form of each opcode that was looked up, so that the table
/// is consulted once per opcode. A form holds no operand of any occurrence:
/// operands are read from the instruction stream each time. Its view is the
/// set of the opcodes remembered.
pub struct DecodeCache {
    forms: HashMap<u8, Instruction>,
}

impl View for DecodeCache {
    type V = Set<u8>;

    closed spec fn view(&self) -> Set<u8> {
        self.forms@.dom()
    }
}

impl DecodeCache {
    /// Every remembered form is the one that the table gives.
    #[verifier::type_invariant]
    spec fn sound(self) -> bool {
        forall|opcode: u8| #[trigger]
            self.forms@.contains_key(opcode) ==> self.forms@[opcode] == form_of(opcode)
    }

    /// An empty cache.
    pub fn new() -> (cache: Self)
        ensures
            cache@ == Set::<u8>::empty(),
    {
        let cache = Self { forms: HashMap::new() };
        assert(cache@ =~= Set::<u8>::empty());
        cache
    }

    /// Whether the form of `opcode` is remembered.
    pub fn contains(&self, opcode: u8) -> (found: bool)
        ensures
            found == self@.contains(opcode),
    {
        self.forms.contains_key(&opcode)
    }

    /// The remembered form of `opcode`, if there is one.
    pub fn get(&self, opcode: u8) -> (form: Option<Instruction>)
        ensures
            form == if self@.contains(opcode) {
                Some(form_of(opcode))
            } else {
                None
            },
    {
        proof {
            use_type_invariant(self);
        }
        match self.forms.get(&opcode) {
            Some(known) => Some(*known),
            None => None,
        }
    }

    /// The number of opcodes remembered: never more than one per opcode
    /// byte.
    pub fn len(&self) -> (n: usize)
        ensures
            n == self@.len(),
            n <= MAX_FORMS,
    {
        proof {
            lemma_opcodes_bounded(self@);
        }
        self.forms.len()
    }

    /// The form of `opcode`: from the cache where it is remembered, from
    /// the table otherwise, and remembered from then on. Nothing is ever
    /// forgotten.
    pub fn form(&mut self, opcode: u8) -> (form: Instruction)
        ensures
            form == form_of(opcode),
            final(self)@ == old(self)@.insert(opcode),
    {
        proof {
            use_type_invariant(&*self);
        }
        // The map is taken out while it grows and put back whole.
        let mut forms = HashMap::new();
        std::mem::swap(&mut forms, &mut self.forms);
        let form = match forms.get(&opcode) {
            Some(known) => *known,
            None => {
                let decoded = decode(opcode, 0, 0);
                forms.insert(opcode, decoded);
                decoded
            },
        };
        assert(forms@.dom() =~= old(self)@.insert(opcode));
        self.forms = forms;
        form
    }
}

} // verus!
