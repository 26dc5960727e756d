use vstd::prelude::*;
use crate::fault::Fault;
use crate::util::index::{ConstantIndex, InstructionIndex};
use crate::value::Value;

verus! {

/// The index of the first occurrence of `value` from `from` on, or the
/// length of `constants` where there is none.
pub open spec fn position(constants: Seq<Value>, value: Value, from: int) -> int
    decreases constants.len() - from,
{
    if from >= constants.len() {
        constants.len() as int
    } else if from >= 0 && constants[from] == value {
        from
    } else {
        position(constants, value, from + 1)
    }
}

/// The constants after `value` was added: the same where they hold it
/// already, with `value` at the end where they do not.
pub open spec fn with_constant(constants: Seq<Value>, value: Value) -> Seq<Value> {
    if position(constants, value, 0) < constants.len() {
        constants
    } else {
        constants.push(value)
    }
}

/// Whether no value occurs twice.
pub open spec fn distinct(constants: Seq<Value>) -> bool {
    forall|i: int, j: int| 0 <= i < j < constants.len() ==> constants[i] != constants[j]
}

/// Up to the position of `value` nothing is `value`, and at the position
/// stands `value`.
pub proof fn lemma_position(constants: Seq<Value>, value: Value, from: int)
    requires
        0 <= from <= constants.len(),
    ensures
        from <= position(constants, value, from) <= constants.len(),
        forall|j: int| from <= j < position(constants, value, from) ==> constants[j] != value,
        position(constants, value, from) < constants.len() ==> constants[position(constants, value, from)]
            == value,
    decreases constants.len() - from,
{
    if from < constants.len() && constants[from] != value {
        lemma_position(constants, value, from + 1);
    }
}

/// Adding a value twice gives the same index both times, and the pool
/// grows by one entry at most: by exactly one where the value was new, and
/// not at all the second time.
pub proof fn lemma_add_twice(constants: Seq<Value>, value: Value)
    ensures
        position(with_constant(constants, value), value, 0) == position(constants, value, 0),
        with_constant(with_constant(constants, value), value) == with_constant(constants, value),
        position(constants, value, 0) == constants.len() ==> with_constant(constants, value).len()
            == constants.len() + 1,
        position(constants, value, 0) < constants.len() ==> with_constant(constants, value) == constants,
{
    lemma_position(constants, value, 0);
    let after = with_constant(constants, value);
    lemma_position(after, value, 0);
    if position(constants, value, 0) == constants.len() {
        assert(after[constants.len() as int] == value);
        assert forall|j: int| 0 <= j < constants.len() implies after[j] != value by {
            assert(after[j] == constants[j]);
        }
    }
}

/// Adding a value keeps the values distinct.
pub proof fn lemma_add_distinct(constants: Seq<Value>, value: Value)
    requires
        distinct(constants),
    ensures
        distinct(with_constant(constants, value)),
{
    lemma_position(constants, value, 0);
}

/// The literal values of a program, each held once. The view is the
/// sequence of values; a value's index never changes.
pub struct ConstantPool {
    constants: Vec<Value>,
}

impl View for ConstantPool {
    type V = Seq<Value>;

    closed spec fn view(&self) -> Seq<Value> {
        self.constants@
    }
}

impl ConstantPool {
    /// No value occurs twice, and every index fits a 24-bit immediate.
    /// Every pool is so.
    #[verifier::type_invariant]
    pub open spec fn wf(&self) -> bool {
        distinct(self@) && self@.len() <= 0x1000000
    }

    /// An empty pool.
    pub fn new() -> (r: Self)
        ensures
            r@ == Seq::<Value>::empty(),
            r.wf(),
    {
        ConstantPool { constants: Vec::new() }
    }

    /// The number of values.
    pub fn len(&self) -> (n: usize)
        ensures
            n == self@.len(),
    {
        self.constants.len()
    }

    /// The index of `value` in the pool, or `None` where the pool does not
    /// hold it.
    pub fn find(&self, value: &Value) -> (r: Option<usize>)
        ensures
            r == (if position(self@, *value, 0) < self@.len() {
                Some(position(self@, *value, 0) as usize)
            } else {
                None
            }),
    {
        let mut i: usize = 0;
        while i < self.constants.len()
            invariant
                i <= self@.len(),
                position(self@, *value, 0) == position(self@, *value, i as int),
            decreases self@.len() - i,
        {
            if self.constants[i] == *value {
                return Some(i);
            }
            i = i + 1;
        }
        None
    }

    /// The index of `value`, which is added at the end where the pool did
    /// not hold it. A pool that is full takes no new value.
    pub fn add(&mut self, value: Value) -> (idx: ConstantIndex)
        requires
            old(self)@.len() < 0x1000000 || position(old(self)@, value, 0) < old(self)@.len(),
        ensures
            final(self).wf(),
            final(self)@ == with_constant(old(self)@, value),
            idx@ == position(old(self)@, value, 0),
            idx@ < final(self)@.len(),
            final(self)@[idx@ as int] == value,
    {
        proof {
            use_type_invariant(&*self);
            lemma_position(self@, value, 0);
            lemma_add_distinct(self@, value);
        }
        match self.find(&value) {
            Some(i) => ConstantIndex::from_usize(i),
            None => {
                let mut taken = ConstantPool::new();
                core::mem::swap(self, &mut taken);
                let ConstantPool { mut constants } = taken;
                let i = constants.len();
                constants.push(value);
                *self = ConstantPool { constants };
                ConstantIndex::from_usize(i)
            },
        }
    }

    /// The index of `value`, as `add` gives it, or the fault of a new value
    /// for which a full pool has no index; the pool is then as it was.
    pub fn try_add(&mut self, value: Value) -> (r: Result<ConstantIndex, Fault>)
        ensures
            final(self).wf(),
            position(old(self)@, value, 0) < 0x1000000 ==> r.is_ok() && r.unwrap()@ == position(
                old(self)@,
                value,
                0,
            ) && final(self)@ == with_constant(old(self)@, value),
            position(old(self)@, value, 0) >= 0x1000000 ==> r == Err::<ConstantIndex, Fault>(
                Fault::IndexOutOfRange,
            ) && final(self)@ == old(self)@,
            r matches Ok(idx) ==> idx@ < final(self)@.len() && final(self)@[idx@ as int] == value,
    {
        proof {
            use_type_invariant(&*self);
            lemma_position(self@, value, 0);
        }
        match self.find(&value) {
            Some(_) => Ok(self.add(value)),
            None => if self.constants.len() < 0x1000000 {
                Ok(self.add(value))
            } else {
                Err(Fault::IndexOutOfRange)
            },
        }
    }

    /// The value at `index`, which must be in the pool.
    pub fn get(&self, index: InstructionIndex) -> (value: Value)
        requires
            index@ < self@.len(),
        ensures
            value == self@[index@ as int],
    {
        self.constants[index.as_usize()]
    }
}

impl Default for ConstantPool {
    fn default() -> (r: Self)
        ensures
            r@ == Seq::<Value>::empty(),
            r.wf(),
    {
        Self::new()
    }
}

} // verus!
