//! A model of the slice of the interpreter that this subsystem touches.
//!
//! The scripting runtime itself is an external collaborator consumed as a
//! black box; the subsystem only ever sees a row of dynamically typed value
//! slots (the arguments of a native call, or the values it pushes back) and
//! the runtime's structured error unwind.  [`Interp`] models the slots, and
//! [`LuaError`] models the script-recoverable errors that the unwind carries:
//! arity errors, type errors naming the expected type, frozen-write errors
//! naming the offending slot, and the metatable-modification guard.
//!
//! Invariant violations in native setup code are a separate, fatal class
//! ([`SetupError`]); a host aborts on them instead of unwinding.

use vstd::prelude::*;

use crate::block::{Block, BlockModel};

verus! {

/// Mathematical model of one interpreter slot.
pub ghost enum ValueModel {
    /// The nil value.
    Nil,
    /// A boolean.
    Bool(bool),
    /// An integer number.
    Int(i64),
    /// A light userdata: a bare foreign pointer with no header, no
    /// metatable and no payload of its own.
    LightUd(u64),
    /// A full userdata block.
    Block(BlockModel),
}

/// A dynamically typed script value held in one interpreter slot.  A block
/// pushed into a slot is owned by the interpreter's value graph from then on.
pub enum Value {
    /// The nil value.
    Nil,
    /// A boolean.
    Bool(bool),
    /// An integer number.
    Int(i64),
    /// A light userdata, held as a bare address: only a full userdata block
    /// has a header, so validation treats a light userdata like any other
    /// non-block value.
    LightUd(u64),
    /// A full userdata block.
    Block(Block),
}

impl View for Value {
    type V = ValueModel;

    open spec fn view(&self) -> ValueModel {
        match *self {
            Value::Nil => ValueModel::Nil,
            Value::Bool(b) => ValueModel::Bool(b),
            Value::Int(i) => ValueModel::Int(i),
            Value::LightUd(p) => ValueModel::LightUd(p),
            Value::Block(b) => ValueModel::Block(b@),
        }
    }
}

impl Value {
    /// A slot is well formed when the block it holds, if any, is.
    pub open spec fn wf(&self) -> bool {
        match *self {
            Value::Block(b) => b.wf(),
            _ => true,
        }
    }
}

/// The interpreter slots visible to one native call: slot 0 is the first
/// argument.  Values pushed by the call are appended at the end.
pub struct Interp {
    /// The value slots, in argument order.
    pub slots: Vec<Value>,
}

impl View for Interp {
    type V = Seq<ValueModel>;

    open spec fn view(&self) -> Seq<ValueModel> {
        Seq::new(self.slots@.len(), |i: int| self.slots@[i]@)
    }
}

impl Interp {
    /// Every slot that holds a block holds a well-formed one.
    pub open spec fn wf(&self) -> bool {
        forall|i: int| 0 <= i < self.slots@.len() ==> (#[trigger] self.slots@[i]).wf()
    }

    /// An empty slot row.
    pub fn new() -> (r: Interp)
        ensures
            r.wf(),
            r@ == Seq::<ValueModel>::empty(),
    {
        let r = Interp { slots: Vec::new() };
        proof {
            assert(r@ =~= Seq::<ValueModel>::empty());
        }
        r
    }

    /// Number of slots; the arity of the call being serviced.
    pub fn top(&self) -> (n: usize)
        ensures
            n == self@.len(),
    {
        self.slots.len()
    }

    /// Appends a value, which the interpreter's value graph owns from then
    /// on.
    pub fn push(&mut self, v: Value)
        requires
            old(self).wf(),
            v.wf(),
            old(self)@.len() < usize::MAX,
        ensures
            final(self).wf(),
            final(self)@ == old(self)@.push(v@),
    {
        self.slots.push(v);
        proof {
            assert(self@ =~= old(self)@.push(v@));
        }
    }
}

/// A script-recoverable error, propagated through the interpreter's own
/// error-unwind mechanism so that a protected script call can catch it.
#[allow(inconsistent_fields)]
#[derive(Debug)]
pub enum LuaError {
    /// Wrong number of arguments to a native-exposed function.
    Arity {
        /// How many arguments the function requires.
        expected: usize,
        /// How many were passed.
        got: usize,
    },
    /// A slot does not hold a valid userdata of the required descriptor; the
    /// display name of what was expected is reported to the script.
    TypeMismatch {
        /// The offending slot.
        index: usize,
        /// Display name of the expected type.
        expected: String,
    },
    /// A mutation was attempted on a frozen block.
    FrozenWrite {
        /// The offending slot.
        index: usize,
    },
    /// A script assigned into a bound type's metatable; instances of bound
    /// native types are closed to script-side extension.
    MetatableNewIndex,
}

/// A defect in native setup code.  Not script-recoverable: a host that sees
/// one of these aborts rather than continue past a broken invariant.
#[derive(Clone, Copy, Debug, PartialEq, Eq, Structural)]
pub enum SetupError {
    /// A method table did not end with the null sentinel entry, or had an
    /// incomplete entry before it.
    MalformedMethodTable,
    /// The metatable name is already registered.
    DuplicateName,
}

/// Checks that the call being serviced got exactly `n` arguments, and raises
/// an arity error otherwise.
pub fn check_args_eq_n(interp: &Interp, n: usize) -> (r: Result<(), LuaError>)
    ensures
        r is Ok <==> interp@.len() == n,
        r is Err ==> (r->Err_0 matches LuaError::Arity { expected, got } && expected == n && got
            == interp@.len()),
{
    let got = interp.top();
    if got != n {
        Err(LuaError::Arity { expected: n, got })
    } else {
        Ok(())
    }
}

} // verus!
