//! Validated, type-bound access to a block held in an interpreter slot.
//!
//! A [`UserPtr`] is a transient view: the slot it points at and the tag of
//! the descriptor it was validated against.  It carries no other state and
//! must be re-derived, by one of the validation constructors, on every native
//! call; all validation happens exactly once, at construction, and payload
//! access through an existing handle is trusted.
//!
//! Validation succeeds exactly when the slot holds a full userdata block
//! whose header tag equals the descriptor's tag.  The `try_` constructors
//! return nothing on failure; the `or_error` constructors raise the
//! interpreter's type error, naming the descriptor, instead.

use vstd::prelude::*;

use crate::block::{
    borrow_nonneg, lemma_freeze_idempotent, spec_destroy, spec_freeze, Block, BlockModel,
};
use crate::descriptor::Descriptor;
use crate::interp::{check_args_eq_n, Interp, LuaError, Value, ValueModel};
use crate::registry::{has_name, Registry};

verus! {

/// A block validates against a descriptor exactly when its header carries
/// the descriptor's tag.
pub open spec fn validates(m: BlockModel, d: Descriptor) -> bool {
    m.tag == d.tag
}

/// A transient, non-owning, type-bound view over a block: the slot it lives
/// in and the 48-bit tag it was validated against.
#[derive(Clone, Copy)]
pub struct UserPtr {
    /// The interpreter slot holding the block.
    pub slot: usize,
    /// Tag of the descriptor the handle was validated against.
    pub tag: u64,
}

impl UserPtr {
    /// The handle points at a block whose header still carries the tag the
    /// handle was validated against.  Destroying the block poisons its tag,
    /// so handles do not outlive it: they are re-derived on every call.
    pub open spec fn valid(self, s: Seq<ValueModel>) -> bool {
        &&& self.slot < s.len()
        &&& s[self.slot as int] is Block
        &&& s[self.slot as int]->Block_0.tag == self.tag
    }

    /// The model of the block the handle points at.
    pub open spec fn model(self, s: Seq<ValueModel>) -> BlockModel {
        s[self.slot as int]->Block_0
    }

    /// The interpreter state after a freeze through the handle: only the
    /// handle's slot changes, to the frozen block.
    pub open spec fn spec_freeze_slot(self, s: Seq<ValueModel>) -> Seq<ValueModel> {
        s.update(self.slot as int, ValueModel::Block(spec_freeze(self.model(s))))
    }

    /// The interpreter state after a destroy through the handle: only the
    /// handle's slot changes, to the poisoned block.
    pub open spec fn spec_destroy_slot(self, s: Seq<ValueModel>) -> Seq<ValueModel> {
        s.update(self.slot as int, ValueModel::Block(spec_destroy(self.model(s))))
    }

    /// Validates the slot against the descriptor, the caller already knowing
    /// that the slot holds a full userdata block with a well-formed header.
    /// Returns a handle if and only if the block's tag equals the
    /// descriptor's.
    pub fn try_new_fud(interp: &Interp, index: usize, d: &Descriptor) -> (r: Option<UserPtr>)
        requires
            interp.wf(),
            index < interp@.len(),
            interp@[index as int] is Block,
        ensures
            r is Some <==> validates(interp@[index as int]->Block_0, *d),
            r is Some ==> r->0 == (UserPtr { slot: index, tag: d.tag }),
    {
        match &interp.slots[index] {
            Value::Block(b) => {
                if b.tag() == d.tag {
                    Some(UserPtr { slot: index, tag: d.tag })
                } else {
                    None
                }
            },
            _ => {
                proof {
                    assert(false);
                }
                None
            },
        }
    }

    /// Validates the slot against the descriptor, first checking that it
    /// holds a full userdata block at all; safe on any slot content.
    /// Returns a handle if and only if the slot is a block whose tag equals
    /// the descriptor's.
    pub fn try_new(interp: &Interp, index: usize, d: &Descriptor) -> (r: Option<UserPtr>)
        requires
            interp.wf(),
            index < interp@.len(),
        ensures
            r is Some <==> (interp@[index as int] is Block && validates(
                interp@[index as int]->Block_0,
                *d,
            )),
            r is Some ==> r->0 == (UserPtr { slot: index, tag: d.tag }),
    {
        match &interp.slots[index] {
            Value::Block(_) => Self::try_new_fud(interp, index, d),
            _ => None,
        }
    }

    /// Like [`UserPtr::try_new_fud`], but raises the interpreter's type
    /// error, naming the slot and the descriptor, instead of returning
    /// nothing.
    pub fn new_or_error_fud(interp: &Interp, index: usize, d: &Descriptor) -> (r: Result<
        UserPtr,
        LuaError,
    >)
        requires
            interp.wf(),
            index < interp@.len(),
            interp@[index as int] is Block,
        ensures
            r is Ok <==> validates(interp@[index as int]->Block_0, *d),
            r is Ok ==> r->Ok_0 == (UserPtr { slot: index, tag: d.tag }),
            r is Err ==> (r->Err_0 matches LuaError::TypeMismatch { index: i, expected } && i
                == index && expected@ == d.name@),
    {
        match Self::try_new_fud(interp, index, d) {
            Some(r) => Ok(r),
            None => Err(LuaError::TypeMismatch { index, expected: d.name.clone() }),
        }
    }

    /// Like [`UserPtr::try_new`], but raises the interpreter's type error,
    /// naming the slot and the descriptor, instead of returning nothing.
    pub fn new_or_error(interp: &Interp, index: usize, d: &Descriptor) -> (r: Result<
        UserPtr,
        LuaError,
    >)
        requires
            interp.wf(),
            index < interp@.len(),
        ensures
            r is Ok <==> (interp@[index as int] is Block && validates(
                interp@[index as int]->Block_0,
                *d,
            )),
            r is Ok ==> r->Ok_0 == (UserPtr { slot: index, tag: d.tag }),
            r is Err ==> (r->Err_0 matches LuaError::TypeMismatch { index: i, expected } && i
                == index && expected@ == d.name@),
    {
        match Self::try_new(interp, index, d) {
            Some(r) => Ok(r),
            None => Err(LuaError::TypeMismatch { index, expected: d.name.clone() }),
        }
    }

    /// Sets the block's frozen flag unless it is already set; a one-way
    /// transition that never raises an error.  The payload, the tag and the
    /// borrow count are untouched.
    pub fn freeze(self, interp: &mut Interp)
        requires
            old(interp).wf(),
            self.valid(old(interp)@),
        ensures
            final(interp).wf(),
            final(interp)@ == self.spec_freeze_slot(old(interp)@),
    {
        match &mut interp.slots[self.slot] {
            Value::Block(b) => b.freeze(),
            _ => {
                proof {
                    assert(false);
                }
            },
        }
        proof {
            assert(interp@ =~= old(interp)@.update(
                self.slot as int,
                ValueModel::Block(spec_freeze(self.model(old(interp)@))),
            ));
        }
    }

    /// Runs the payload's end of life and overwrites the whole block with
    /// the poison pattern, so that any later validation attempt against any
    /// well-formed descriptor fails rather than silently match a stale tag.
    pub fn drop(self, interp: &mut Interp)
        requires
            old(interp).wf(),
            self.valid(old(interp)@),
        ensures
            final(interp).wf(),
            final(interp)@ == self.spec_destroy_slot(old(interp)@),
    {
        match &mut interp.slots[self.slot] {
            Value::Block(b) => b.destroy(),
            _ => {
                proof {
                    assert(false);
                }
            },
        }
        proof {
            assert(interp@ =~= old(interp)@.update(
                self.slot as int,
                ValueModel::Block(spec_destroy(self.model(old(interp)@))),
            ));
        }
    }

    /// Copies the payload out of the block.  The borrow count must be
    /// nonnegative (no exclusive access outstanding), which holds of every
    /// live block; a destroyed block's poisoned count reads negative, and
    /// reading through a stale handle is excluded rather than handled.
    pub fn read(self, interp: &Interp) -> (p: Vec<u8>)
        requires
            interp.wf(),
            self.valid(interp@),
            borrow_nonneg(self.model(interp@)),
        ensures
            p@ == self.model(interp@).payload,
    {
        match &interp.slots[self.slot] {
            Value::Block(b) => b.read_payload(),
            _ => {
                proof {
                    assert(false);
                }
                Vec::new()
            },
        }
    }

    /// Applies a read-only continuation to a copy of the payload and hands
    /// its result back unchanged.  Like [`UserPtr::read`], this requires the
    /// borrow count to be nonnegative, which holds of every live block.
    pub fn read_with<R, F: FnOnce(Vec<u8>) -> R>(self, interp: &Interp, f: F) -> (r: R)
        requires
            interp.wf(),
            self.valid(interp@),
            borrow_nonneg(self.model(interp@)),
            forall|p: Vec<u8>| p@ == self.model(interp@).payload ==> call_requires(f, (p,)),
        ensures
            exists|p: Vec<u8>|
                p@ == self.model(interp@).payload && call_ensures(f, (p,), r),
    {
        let p = self.read(interp);
        let ghost p0 = p;
        let r = f(p);
        proof {
            assert(p0@ == self.model(interp@).payload && call_ensures(f, (p0,), r));
        }
        r
    }

    /// Replaces the payload with `v`, unless the block is frozen, in which
    /// case the frozen-write argument error citing `index` is raised and the
    /// block is untouched.  The new payload must have the block's exact
    /// payload size.  Before writing, the borrow count must be exactly zero;
    /// it always is, because no operation ever moves it while the block is
    /// alive.
    pub fn write(self, interp: &mut Interp, v: &Vec<u8>, index: usize) -> (r: Result<
        (),
        LuaError,
    >)
        requires
            old(interp).wf(),
            self.valid(old(interp)@),
            v@.len() == self.model(old(interp)@).payload.len(),
        ensures
            final(interp).wf(),
            r is Ok <==> self.model(old(interp)@).frozen == 0,
            r is Ok ==> final(interp)@ == old(interp)@.update(
                self.slot as int,
                ValueModel::Block(BlockModel { payload: v@, ..self.model(old(interp)@) }),
            ),
            r is Err ==> final(interp)@ == old(interp)@,
            r is Err ==> (r->Err_0 matches LuaError::FrozenWrite { index: i } && i == index),
    {
        match &mut interp.slots[self.slot] {
            Value::Block(b) => {
                if b.is_frozen() {
                    proof {
                        assert(old(interp)@.update(
                            self.slot as int,
                            old(interp)@[self.slot as int],
                        ) =~= old(interp)@);
                        assert(interp@ =~= old(interp)@);
                    }
                    Err(LuaError::FrozenWrite { index })
                } else {
                    proof {
                        // The fatal borrow assertion of the design: an
                        // unfrozen reachable block has borrow count zero.
                        assert(old(interp).slots@[self.slot as int].wf());
                        b.lemma_wf_facts();
                        assert(b@.borrow == 0);
                    }
                    b.write_payload(v);
                    proof {
                        assert(interp@ =~= old(interp)@.update(
                            self.slot as int,
                            ValueModel::Block(
                                BlockModel { payload: v@, ..self.model(old(interp)@) },
                            ),
                        ));
                    }
                    Ok(())
                }
            },
            _ => {
                proof {
                    assert(false);
                }
                Err(LuaError::FrozenWrite { index })
            },
        }
    }

    /// Applies a mutating continuation to the payload: the continuation is
    /// handed a copy of the current payload and yields the new payload (of
    /// the same size) together with a result, which is handed back
    /// unchanged.  On a frozen block the continuation never runs and the
    /// frozen-write error citing `index` is raised.  Before the write the
    /// borrow count must be exactly zero, which holds of every live block.
    pub fn write_with<R, F: FnOnce(Vec<u8>) -> (Vec<u8>, R)>(
        self,
        interp: &mut Interp,
        f: F,
        index: usize,
    ) -> (r: Result<R, LuaError>)
        requires
            old(interp).wf(),
            self.valid(old(interp)@),
            forall|p: Vec<u8>|
                p@ == self.model(old(interp)@).payload ==> call_requires(f, (p,)),
            forall|p: Vec<u8>, out: (Vec<u8>, R)|
                p@ == self.model(old(interp)@).payload && call_ensures(f, (p,), out)
                    ==> out.0@.len() == p@.len(),
        ensures
            final(interp).wf(),
            r is Ok <==> self.model(old(interp)@).frozen == 0,
            r is Ok ==> exists|p: Vec<u8>, out: (Vec<u8>, R)|
                p@ == self.model(old(interp)@).payload && call_ensures(f, (p,), out) && r->Ok_0
                    == out.1 && final(interp)@ == old(interp)@.update(
                    self.slot as int,
                    ValueModel::Block(
                        BlockModel { payload: out.0@, ..self.model(old(interp)@) },
                    ),
                ),
            r is Err ==> final(interp)@ == old(interp)@,
            r is Err ==> (r->Err_0 matches LuaError::FrozenWrite { index: i } && i == index),
    {
        let frozen = match &interp.slots[self.slot] {
            Value::Block(b) => b.is_frozen(),
            _ => {
                proof {
                    assert(false);
                }
                true
            },
        };
        if frozen {
            return Err(LuaError::FrozenWrite { index });
        }
        proof {
            // The fatal borrow assertion of the design: an unfrozen
            // reachable block has borrow count zero.
            assert(old(interp).slots@[self.slot as int].wf());
            match old(interp).slots@[self.slot as int] {
                Value::Block(b) => {
                    b.lemma_wf_facts();
                },
                _ => {},
            }
            assert(self.model(old(interp)@).borrow == 0);
        }
        let p = self.read(interp);
        let ghost p0 = p;
        let (np, res) = f(p);
        let ghost out0 = (np, res);
        let wrote = self.write(interp, &np, index);
        proof {
            assert(wrote is Ok);
            assert(p0@ == self.model(old(interp)@).payload && call_ensures(f, (p0,), out0)
                && res == out0.1 && interp@ == old(interp)@.update(
                self.slot as int,
                ValueModel::Block(
                    BlockModel { payload: out0.0@, ..self.model(old(interp)@) },
                ),
            ));
        }
        Ok(res)
    }
}

/// Allocates a block under the descriptor, with the payload bytes given,
/// attaches the descriptor's registered metatable, and pushes the block onto
/// the interpreter slots.  Returns the new block's slot.
///
/// The descriptor's metatable must already be registered; pushing a block of
/// an unregistered type is a setup defect the design treats as fatal.
pub fn ud_push(interp: &mut Interp, reg: &Registry, d: &Descriptor, v: Vec<u8>) -> (idx: usize)
    requires
        old(interp).wf(),
        old(interp)@.len() < usize::MAX,
        reg.wf(),
        d.wf(),
        has_name(reg@, d.name@),
        v@.len() == d.payload_size,
    ensures
        final(interp).wf(),
        idx == old(interp)@.len(),
        final(interp)@ == old(interp)@.push(
            ValueModel::Block(
                BlockModel {
                    borrow: 0u8,
                    frozen: 0u8,
                    tag: d.tag,
                    payload: v@,
                    metatable: d.name@,
                },
            ),
        ),
{
    let idx = interp.top();
    let b = Block::new(d.tag, v, d.name.clone());
    proof {
        assert(b@ =~= (BlockModel {
            borrow: 0u8,
            frozen: 0u8,
            tag: d.tag,
            payload: b@.payload,
            metatable: d.name@,
        }));
    }
    interp.push(Value::Block(b));
    idx
}

/// Like [`ud_push`], but the new block's payload starts zero-filled, for a
/// caller that will fill it in through a handle.
pub fn ud_push_raw(interp: &mut Interp, reg: &Registry, d: &Descriptor) -> (idx: usize)
    requires
        old(interp).wf(),
        old(interp)@.len() < usize::MAX,
        reg.wf(),
        d.wf(),
        has_name(reg@, d.name@),
    ensures
        final(interp).wf(),
        idx == old(interp)@.len(),
        final(interp)@ == old(interp)@.push(
            ValueModel::Block(
                BlockModel {
                    borrow: 0u8,
                    frozen: 0u8,
                    tag: d.tag,
                    payload: Seq::new(d.payload_size as nat, |i: int| 0u8),
                    metatable: d.name@,
                },
            ),
        ),
{
    let n = d.payload_size;
    let mut v: Vec<u8> = Vec::new();
    let mut i: usize = 0;
    while i < n
        invariant
            0 <= i <= n,
            v@ =~= Seq::new(i as nat, |j: int| 0u8),
        decreases n - i,
    {
        v.push(0);
        proof {
            assert(v@ =~= Seq::new((i + 1) as nat, |j: int| 0u8));
        }
        i = i + 1;
    }
    ud_push(interp, reg, d, v)
}

/// Validates the call's receiver: the call must have exactly `1 + n`
/// arguments, and slot 0 must hold a block of the descriptor's type.  Raises
/// the arity error or the type error otherwise.
pub fn check_self_plus_n(interp: &Interp, d: &Descriptor, n: usize) -> (r: Result<
    UserPtr,
    LuaError,
>)
    requires
        interp.wf(),
        n < usize::MAX,
    ensures
        r is Ok <==> (interp@.len() == n + 1 && interp@[0] is Block && validates(
            interp@[0]->Block_0,
            *d,
        )),
        r is Ok ==> r->Ok_0 == (UserPtr { slot: 0usize, tag: d.tag }),
        interp@.len() != n + 1 ==> (r is Err && (r->Err_0 matches LuaError::Arity {
            expected,
            got,
        } && expected == n + 1 && got == interp@.len())),
        interp@.len() == n + 1 && r is Err ==> (r->Err_0 matches LuaError::TypeMismatch {
            index,
            expected,
        } && index == 0 && expected@ == d.name@),
{
    match check_args_eq_n(interp, n + 1) {
        Ok(_) => UserPtr::new_or_error(interp, 0, d),
        Err(e) => Err(e),
    }
}

/// Validates the call's receiver for a method taking no further arguments.
pub fn check_self_only(interp: &Interp, d: &Descriptor) -> (r: Result<UserPtr, LuaError>)
    requires
        interp.wf(),
    ensures
        r is Ok <==> (interp@.len() == 1 && interp@[0] is Block && validates(
            interp@[0]->Block_0,
            *d,
        )),
        r is Ok ==> r->Ok_0 == (UserPtr { slot: 0usize, tag: d.tag }),
        interp@.len() != 1 ==> (r is Err && (r->Err_0 matches LuaError::Arity { expected, got }
            && expected == 1 && got == interp@.len())),
        interp@.len() == 1 && r is Err ==> (r->Err_0 matches LuaError::TypeMismatch {
            index,
            expected,
        } && index == 0 && expected@ == d.name@),
{
    check_self_plus_n(interp, d, 0)
}

/// Freezing is idempotent, at the level of the whole slot row: a second
/// freeze through the same handle leaves every slot exactly as the first
/// left it, and freezing has no error path either time.  The handle stays
/// valid, since freezing does not touch the tag.
pub proof fn lemma_freeze_slot_idempotent(s: Seq<ValueModel>, h: UserPtr)
    requires
        h.valid(s),
    ensures
        h.valid(h.spec_freeze_slot(s)),
        h.spec_freeze_slot(h.spec_freeze_slot(s)) == h.spec_freeze_slot(s),
{
    let s1 = h.spec_freeze_slot(s);
    lemma_freeze_idempotent(h.model(s));
    assert(h.spec_freeze_slot(s1) =~= s1);
}

/// After a freeze, every subsequent write through the handle raises the
/// frozen-write error, whatever payload it attempts: the frozen flag that
/// the write operations test is set, and stays set.  Reads keep returning
/// the payload from before the freeze, which the freeze did not touch.
pub proof fn lemma_freeze_slot_rejects_writes(s: Seq<ValueModel>, h: UserPtr)
    requires
        h.valid(s),
    ensures
        h.valid(h.spec_freeze_slot(s)),
        h.model(h.spec_freeze_slot(s)).frozen != 0,
        h.model(h.spec_freeze_slot(s)).payload == h.model(s).payload,
{
}

/// After a destroy, validation of the slot fails against every well-formed
/// descriptor, never matching a stale tag: the slot still holds a block,
/// but its header reads as the poison sentinel, which no live descriptor
/// carries.
pub proof fn lemma_destroy_slot_invalidates(s: Seq<ValueModel>, h: UserPtr, d: Descriptor)
    requires
        h.valid(s),
        d.wf(),
    ensures
        h.spec_destroy_slot(s)[h.slot as int] is Block,
        !validates(h.spec_destroy_slot(s)[h.slot as int]->Block_0, d),
{
}

/// The validation criterion depends only on the tags: a block created under
/// one descriptor never validates against a descriptor with a different tag.
/// In particular, for two distinct registered descriptors, a block carrying
/// the first one's tag fails validation against the second.
pub proof fn lemma_cross_validation_fails(m: BlockModel, d1: Descriptor, d2: Descriptor)
    requires
        m.tag == d1.tag,
        d1.tag != d2.tag,
    ensures
        validates(m, d1),
        !validates(m, d2),
{
}

/// A destroyed block validates against no well-formed descriptor: its header
/// reads as the poison sentinel, which no live descriptor's tag may equal,
/// so a stale handle can never be re-derived from it.
pub proof fn lemma_destroyed_never_validates(m: BlockModel, d: Descriptor)
    requires
        d.wf(),
    ensures
        !validates(spec_destroy(m), d),
{
}

} // verus!
