//! The three type-erased, script-visible freeze entry points.
//!
//! Each is registered once in the interpreter's global namespace and
//! operates on the generic header of whatever block it is handed, with no
//! descriptor involved.  Each requires exactly one argument and raises the
//! arity error otherwise.

use vstd::prelude::*;

use crate::block::spec_freeze;
use crate::interp::{check_args_eq_n, Interp, LuaError, Value, ValueModel};

verus! {

/// Freezes the argument if it is a full userdata block; raises a type error
/// expecting "userdata" otherwise.
pub fn ud_freeze(interp: &mut Interp) -> (r: Result<(), LuaError>)
    requires
        old(interp).wf(),
    ensures
        final(interp).wf(),
        r is Ok <==> (old(interp)@.len() == 1 && old(interp)@[0] is Block),
        r is Ok ==> final(interp)@ == old(interp)@.update(
            0,
            ValueModel::Block(spec_freeze(old(interp)@[0]->Block_0)),
        ),
        r is Err ==> final(interp)@ == old(interp)@,
        old(interp)@.len() != 1 ==> (r->Err_0 matches LuaError::Arity { expected, got }
            && expected == 1 && got == old(interp)@.len()),
        old(interp)@.len() == 1 && !(old(interp)@[0] is Block) ==> (
        r->Err_0 matches LuaError::TypeMismatch { index, expected } && index == 0 && expected@
            == "userdata"@),
{
    if let Err(e) = check_args_eq_n(interp, 1) {
        return Err(e);
    }
    match &mut interp.slots[0] {
        Value::Block(b) => {
            b.freeze();
            proof {
                assert(interp@ =~= old(interp)@.update(
                    0,
                    ValueModel::Block(spec_freeze(old(interp)@[0]->Block_0)),
                ));
            }
            Ok(())
        },
        _ => {
            proof {
                assert(interp@ =~= old(interp)@);
            }
            Err(LuaError::TypeMismatch { index: 0, expected: "userdata".to_owned() })
        },
    }
}

/// Freezes the argument if it is a full userdata block; a silent no-op on
/// any other value.
pub fn ud_freeze_maybe(interp: &mut Interp) -> (r: Result<(), LuaError>)
    requires
        old(interp).wf(),
    ensures
        final(interp).wf(),
        r is Ok <==> old(interp)@.len() == 1,
        old(interp)@.len() != 1 ==> (r->Err_0 matches LuaError::Arity { expected, got }
            && expected == 1 && got == old(interp)@.len() && final(interp)@ == old(interp)@),
        old(interp)@.len() == 1 && old(interp)@[0] is Block ==> final(interp)@ == old(
            interp,
        )@.update(0, ValueModel::Block(spec_freeze(old(interp)@[0]->Block_0))),
        old(interp)@.len() == 1 && !(old(interp)@[0] is Block) ==> final(interp)@ == old(
            interp,
        )@,
{
    if let Err(e) = check_args_eq_n(interp, 1) {
        return Err(e);
    }
    match &mut interp.slots[0] {
        Value::Block(b) => {
            b.freeze();
            proof {
                assert(interp@ =~= old(interp)@.update(
                    0,
                    ValueModel::Block(spec_freeze(old(interp)@[0]->Block_0)),
                ));
            }
        },
        _ => {
            proof {
                assert(interp@ =~= old(interp)@);
            }
        },
    }
    Ok(())
}

/// Returns whether the argument's frozen flag is set; false, with no error,
/// when the argument is not a full userdata block.
pub fn ud_frozen(interp: &Interp) -> (r: Result<bool, LuaError>)
    requires
        interp.wf(),
    ensures
        r is Ok <==> interp@.len() == 1,
        interp@.len() != 1 ==> (r->Err_0 matches LuaError::Arity { expected, got } && expected
            == 1 && got == interp@.len()),
        r is Ok ==> r->Ok_0 == (interp@[0] is Block && interp@[0]->Block_0.frozen != 0),
{
    if let Err(e) = check_args_eq_n(interp, 1) {
        return Err(e);
    }
    let frozen = match &interp.slots[0] {
        Value::Block(b) => b.is_frozen(),
        _ => false,
    };
    Ok(frozen)
}

} // verus!
