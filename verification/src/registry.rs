//! The interpreter-resident registry of metatables, one per descriptor.
//!
//! Native setup code registers, once per bound type and before any block of
//! that type is created, a method table under the descriptor's name.  The
//! registered metatable resolves unqualified attribute access on instances
//! through itself, guards attribute assignment with an unconditional error,
//! and answers reflective metatable queries with a fixed false value, so
//! script code can neither extend a bound type nor reach its real method
//! table.
//!
//! The registry is one explicit object owned by the interpreter-binding
//! layer and passed to every registration call; names are unique across it.

use vstd::prelude::*;

use crate::interp::{LuaError, SetupError};

verus! {

/// One entry of a method table as native setup code writes it down: a
/// sentinel entry has neither name nor function.  Functions are identified
/// by an opaque native-function id.
pub struct RegEntry {
    /// Method name, or nothing in the sentinel entry.
    pub name: Option<String>,
    /// Native function id, or nothing in the sentinel entry.
    pub func: Option<u64>,
}

/// One registered method: a name bound to a native function id.
pub struct Method {
    /// Method name.
    pub name: String,
    /// Native function id.
    pub func: u64,
}

/// Mathematical model of a registered metatable.
#[verifier::ext_equal]
pub ghost struct MetatableModel {
    /// The copied method entries, in table order.
    pub methods: Seq<(Seq<char>, u64)>,
    /// Unqualified attribute lookup on an instance falls back to the
    /// metatable itself.
    pub index_is_self: bool,
    /// Attribute assignment on an instance raises the metatable guard error.
    pub newindex_guarded: bool,
    /// Reflective metatable queries get a fixed false value instead of the
    /// real table.
    pub metatable_hidden: bool,
}

/// A metatable as it sits in the registry: the copied methods and the three
/// access-control settings installed at registration.
pub struct Metatable {
    /// The copied method entries, in table order.
    pub methods: Vec<Method>,
    /// Attribute-lookup fallback points back at the metatable itself.
    pub index_is_self: bool,
    /// Attribute assignment raises the guard error.
    pub newindex_guarded: bool,
    /// Reflective metatable queries are answered with a fixed false value.
    pub metatable_hidden: bool,
}

impl View for Metatable {
    type V = MetatableModel;

    open spec fn view(&self) -> MetatableModel {
        MetatableModel {
            methods: Seq::new(
                self.methods@.len(),
                |i: int| (self.methods@[i].name@, self.methods@[i].func),
            ),
            index_is_self: self.index_is_self,
            newindex_guarded: self.newindex_guarded,
            metatable_hidden: self.metatable_hidden,
        }
    }
}

/// One registry binding: a metatable under its descriptor's name.
pub struct RegTable {
    /// The registry key: the descriptor's display name.
    pub name: String,
    /// The registered metatable.
    pub table: Metatable,
}

/// The registry of metatables, keyed by descriptor name.
pub struct Registry {
    /// The bindings, in registration order.
    pub tables: Vec<RegTable>,
}

impl View for Registry {
    type V = Seq<(Seq<char>, MetatableModel)>;

    open spec fn view(&self) -> Seq<(Seq<char>, MetatableModel)> {
        Seq::new(self.tables@.len(), |i: int| (self.tables@[i].name@, self.tables@[i].table@))
    }
}

/// Whether some metatable is registered under the name.
pub open spec fn has_name(s: Seq<(Seq<char>, MetatableModel)>, n: Seq<char>) -> bool {
    exists|i: int| 0 <= i < s.len() && (#[trigger] s[i]).0 == n
}

/// A method table is well formed when it ends with the null sentinel entry
/// and every entry before the sentinel is complete.
pub open spec fn method_table_valid(t: Seq<RegEntry>) -> bool {
    &&& t.len() >= 1
    &&& t[t.len() - 1].name is None
    &&& t[t.len() - 1].func is None
    &&& forall|i: int| 0 <= i < t.len() - 1 ==> (#[trigger] t[i]).name is Some && t[i].func
        is Some
}

/// The methods a valid table registers: every entry before the sentinel.
pub open spec fn table_methods(t: Seq<RegEntry>) -> Seq<(Seq<char>, u64)>
    recommends
        method_table_valid(t),
{
    Seq::new((t.len() - 1) as nat, |i: int| (t[i].name->0@, t[i].func->0))
}

impl Registry {
    /// Names are unique across the registry.
    pub open spec fn wf(&self) -> bool {
        forall|i: int, j: int|
            0 <= i < j < self@.len() ==> (#[trigger] self@[i]).0 != (#[trigger] self@[j]).0
    }

    /// An empty registry, owned by the interpreter-binding layer.
    pub fn new() -> (r: Registry)
        ensures
            r.wf(),
            r@ == Seq::<(Seq<char>, MetatableModel)>::empty(),
    {
        let r = Registry { tables: Vec::new() };
        proof {
            assert(r@ =~= Seq::<(Seq<char>, MetatableModel)>::empty());
        }
        r
    }
}

/// Registers a method table as a new metatable under `name`.
///
/// The table must end with the null sentinel entry; registering under a name
/// already taken is a duplicate-registration defect.  Both conditions are
/// setup-time invariants, reported as the fatal [`SetupError`] class rather
/// than through the interpreter's recoverable unwind: a host aborts on them.
///
/// On success the metatable holds a copy of the method entries, resolves
/// attribute lookup through itself, guards attribute assignment, and hides
/// itself from reflective queries.
#[verifier::loop_isolation(false)]
pub fn register_metatable(reg: &mut Registry, name: String, mt: &Vec<RegEntry>) -> (r: Result<
    (),
    SetupError,
>)
    requires
        old(reg).wf(),
    ensures
        final(reg).wf(),
        r is Ok <==> (method_table_valid(mt@) && !has_name(old(reg)@, name@)),
        !method_table_valid(mt@) ==> r == Err::<(), SetupError>(SetupError::MalformedMethodTable),
        method_table_valid(mt@) && has_name(old(reg)@, name@) ==> r == Err::<(), SetupError>(
            SetupError::DuplicateName,
        ),
        r is Err ==> final(reg)@ == old(reg)@,
        r is Ok ==> final(reg)@ == old(reg)@.push(
            (
                name@,
                MetatableModel {
                    methods: table_methods(mt@),
                    index_is_self: true,
                    newindex_guarded: true,
                    metatable_hidden: true,
                },
            ),
        ),
{
    let len = mt.len();
    if len == 0 {
        return Err(SetupError::MalformedMethodTable);
    }
    let sentinel_bad = mt[len - 1].name.is_some() || mt[len - 1].func.is_some();
    if sentinel_bad {
        return Err(SetupError::MalformedMethodTable);
    }
    let mut methods: Vec<Method> = Vec::new();
    let mut i: usize = 0;
    while i < len - 1
        invariant
            0 <= i <= len - 1,
            len == mt@.len(),
            methods@.len() == i,
            forall|k: int|
                0 <= k < i ==> (#[trigger] mt@[k]).name is Some && mt@[k].func is Some,
            forall|k: int|
                0 <= k < i ==> (#[trigger] methods@[k]).name@ == mt@[k].name->0@ && methods@[k].func
                    == mt@[k].func->0,
        decreases len - 1 - i,
    {
        match (&mt[i].name, &mt[i].func) {
            (Some(nm), Some(f)) => {
                methods.push(Method { name: nm.clone(), func: *f });
            },
            _ => {
                return Err(SetupError::MalformedMethodTable);
            },
        }
        i = i + 1;
    }
    proof {
        assert(method_table_valid(mt@));
    }
    let mut j: usize = 0;
    let n_tables = reg.tables.len();
    while j < n_tables
        invariant
            0 <= j <= n_tables,
            forall|k: int| 0 <= k < j ==> (#[trigger] reg@[k]).0 != name@,
        decreases n_tables - j,
    {
        if reg.tables[j].name == name {
            proof {
                assert(reg@[j as int].0 == name@);
                assert(has_name(old(reg)@, name@));
            }
            return Err(SetupError::DuplicateName);
        }
        j = j + 1;
    }
    proof {
        assert(!has_name(reg@, name@));
    }
    let table = Metatable {
        methods,
        index_is_self: true,
        newindex_guarded: true,
        metatable_hidden: true,
    };
    proof {
        assert(table@.methods =~= table_methods(mt@));
    }
    let ghost name_view = name@;
    reg.tables.push(RegTable { name, table });
    proof {
        assert(reg@ =~= old(reg)@.push(
            (
                name_view,
                MetatableModel {
                    methods: table_methods(mt@),
                    index_is_self: true,
                    newindex_guarded: true,
                    metatable_hidden: true,
                },
            ),
        ));
    }
    Ok(())
}

/// The attribute-assignment guard installed on every registered metatable:
/// unconditionally raises the metatable-modification error, so instances of
/// bound native types are closed to script-side extension.
pub fn ud_newindex() -> (r: Result<(), LuaError>)
    ensures
        r is Err,
        r->Err_0 is MetatableNewIndex,
{
    Err(LuaError::MetatableNewIndex)
}

} // verus!
