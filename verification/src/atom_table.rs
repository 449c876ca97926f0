//! The class identity cache: the class identifier that the windowing
//! subsystem gave to each behaviour that has been registered.

use vstd::prelude::*;
use std::collections::HashMap;
use crate::win_layer::{ATOM, WinClsIdW};
use crate::win_cls::{WinCls, ClassStep};

verus! {

broadcast use vstd::std_specs::hash::group_hash_axioms;

/// The error of a behaviour that has no class descriptor to register.
pub const NO_CLASS: u32 = 0xFFFF_FFFF;

/// The cache of class identifiers, keyed by behaviour. It belongs to the
/// one thread that runs the message loop.
pub struct AtomTable {
    map: HashMap<u64, ATOM>,
}

impl View for AtomTable {
    type V = Map<u64, ATOM>;

    closed spec fn view(&self) -> Map<u64, ATOM> {
        self.map@
    }
}

impl AtomTable {
    /// A cache that knows no class.
    pub fn new() -> (atoms: Self)
        ensures
            atoms@ == Map::<u64, ATOM>::empty(),
    {
        AtomTable { map: HashMap::new() }
    }

    /// The number of behaviours whose identifier is cached.
    pub fn len(&self) -> (n: usize)
        ensures
            n == self@.len(),
            self@.dom().finite(),
    {
        self.map.len()
    }

    /// The cached identifier of the behaviour with key `class`.
    pub fn get(&self, class: u64) -> (atom: Option<ATOM>)
        ensures
            atom == (if self@.contains_key(class) {
                Some(self@[class])
            } else {
                None
            }),
    {
        match self.map.get(&class) {
            Some(a) => Some(*a),
            None => None,
        }
    }

    /// Takes note of the outcome of a registration for the behaviour with
    /// key `class`: an identifier is cached and handed on, a failure is
    /// handed on and leaves no trace.
    pub fn record(&mut self, class: u64, outcome: Result<ATOM, u32>) -> (id: Result<ATOM, u32>)
        ensures
            id == outcome,
            final(self)@ == recorded(old(self)@, class, outcome),
    {
        match outcome {
            Ok(atom) => {
                self.map.insert(class, atom);
                Ok(atom)
            },
            Err(code) => Err(code),
        }
    }
}

/// The cache after the outcome of a registration has been recorded.
pub open spec fn recorded(atoms: Map<u64, ATOM>, class: u64, outcome: Result<ATOM, u32>) -> Map<
    u64,
    ATOM,
> {
    match outcome {
        Ok(atom) => atoms.insert(class, atom),
        Err(_) => atoms,
    }
}

/// Looks the class identifier of behaviour `T` up, and says what is to be
/// done where it is not cached yet.
pub fn get_cls_id<E, T: WinCls<E>>(atoms: &AtomTable) -> (step: ClassStep)
    ensures
        match step {
            ClassStep::Ready(id) => atoms@.contains_key(T::class_spec()) && id == WinClsIdW::Atom(
                atoms@[T::class_spec()],
            ),
            ClassStep::Register(desc) => !atoms@.contains_key(T::class_spec()) && T::class_desc()
                == Some(desc@),
            ClassStep::Failed(code) => !atoms@.contains_key(T::class_spec()) && T::class_desc()
                is None && code == NO_CLASS,
        },
{
    match atoms.get(T::class_key()) {
        Some(atom) => ClassStep::Ready(WinClsIdW::Atom(atom)),
        None => match T::register() {
            Some(desc) => ClassStep::Register(desc),
            None => ClassStep::Failed(NO_CLASS),
        },
    }
}

/// Takes the outcome of the registration that `get_cls_id` asked for: an
/// identifier is cached and returned, a failure is returned as it is and
/// not cached.
pub fn registered<E, T: WinCls<E>>(atoms: &mut AtomTable, outcome: Result<ATOM, u32>) -> (id:
    Result<WinClsIdW, u32>)
    ensures
        final(atoms)@ == recorded(old(atoms)@, T::class_spec(), outcome),
        match outcome {
            Ok(atom) => id == Ok::<WinClsIdW, u32>(WinClsIdW::Atom(atom)),
            Err(code) => id == Err::<WinClsIdW, u32>(code),
        },
{
    match atoms.record(T::class_key(), outcome) {
        Ok(atom) => Ok(WinClsIdW::Atom(atom)),
        Err(code) => Err(code),
    }
}

} // verus!
