//! The handle registry: which instance is bound to which native handle.

use vstd::prelude::*;
use std::collections::HashMap;
use crate::win_layer::HWND;
use crate::win_cls::WinCls;

verus! {

broadcast use vstd::std_specs::hash::group_hash_axioms;

/// A type-erased instance together with the key of the behaviour that it
/// was bound under.
pub struct Entry<E> {
    pub class: u64,
    pub inst: E,
}

/// The instance of behaviour `T` that `table` holds for `hwnd`: absent
/// where nothing is bound, and where the binding is one of another
/// behaviour.
pub open spec fn bound_as<E, T: WinCls<E>>(table: Map<HWND, Entry<E>>, hwnd: HWND) -> Option<T> {
    if table.contains_key(hwnd) && table[hwnd].class == T::class_spec() {
        T::restored(&table[hwnd].inst)
    } else {
        None
    }
}

/// The entry that binding `inst` writes.
pub open spec fn entry_of<E, T: WinCls<E>>(inst: T) -> Entry<E> {
    Entry { class: T::class_spec(), inst: inst.erased() }
}

/// Whether every entry of `table` that was bound under behaviour `T`
/// holds an instance of `T`: no lookup for `T` meets a value of another
/// kind under its own key.
pub open spec fn consistent<E, T: WinCls<E>>(table: Map<HWND, Entry<E>>) -> bool {
    forall|hwnd: HWND| #[trigger]
        table.contains_key(hwnd) && table[hwnd].class == T::class_spec() ==> T::restored(
            &table[hwnd].inst,
        ) is Some
}

/// The table of bindings, keyed by native handle. It belongs to the one
/// thread that runs the message loop.
pub struct HwndTable<E> {
    map: HashMap<HWND, Entry<E>>,
}

impl<E> View for HwndTable<E> {
    type V = Map<HWND, Entry<E>>;

    closed spec fn view(&self) -> Map<HWND, Entry<E>> {
        self.map@
    }
}

impl<E> HwndTable<E> {
    /// A table without bindings.
    pub fn new() -> (table: Self)
        ensures
            table@ == Map::<HWND, Entry<E>>::empty(),
    {
        HwndTable { map: HashMap::new() }
    }

    /// The number of bindings.
    pub fn len(&self) -> (n: usize)
        ensures
            n == self@.len(),
            self@.dom().finite(),
    {
        self.map.len()
    }

    /// Whether no handle is bound.
    pub fn is_empty(&self) -> (b: bool)
        ensures
            b == (self@.len() == 0),
            self@.dom().finite(),
    {
        self.map.len() == 0
    }

    /// Whether `hwnd` is bound, under whatever behaviour.
    pub fn contains(&self, hwnd: HWND) -> (b: bool)
        ensures
            b == self@.contains_key(hwnd),
    {
        self.map.contains_key(&hwnd)
    }

    /// Binds `inst` to `hwnd` and hands it back. A binding that `hwnd`
    /// already had is overwritten.
    pub fn bind<T: WinCls<E>>(&mut self, hwnd: HWND, inst: T) -> (bound: T)
        ensures
            final(self)@ == old(self)@.insert(hwnd, entry_of::<E, T>(inst)),
            bound == inst,
    {
        let entry = Entry { class: T::class_key(), inst: inst.erase() };
        self.map.insert(hwnd, entry);
        inst
    }

    /// The instance bound to `hwnd`, if there is one and it is of
    /// behaviour `T`.
    pub fn lookup<T: WinCls<E>>(&self, hwnd: HWND) -> (found: Option<T>)
        ensures
            found == bound_as::<E, T>(self@, hwnd),
    {
        match self.map.get(&hwnd) {
            Some(entry) => {
                if entry.class == T::class_key() {
                    T::restore(&entry.inst)
                } else {
                    None
                }
            },
            None => None,
        }
    }

    /// Writes the state of an instance back: where `hwnd` is bound to an
    /// instance of behaviour `T`, that instance becomes `inst`. Elsewhere
    /// nothing changes.
    pub fn update<T: WinCls<E>>(&mut self, hwnd: HWND, inst: T) -> (done: bool)
        ensures
            done == bound_as::<E, T>(old(self)@, hwnd) is Some,
            final(self)@ == (if done {
                old(self)@.insert(hwnd, entry_of::<E, T>(inst))
            } else {
                old(self)@
            }),
    {
        if self.lookup::<T>(hwnd).is_some() {
            self.bind(hwnd, inst);
            true
        } else {
            false
        }
    }

    /// Removes the binding of `hwnd`, whatever its behaviour, and returns
    /// the instance if it was one of behaviour `T`.
    pub fn unbind<T: WinCls<E>>(&mut self, hwnd: HWND) -> (removed: Option<T>)
        ensures
            final(self)@ == old(self)@.remove(hwnd),
            removed == bound_as::<E, T>(old(self)@, hwnd),
    {
        match self.map.remove(&hwnd) {
            Some(entry) => {
                if entry.class == T::class_key() {
                    T::restore(&entry.inst)
                } else {
                    None
                }
            },
            None => None,
        }
    }
}

} // verus!
