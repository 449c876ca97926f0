//! What the message trampoline does, as functions of the table of bindings
//! and of one delivered message.
//!
//! A dispatch goes through these steps and stops at the first that yields
//! a result:
//!
//! 1. the final message of a handle removes its binding, and the instance
//!    that was bound is asked; where it has no opinion the dispatch goes
//!    on;
//! 2. the class-wide handler is asked;
//! 3. the instance bound to the handle is looked up; where there is none
//!    and the message is the creation message, the creation parameter is
//!    bound;
//! 4. the instance found or just bound is asked;
//! 5. the message is left to default handling.

use vstd::prelude::*;
use crate::win_layer::{HWND, UINT, WPARAM, LPARAM, WM_CREATE, WM_NCDESTROY};
use crate::win_cls::WinCls;
use crate::hwnd_table::{Entry, HwndTable, bound_as, entry_of};

verus! {

/// How a dispatch ended.
#[derive(Clone, Copy, Debug, PartialEq, Eq)]
pub enum Reply<W> {
    /// A handler took the message and asks for this work.
    Handled(W),
    /// No handler had an opinion: the message goes to default handling.
    Default,
}

/// The table once the first step is over: the final message has removed
/// the binding of its handle.
pub open spec fn final_unbind<E>(table: Map<HWND, Entry<E>>, hwnd: HWND, msg: UINT) -> Map<
    HWND,
    Entry<E>,
> {
    if msg == WM_NCDESTROY {
        table.remove(hwnd)
    } else {
        table
    }
}

/// The instance that the final message has unbound and that is asked in
/// the first step.
pub open spec fn final_instance<E, T: WinCls<E>>(
    table: Map<HWND, Entry<E>>,
    hwnd: HWND,
    msg: UINT,
) -> Option<T> {
    if msg == WM_NCDESTROY {
        bound_as::<E, T>(table, hwnd)
    } else {
        None
    }
}

/// The opinion that the first step yields.
pub open spec fn final_reply<E, T: WinCls<E>>(
    table: Map<HWND, Entry<E>>,
    hwnd: HWND,
    msg: UINT,
    param: WPARAM,
    para: LPARAM,
) -> Option<T::Work> {
    match final_instance::<E, T>(table, hwnd, msg) {
        Some(inst) => inst.handles(hwnd, msg, param, para),
        None => None,
    }
}

/// Whether neither of the first two steps yields a result, so that the
/// dispatch goes on to look the handle up.
pub open spec fn reaches_lookup<E, T: WinCls<E>>(
    table: Map<HWND, Entry<E>>,
    hwnd: HWND,
    msg: UINT,
    param: WPARAM,
    para: LPARAM,
) -> bool {
    final_reply::<E, T>(table, hwnd, msg, param, para) is None && T::handles_static(
        hwnd,
        msg,
        param,
        para,
    ) is None
}

/// Whether the dispatch runs the binding protocol: it has reached the
/// lookup, the lookup has found no instance, and the message is the
/// creation message.
pub open spec fn runs_protocol<E, T: WinCls<E>>(
    table: Map<HWND, Entry<E>>,
    hwnd: HWND,
    msg: UINT,
    param: WPARAM,
    para: LPARAM,
) -> bool {
    &&& reaches_lookup::<E, T>(table, hwnd, msg, param, para)
    &&& bound_as::<E, T>(final_unbind(table, hwnd, msg), hwnd) is None
    &&& msg == WM_CREATE
}

/// Whether the dispatch binds the creation parameter `create`.
pub open spec fn binds<E, T: WinCls<E>>(
    table: Map<HWND, Entry<E>>,
    hwnd: HWND,
    msg: UINT,
    param: WPARAM,
    para: LPARAM,
    create: Option<T>,
) -> bool {
    runs_protocol::<E, T>(table, hwnd, msg, param, para) && create is Some
}

/// The instance that is asked in the fourth step: the one found by the
/// lookup, or the one just bound.
pub open spec fn target<E, T: WinCls<E>>(
    table: Map<HWND, Entry<E>>,
    hwnd: HWND,
    msg: UINT,
    param: WPARAM,
    para: LPARAM,
    create: Option<T>,
) -> Option<T> {
    if !reaches_lookup::<E, T>(table, hwnd, msg, param, para) {
        None
    } else if runs_protocol::<E, T>(table, hwnd, msg, param, para) {
        create
    } else {
        bound_as::<E, T>(final_unbind(table, hwnd, msg), hwnd)
    }
}

/// The table of bindings after the dispatch.
pub open spec fn table_after<E, T: WinCls<E>>(
    table: Map<HWND, Entry<E>>,
    hwnd: HWND,
    msg: UINT,
    param: WPARAM,
    para: LPARAM,
    create: Option<T>,
) -> Map<HWND, Entry<E>> {
    if binds::<E, T>(table, hwnd, msg, param, para, create) {
        final_unbind(table, hwnd, msg).insert(hwnd, entry_of::<E, T>(create.unwrap()))
    } else {
        final_unbind(table, hwnd, msg)
    }
}

/// The creation parameter after the dispatch: the binding protocol uses it
/// up.
pub open spec fn create_after<E, T: WinCls<E>>(
    table: Map<HWND, Entry<E>>,
    hwnd: HWND,
    msg: UINT,
    param: WPARAM,
    para: LPARAM,
    create: Option<T>,
) -> Option<T> {
    if runs_protocol::<E, T>(table, hwnd, msg, param, para) {
        None
    } else {
        create
    }
}

/// How the dispatch ends.
pub open spec fn reply_of<E, T: WinCls<E>>(
    table: Map<HWND, Entry<E>>,
    hwnd: HWND,
    msg: UINT,
    param: WPARAM,
    para: LPARAM,
    create: Option<T>,
) -> Reply<T::Work> {
    if final_reply::<E, T>(table, hwnd, msg, param, para) is Some {
        Reply::Handled(final_reply::<E, T>(table, hwnd, msg, param, para).unwrap())
    } else if T::handles_static(hwnd, msg, param, para) is Some {
        Reply::Handled(T::handles_static(hwnd, msg, param, para).unwrap())
    } else {
        match target::<E, T>(table, hwnd, msg, param, para, create) {
            Some(inst) => match inst.handles(hwnd, msg, param, para) {
                Some(work) => Reply::Handled(work),
                None => Reply::Default,
            },
            None => Reply::Default,
        }
    }
}

/// The binding protocol: binds the creation parameter, if there is one, to
/// `hwnd`, and uses it up.
pub fn insert_hwnd<E, T: WinCls<E>>(
    table: &mut HwndTable<E>,
    hwnd: HWND,
    create: &mut Option<T>,
) -> (bound: Option<T>)
    ensures
        bound == *old(create),
        *final(create) == None::<T>,
        final(table)@ == (match *old(create) {
            Some(inst) => old(table)@.insert(hwnd, entry_of::<E, T>(inst)),
            None => old(table)@,
        }),
{
    match create.take() {
        Some(inst) => Some(table.bind(hwnd, inst)),
        None => None,
    }
}

/// Whether a dispatch of this message would run the binding protocol. The
/// creation parameter is to be taken out of the message only where it
/// would: the protocol then uses it up, and no other dispatch looks at it.
pub fn wants_create_param<E, T: WinCls<E>>(
    table: &HwndTable<E>,
    hwnd: HWND,
    msg: UINT,
    param: WPARAM,
    para: LPARAM,
) -> (wanted: bool)
    ensures
        wanted == runs_protocol::<E, T>(table@, hwnd, msg, param, para),
{
    if msg != WM_CREATE {
        return false;
    }
    if T::wnd_proc_static(hwnd, msg, param, para).is_some() {
        return false;
    }
    table.lookup::<T>(hwnd).is_none()
}

/// The message trampoline of behaviour `T`: resolves one message for
/// `hwnd` to the handler that takes it, and binds and unbinds on the way.
///
/// `create` is the creation parameter that came with the message: the
/// instance in transit, or nothing.
pub fn wnd_proc_raw<E, T: WinCls<E>>(
    table: &mut HwndTable<E>,
    hwnd: HWND,
    msg: UINT,
    param: WPARAM,
    para: LPARAM,
    create: &mut Option<T>,
) -> (reply: Reply<T::Work>)
    ensures
        final(table)@ == table_after::<E, T>(old(table)@, hwnd, msg, param, para, *old(create)),
        *final(create) == create_after::<E, T>(old(table)@, hwnd, msg, param, para, *old(create)),
        reply == reply_of::<E, T>(old(table)@, hwnd, msg, param, para, *old(create)),
{
    if msg == WM_NCDESTROY {
        if let Some(removed) = table.unbind::<T>(hwnd) {
            if let Some(work) = removed.wnd_proc(hwnd, msg, param, para) {
                return Reply::Handled(work);
            }
        }
    }
    if let Some(work) = T::wnd_proc_static(hwnd, msg, param, para) {
        return Reply::Handled(work);
    }
    let mut target: Option<T> = table.lookup::<T>(hwnd);
    if target.is_none() && msg == WM_CREATE {
        target = insert_hwnd(table, hwnd, create);
    }
    match target {
        Some(inst) => match inst.wnd_proc(hwnd, msg, param, para) {
            Some(work) => Reply::Handled(work),
            None => Reply::Default,
        },
        None => Reply::Default,
    }
}

} // verus!
