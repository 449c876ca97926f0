//! The behaviour contract: what a window class has to provide so that its
//! instances can be bound to handles and be reached by messages.

use vstd::prelude::*;
use crate::win_layer::{HWND, UINT, WPARAM, LPARAM, WinClsIdW};

verus! {

/// The class descriptor that a behaviour asks the windowing subsystem to
/// register.
#[derive(Clone, Debug, PartialEq, Eq)]
pub struct WndClass {
    /// Class style bits.
    pub style: u32,
    /// Extra bytes behind the class structure.
    pub cls_extra: i32,
    /// Extra bytes behind each window.
    pub wnd_extra: i32,
    /// Number of the stock icon.
    pub icon: u16,
    /// Number of the stock cursor.
    pub cursor: u16,
    /// Background brush, as a system colour index plus one.
    pub background: i32,
    /// Zero-terminated class name.
    pub class_name: Vec<u16>,
    /// Number of the stock small icon.
    pub icon_sm: u16,
}

/// A class descriptor with its name as a sequence.
pub struct WndClassView {
    pub style: u32,
    pub cls_extra: i32,
    pub wnd_extra: i32,
    pub icon: u16,
    pub cursor: u16,
    pub background: i32,
    pub class_name: Seq<u16>,
    pub icon_sm: u16,
}

impl View for WndClass {
    type V = WndClassView;

    open spec fn view(&self) -> WndClassView {
        WndClassView {
            style: self.style,
            cls_extra: self.cls_extra,
            wnd_extra: self.wnd_extra,
            icon: self.icon,
            cursor: self.cursor,
            background: self.background,
            class_name: self.class_name@,
            icon_sm: self.icon_sm,
        }
    }
}

/// What is to be done to have the class identifier of a behaviour.
#[derive(Clone, Debug, PartialEq, Eq)]
pub enum ClassStep {
    /// The identifier is at hand.
    Ready(WinClsIdW),
    /// The class has to be registered with this descriptor, and the outcome
    /// be reported.
    Register(WndClass),
    /// The behaviour has no class to register: the creation fails with
    /// this code.
    Failed(u32),
}

/// A window behaviour. `E` is the type-erased form in which the instances
/// of all behaviours of one program are stored side by side.
///
/// Both handlers are decisions: they say whether the behaviour has an
/// opinion on a message and, if so, what is to be done about it
/// (`Self::Work`). Carrying the work out is the caller's part.
pub trait WinCls<E>: Sized {
    /// What a handler asks for when it takes a message.
    type Work;

    /// The key that tells this behaviour from every other.
    spec fn class_spec() -> u64;

    /// The type-erased form of an instance.
    spec fn erased(&self) -> E;

    /// The instance that a type-erased value holds, if it is one of this
    /// behaviour.
    spec fn restored(e: &E) -> Option<Self>;

    /// The opinion of the instance handler.
    spec fn handles(&self, hwnd: HWND, msg: UINT, param: WPARAM, para: LPARAM) -> Option<
        Self::Work,
    >;

    /// The opinion of the class-wide handler.
    spec fn handles_static(hwnd: HWND, msg: UINT, param: WPARAM, para: LPARAM) -> Option<
        Self::Work,
    >;

    /// The class descriptor, if the behaviour registers a class of its own.
    spec fn class_desc() -> Option<WndClassView>;

    /// Erasing an instance and restoring it gives the instance back.
    proof fn lemma_round_trip(&self)
        ensures
            Self::restored(&self.erased()) == Some(*self),
    ;

    fn class_key() -> (k: u64)
        ensures
            k == Self::class_spec(),
    ;

    fn erase(&self) -> (e: E)
        ensures
            e == self.erased(),
    ;

    fn restore(e: &E) -> (r: Option<Self>)
        ensures
            r == Self::restored(e),
    ;

    /// Instance message handler: `None` is "no opinion".
    fn wnd_proc(&self, hwnd: HWND, msg: UINT, param: WPARAM, para: LPARAM) -> (r: Option<
        Self::Work,
    >)
        ensures
            r == self.handles(hwnd, msg, param, para),
    ;

    /// Class-wide message handler: `None` is "no opinion".
    fn wnd_proc_static(hwnd: HWND, msg: UINT, param: WPARAM, para: LPARAM) -> (r: Option<
        Self::Work,
    >)
        ensures
            r == Self::handles_static(hwnd, msg, param, para),
    ;

    /// The class descriptor to register; `None` where the behaviour has no
    /// class of its own.
    fn register() -> (r: Option<WndClass>)
        ensures
            r is Some == Self::class_desc() is Some,
            r is Some ==> r.unwrap()@ == Self::class_desc().unwrap(),
    ;
}

} // verus!
