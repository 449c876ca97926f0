//! Plain values of the windowing layer: handles, message codes, style bits
//! and the records that travel between this crate and the windowing
//! subsystem.

use vstd::prelude::*;
use vstd::string::*;

verus! {

/// A native window handle, as an integer.
pub type HWND = u64;

/// A message code.
pub type UINT = u32;

/// The first message argument.
pub type WPARAM = u64;

/// The second message argument.
pub type LPARAM = i64;

/// The result of handling a message.
pub type LRESULT = i64;

/// A registered class identifier.
pub type ATOM = u16;

pub const WM_CREATE: UINT = 0x0001;

pub const WM_DESTROY: UINT = 0x0002;

pub const WM_SIZE: UINT = 0x0005;

pub const WM_PAINT: UINT = 0x000F;

pub const WM_QUIT: UINT = 0x0012;

pub const WM_GETMINMAXINFO: UINT = 0x0024;

pub const WM_DRAWITEM: UINT = 0x002B;

pub const WM_NCCREATE: UINT = 0x0081;

pub const WM_NCDESTROY: UINT = 0x0082;

pub const CS_VREDRAW: u32 = 0x0001;

pub const CS_HREDRAW: u32 = 0x0002;

pub const CW_USEDEFAULT: i32 = -0x8000_0000;

pub const SWP_NOZORDER: UINT = 0x0004;

pub const SWP_NOACTIVATE: UINT = 0x0010;

pub const WS_CHILD: u32 = 0x4000_0000;

pub const WS_VISIBLE: u32 = 0x1000_0000;

pub const WS_BORDER: u32 = 0x0080_0000;

pub const WS_TILEDWINDOW: u32 = 0x00CF_0000;

pub const WS_EX_CLIENTEDGE: u32 = 0x0000_0200;

pub const COLOR_WINDOW: i32 = 5;

pub const TRANSPARENT: i32 = 1;

/// The value that the windowing subsystem returns in place of a standard
/// handle that could not be had.
pub const INVALID_HANDLE_VALUE: u64 = 0xFFFF_FFFF_FFFF_FFFF;

/// A rectangle in client coordinates.
#[derive(Clone, Copy, Debug, PartialEq, Eq, Structural)]
pub struct Rect {
    pub left: i32,
    pub top: i32,
    pub right: i32,
    pub bottom: i32,
}

/// Whether width and height of `rect` fit the coordinate type. A side
/// may be negative.
pub open spec fn extent_fits(rect: Rect) -> bool {
    &&& i32::MIN <= rect.right - rect.left <= i32::MAX
    &&& i32::MIN <= rect.bottom - rect.top <= i32::MAX
}

impl Rect {
    /// Whether width and height of the rectangle fit the coordinate type.
    pub fn extent_fits(&self) -> (b: bool)
        ensures
            b == extent_fits(*self),
    {
        let width: i64 = self.right as i64 - self.left as i64;
        let height: i64 = self.bottom as i64 - self.top as i64;
        -0x8000_0000 <= width && width <= 0x7FFF_FFFF && -0x8000_0000 <= height && height
            <= 0x7FFF_FFFF
    }
}

/// Names a resource by number or by a zero-terminated wide string.
#[derive(Clone, Debug, PartialEq, Eq)]
pub enum ResourceIdW {
    Int(u16),
    Str(Vec<u16>),
}

/// The stock application icon.
pub const RC_IDI_APPLICATION: u16 = 32512;

/// The stock arrow cursor.
pub const RC_IDC_ARROW: u16 = 32512;

/// Names a window class by its registered identifier or by its name.
#[derive(Clone, Debug, PartialEq, Eq)]
pub enum WinClsIdW {
    Atom(ATOM),
    ClsName(Vec<u16>),
}

/// The UTF-16 code units of one character.
pub open spec fn wide_char(c: char) -> Seq<u16> {
    let v = c as u32;
    if v < 0x1_0000 {
        seq![v as u16]
    } else {
        seq![(0xD800 + (v - 0x1_0000) / 0x400) as u16, (0xDC00 + (v - 0x1_0000) % 0x400) as u16]
    }
}

/// The UTF-16 code units of a string, character by character.
pub open spec fn wide(s: Seq<char>) -> Seq<u16>
    decreases s.len(),
{
    if s.len() == 0 {
        Seq::empty()
    } else {
        wide(s.drop_last()) + wide_char(s.last())
    }
}

/// A wide string with its terminator: a zero unit is appended unless the
/// last unit already is zero.
pub open spec fn terminated(w: Seq<u16>) -> Seq<u16> {
    if w.len() > 0 && w.last() == 0 {
        w
    } else {
        w.push(0)
    }
}

/// Encodes `s` as a zero-terminated wide string.
pub fn wstr(s: &str) -> (rv: Vec<u16>)
    ensures
        rv@ == terminated(wide(s@)),
{
    let n: usize = s.unicode_len();
    let mut rv: Vec<u16> = Vec::new();
    let mut i: usize = 0;
    while i < n
        invariant
            i <= n,
            n == s@.len(),
            rv@ == wide(s@.take(i as int)),
        decreases n - i,
    {
        let c: char = s.get_char(i);
        let v: u32 = c as u32;
        proof {
            assert(s@.take(i + 1).drop_last() == s@.take(i as int));
            assert(s@.take(i + 1).last() == c);
        }
        if v < 0x1_0000 {
            rv.push(v as u16);
        } else {
            let off: u32 = v - 0x1_0000;
            rv.push((0xD800 + off / 0x400) as u16);
            rv.push((0xDC00 + off % 0x400) as u16);
        }
        i += 1;
    }
    proof {
        assert(s@.take(n as int) == s@);
    }
    let len: usize = rv.len();
    if len == 0 || rv[len - 1] != 0 {
        rv.push(0);
    }
    rv
}

/// What a call into the windowing subsystem came to: `value` where the
/// raw result is not zero, else the error code of the thread, which is
/// consulted in that case alone.
pub fn checked<T>(result: i64, value: T, last_error: u32) -> (r: Result<T, u32>)
    ensures
        r == (if result != 0 {
            Ok::<T, u32>(value)
        } else {
            Err::<T, u32>(last_error)
        }),
{
    if result != 0 {
        Ok(value)
    } else {
        Err(last_error)
    }
}

/// What a query for a standard handle came to: zero says that the process
/// has no such handle, the invalid handle value that the query failed.
pub fn std_handle(raw: u64, last_error: u32) -> (r: Result<Option<u64>, u32>)
    ensures
        r == (if raw == 0 {
            Ok::<Option<u64>, u32>(None)
        } else if raw != INVALID_HANDLE_VALUE {
            Ok::<Option<u64>, u32>(Some(raw))
        } else {
            Err::<Option<u64>, u32>(last_error)
        }),
{
    if raw == 0 {
        Ok(None)
    } else if raw != INVALID_HANDLE_VALUE {
        Ok(Some(raw))
    } else {
        Err(last_error)
    }
}

/// A message as the windowing subsystem queues it.
#[derive(Clone, Copy, Debug, PartialEq, Eq, Structural)]
pub struct Msg {
    pub hwnd: HWND,
    pub message: UINT,
    pub wparam: WPARAM,
    pub lparam: LPARAM,
    pub time: u32,
    pub pt_x: i32,
    pub pt_y: i32,
}

/// What one retrieval from the message queue hands to the loop: nothing
/// where the raw result is zero, the error where it is minus one, else the
/// message.
pub open spec fn retrieved(result: i32, msg: Msg, last_error: u32) -> Option<Result<Msg, u32>> {
    if result == 0 {
        None
    } else if result == -1 {
        Some(Err(last_error))
    } else {
        Some(Ok(msg))
    }
}

/// A message loop that waits for each message.
#[derive(Clone, Copy, Debug, PartialEq, Eq, Structural)]
pub struct BlockingMsgLoop {
    pub hwnd: Option<HWND>,
}

/// A message loop that takes what is queued and does not wait.
#[derive(Clone, Copy, Debug, PartialEq, Eq, Structural)]
pub struct PeekingMsgLoop {
    pub hwnd: Option<HWND>,
}

impl BlockingMsgLoop {
    /// The window whose messages are retrieved; zero stands for all
    /// windows of the thread.
    pub fn filter(&self) -> (hwnd: HWND)
        ensures
            hwnd == (match self.hwnd {
                Some(h) => h,
                None => 0,
            }),
    {
        match self.hwnd {
            Some(h) => h,
            None => 0,
        }
    }

    /// The next item of the loop, from the raw result of the retrieval.
    /// The loop ends with the quit message, for which the result is zero.
    pub fn next(&mut self, result: i32, msg: Msg, last_error: u32) -> (item: Option<
        Result<Msg, u32>,
    >)
        ensures
            item == retrieved(result, msg, last_error),
            *final(self) == *old(self),
    {
        if result == 0 {
            None
        } else if result == -1 {
            Some(Err(last_error))
        } else {
            Some(Ok(msg))
        }
    }
}

impl PeekingMsgLoop {
    /// The window whose messages are retrieved; zero stands for all
    /// windows of the thread.
    pub fn filter(&self) -> (hwnd: HWND)
        ensures
            hwnd == (match self.hwnd {
                Some(h) => h,
                None => 0,
            }),
    {
        match self.hwnd {
            Some(h) => h,
            None => 0,
        }
    }

    /// The next item of the loop, from the raw result of the retrieval.
    /// The loop ends where the queue is empty, for which the result is
    /// zero.
    pub fn next(&mut self, result: i32, msg: Msg, last_error: u32) -> (item: Option<
        Result<Msg, u32>,
    >)
        ensures
            item == retrieved(result, msg, last_error),
            *final(self) == *old(self),
    {
        if result == 0 {
            None
        } else if result == -1 {
            Some(Err(last_error))
        } else {
            Some(Ok(msg))
        }
    }
}

/// A loop that waits for the messages of `hwnd`, or of all windows of the
/// thread.
pub fn blocking_msg_loop(hwnd: Option<HWND>) -> (l: BlockingMsgLoop)
    ensures
        l.hwnd == hwnd,
{
    BlockingMsgLoop { hwnd }
}

/// A loop that takes the queued messages of `hwnd`, or of all windows of
/// the thread.
pub fn peeking_msg_loop(hwnd: Option<HWND>) -> (l: PeekingMsgLoop)
    ensures
        l.hwnd == hwnd,
{
    PeekingMsgLoop { hwnd }
}

} // verus!
