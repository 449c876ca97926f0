//! The two behaviours of the shell: the main window, which lays two file
//! panels out side by side, and the file panel.

use vstd::prelude::*;
use crate::win_layer::{
    HWND, UINT, WPARAM, LPARAM, LRESULT, Rect, extent_fits, wstr, wide, terminated, WM_SIZE, WM_PAINT,
    WM_DRAWITEM, WM_DESTROY, WM_GETMINMAXINFO, CS_HREDRAW, CS_VREDRAW, CW_USEDEFAULT,
    SWP_NOACTIVATE, SWP_NOZORDER, WS_CHILD, WS_VISIBLE, WS_BORDER, WS_TILEDWINDOW,
    WS_EX_CLIENTEDGE, COLOR_WINDOW, TRANSPARENT, RC_IDI_APPLICATION, RC_IDC_ARROW,
};
use crate::win_cls::{WinCls, WndClass, WndClassView};

verus! {

/// Class key of the main window.
pub const MAIN_CLS: u64 = 1;

/// Class key of the file panel.
pub const FILE_PANEL_CLS: u64 = 2;

/// The arguments of a window creation, but for the class identifier and
/// the creation parameter.
#[derive(Clone, Debug, PartialEq, Eq)]
pub struct CreateWindow {
    pub ex_style: u32,
    /// Zero-terminated window title.
    pub window_name: Vec<u16>,
    pub style: u32,
    pub x: i32,
    pub y: i32,
    pub width: i32,
    pub height: i32,
    pub wnd_parent: Option<HWND>,
    pub menu: Option<u64>,
    /// Handle of the module that creates the window.
    pub instance: u64,
}

/// The arguments of a window creation with the title as a sequence.
pub struct CreateWindowView {
    pub ex_style: u32,
    pub window_name: Seq<u16>,
    pub style: u32,
    pub x: i32,
    pub y: i32,
    pub width: i32,
    pub height: i32,
    pub wnd_parent: Option<HWND>,
    pub menu: Option<u64>,
    pub instance: u64,
}

impl View for CreateWindow {
    type V = CreateWindowView;

    open spec fn view(&self) -> CreateWindowView {
        CreateWindowView {
            ex_style: self.ex_style,
            window_name: self.window_name@,
            style: self.style,
            x: self.x,
            y: self.y,
            width: self.width,
            height: self.height,
            wnd_parent: self.wnd_parent,
            menu: self.menu,
            instance: self.instance,
        }
    }
}

/// Where one window goes in a batched repositioning.
#[derive(Clone, Copy, Debug, PartialEq, Eq, Structural)]
pub struct Placement {
    pub hwnd: HWND,
    pub x: i32,
    pub y: i32,
    pub cx: i32,
    pub cy: i32,
}

/// One batched repositioning of the two panels, and the repaint that
/// follows it.
#[derive(Clone, Copy, Debug, PartialEq, Eq, Structural)]
pub struct PanelLayout {
    /// Number of windows that the batch is opened for.
    pub count: i32,
    pub first: Placement,
    pub second: Placement,
    /// Positioning flags of both placements.
    pub flags: UINT,
    /// The rectangle to invalidate once the batch has ended.
    pub invalidate: Rect,
    /// Whether the background is erased on repaint.
    pub erase: bool,
}

/// What the main window asks for when it takes a message.
#[derive(Clone, Copy, Debug, PartialEq, Eq, Structural)]
pub enum MainWork {
    /// Write this minimum tracking size into the size query.
    MinTrackSize { x: i32, y: i32 },
    /// Lay these two panels out over the client area.
    Layout { panel1: HWND, panel2: HWND },
    /// Paint the client area with this brush.
    Fill { brush: i32 },
    /// Paint the client area of the item to draw with this brush.
    DrawItem { brush: i32 },
    /// Post the quit message with this exit code.
    Quit { exit_code: i32 },
}

/// What a file panel asks for when it takes a message.
#[derive(Clone, Copy, Debug, PartialEq, Eq, Structural)]
pub enum PanelWork {
    /// Paint the placeholder content.
    Paint,
}

/// How a file panel paints itself.
#[derive(Clone, Debug, PartialEq, Eq)]
pub struct PanelPaint {
    /// Brush of the background.
    pub brush: i32,
    /// Background mode of the text.
    pub bk_mode: i32,
    pub text_x: i32,
    pub text_y: i32,
    /// The text, all units of it drawn.
    pub text: Vec<u16>,
    /// The rectangle that gets the focus frame.
    pub focus: Rect,
}

/// The main window: it knows its two panels.
#[derive(Clone, Copy, Debug, PartialEq, Eq, Structural)]
pub struct MainCls {
    pub panel1: HWND,
    pub panel2: HWND,
}

/// A file panel.
#[derive(Clone, Copy, Debug, PartialEq, Eq, Structural)]
pub struct FilePanelCls {}

/// The type-erased form of the shell's instances.
#[derive(Clone, Copy, Debug, PartialEq, Eq, Structural)]
pub enum AnyWindow {
    Main(MainCls),
    FilePanel(FilePanelCls),
}

/// The result for the windowing subsystem of work that ended in
/// `outcome`: `done` on success, the error code on failure.
pub open spec fn result_of(outcome: Result<(), u32>, done: LRESULT) -> LRESULT {
    match outcome {
        Ok(_) => done,
        Err(code) => code as LRESULT,
    }
}

/// Half of `n`, rounded towards zero.
pub open spec fn half(n: int) -> int {
    if n >= 0 {
        n / 2
    } else {
        -((-n) / 2)
    }
}

/// The layout of two panels over a client area: each panel is two units
/// narrower than half the width and as high as the area, the first at
/// the left edge, the second flush with the right edge.
pub open spec fn layout_of(panel1: HWND, panel2: HWND, rect: Rect) -> PanelLayout {
    let width = rect.right - rect.left;
    let height = rect.bottom - rect.top;
    let panel_width = half(width) - 2;
    PanelLayout {
        count: 2,
        first: Placement { hwnd: panel1, x: 0, y: 0, cx: panel_width as i32, cy: height as i32 },
        second: Placement {
            hwnd: panel2,
            x: (width - panel_width) as i32,
            y: 0,
            cx: panel_width as i32,
            cy: height as i32,
        },
        flags: SWP_NOACTIVATE | SWP_NOZORDER,
        invalidate: rect,
        erase: true,
    }
}

impl MainWork {
    /// The result for the windowing subsystem once the work has ended in
    /// `outcome`.
    pub fn reply(&self, outcome: Result<(), u32>) -> (rv: LRESULT)
        requires
            self is DrawItem ==> outcome is Ok,
        ensures
            rv == (match *self {
                MainWork::MinTrackSize { .. } => 0,
                MainWork::Layout { .. } => result_of(outcome, 0),
                MainWork::Fill { .. } => result_of(outcome, 1),
                MainWork::DrawItem { .. } => 1,
                MainWork::Quit { .. } => 0,
            }),
    {
        match self {
            MainWork::MinTrackSize { .. } => 0,
            MainWork::Layout { .. } => match outcome {
                Ok(_) => 0,
                Err(code) => code as LRESULT,
            },
            MainWork::Fill { .. } => match outcome {
                Ok(_) => 1,
                Err(code) => code as LRESULT,
            },
            MainWork::DrawItem { .. } => 1,
            MainWork::Quit { .. } => 0,
        }
    }
}

impl PanelWork {
    /// The result for the windowing subsystem once the work has ended in
    /// `outcome`.
    pub fn reply(&self, outcome: Result<(), u32>) -> (rv: LRESULT)
        ensures
            rv == result_of(outcome, 1),
    {
        match outcome {
            Ok(_) => 1,
            Err(code) => code as LRESULT,
        }
    }
}

impl MainCls {
    /// A main window that has no panels yet.
    pub fn new() -> (inst: Self)
        ensures
            inst == (MainCls { panel1: 0, panel2: 0 }),
    {
        MainCls { panel1: 0, panel2: 0 }
    }

    /// The same window with its two panels.
    pub fn with_panels(&self, panel1: HWND, panel2: HWND) -> (inst: Self)
        ensures
            inst == (MainCls { panel1, panel2 }),
    {
        MainCls { panel1, panel2 }
    }

    /// The creation of the main window: a tiled window with a client edge,
    /// 1024 by 768, placed by the windowing subsystem.
    pub fn create(instance: u64) -> (request: CreateWindow)
        ensures
            request@ == (CreateWindowView {
                ex_style: WS_EX_CLIENTEDGE,
                window_name: terminated(wide("Trusty Commander"@)),
                style: WS_TILEDWINDOW,
                x: CW_USEDEFAULT,
                y: CW_USEDEFAULT,
                width: 1024,
                height: 768,
                wnd_parent: None,
                menu: None,
                instance,
            }),
    {
        CreateWindow {
            ex_style: WS_EX_CLIENTEDGE,
            window_name: wstr("Trusty Commander"),
            style: WS_TILEDWINDOW,
            x: CW_USEDEFAULT,
            y: CW_USEDEFAULT,
            width: 1024,
            height: 768,
            wnd_parent: None,
            menu: None,
            instance,
        }
    }

    /// The layout of the two panels over the client area `rect`.
    pub fn layout(&self, rect: Rect) -> (plan: PanelLayout)
        requires
            extent_fits(rect),
        ensures
            plan == layout_of(self.panel1, self.panel2, rect),
    {
        let width: i32 = rect.right - rect.left;
        let height: i32 = rect.bottom - rect.top;
        let panel_width: i32 = width / 2 - 2;
        let panel2x: i32 = width - panel_width;
        let flags: UINT = SWP_NOACTIVATE | SWP_NOZORDER;
        PanelLayout {
            count: 2,
            first: Placement { hwnd: self.panel1, x: 0, y: 0, cx: panel_width, cy: height },
            second: Placement { hwnd: self.panel2, x: panel2x, y: 0, cx: panel_width, cy: height },
            flags,
            invalidate: rect,
            erase: true,
        }
    }
}

impl WinCls<AnyWindow> for MainCls {
    type Work = MainWork;

    open spec fn class_spec() -> u64 {
        MAIN_CLS
    }

    open spec fn erased(&self) -> AnyWindow {
        AnyWindow::Main(*self)
    }

    open spec fn restored(e: &AnyWindow) -> Option<Self> {
        match *e {
            AnyWindow::Main(inst) => Some(inst),
            _ => None,
        }
    }

    open spec fn handles(&self, hwnd: HWND, msg: UINT, param: WPARAM, para: LPARAM) -> Option<
        MainWork,
    > {
        if msg == WM_SIZE {
            Some(MainWork::Layout { panel1: self.panel1, panel2: self.panel2 })
        } else if msg == WM_PAINT {
            Some(MainWork::Fill { brush: (COLOR_WINDOW + 2) as i32 })
        } else if msg == WM_DRAWITEM {
            Some(MainWork::DrawItem { brush: COLOR_WINDOW })
        } else if msg == WM_DESTROY {
            Some(MainWork::Quit { exit_code: 0 })
        } else {
            None
        }
    }

    open spec fn handles_static(hwnd: HWND, msg: UINT, param: WPARAM, para: LPARAM) -> Option<
        MainWork,
    > {
        if msg == WM_GETMINMAXINFO {
            Some(MainWork::MinTrackSize { x: 400, y: 200 })
        } else {
            None
        }
    }

    open spec fn class_desc() -> Option<WndClassView> {
        Some(
            WndClassView {
                style: CS_HREDRAW | CS_VREDRAW,
                cls_extra: 0,
                wnd_extra: 0,
                icon: RC_IDI_APPLICATION,
                cursor: RC_IDC_ARROW,
                background: (COLOR_WINDOW + 1) as i32,
                class_name: terminated(wide("MainCls"@)),
                icon_sm: RC_IDI_APPLICATION,
            },
        )
    }

    proof fn lemma_round_trip(&self) {
    }

    fn class_key() -> (k: u64) {
        MAIN_CLS
    }

    fn erase(&self) -> (e: AnyWindow) {
        AnyWindow::Main(*self)
    }

    fn restore(e: &AnyWindow) -> (r: Option<Self>) {
        match e {
            AnyWindow::Main(inst) => Some(*inst),
            _ => None,
        }
    }

    fn wnd_proc(&self, hwnd: HWND, msg: UINT, param: WPARAM, para: LPARAM) -> (r: Option<
        MainWork,
    >) {
        if msg == WM_SIZE {
            Some(MainWork::Layout { panel1: self.panel1, panel2: self.panel2 })
        } else if msg == WM_PAINT {
            Some(MainWork::Fill { brush: COLOR_WINDOW + 2 })
        } else if msg == WM_DRAWITEM {
            Some(MainWork::DrawItem { brush: COLOR_WINDOW })
        } else if msg == WM_DESTROY {
            Some(MainWork::Quit { exit_code: 0 })
        } else {
            None
        }
    }

    fn wnd_proc_static(hwnd: HWND, msg: UINT, param: WPARAM, para: LPARAM) -> (r: Option<
        MainWork,
    >) {
        if msg == WM_GETMINMAXINFO {
            Some(MainWork::MinTrackSize { x: 400, y: 200 })
        } else {
            None
        }
    }

    fn register() -> (r: Option<WndClass>) {
        Some(
            WndClass {
                style: CS_HREDRAW | CS_VREDRAW,
                cls_extra: 0,
                wnd_extra: 0,
                icon: RC_IDI_APPLICATION,
                cursor: RC_IDC_ARROW,
                background: COLOR_WINDOW + 1,
                class_name: wstr("MainCls"),
                icon_sm: RC_IDI_APPLICATION,
            },
        )
    }
}

impl FilePanelCls {
    /// A file panel.
    pub fn new() -> (inst: Self)
        ensures
            inst == (FilePanelCls {  }),
    {
        FilePanelCls {  }
    }

    /// The creation of a file panel: a visible bordered child of `parent`,
    /// 100 by 100 at (10, 10).
    pub fn create(instance: u64, parent: HWND) -> (request: CreateWindow)
        ensures
            request@ == (CreateWindowView {
                ex_style: 0,
                window_name: terminated(wide("boop"@)),
                style: WS_VISIBLE | WS_CHILD | WS_BORDER,
                x: 10,
                y: 10,
                width: 100,
                height: 100,
                wnd_parent: Some(parent),
                menu: None,
                instance,
            }),
    {
        CreateWindow {
            ex_style: 0,
            window_name: wstr("boop"),
            style: WS_VISIBLE | WS_CHILD | WS_BORDER,
            x: 10,
            y: 10,
            width: 100,
            height: 100,
            wnd_parent: Some(parent),
            menu: None,
            instance,
        }
    }

    /// How the panel paints itself: window-coloured background, the
    /// placeholder text at the origin, and a focus frame 200 by 20.
    pub fn paint(&self) -> (plan: PanelPaint)
        ensures
            plan.brush == COLOR_WINDOW,
            plan.bk_mode == TRANSPARENT,
            plan.text_x == 0,
            plan.text_y == 0,
            plan.text@ == terminated(wide("test"@)),
            plan.focus == (Rect { left: 0, top: 0, right: 200, bottom: 20 }),
    {
        PanelPaint {
            brush: COLOR_WINDOW,
            bk_mode: TRANSPARENT,
            text_x: 0,
            text_y: 0,
            text: wstr("test"),
            focus: Rect { left: 0, top: 0, right: 200, bottom: 20 },
        }
    }
}

impl WinCls<AnyWindow> for FilePanelCls {
    type Work = PanelWork;

    open spec fn class_spec() -> u64 {
        FILE_PANEL_CLS
    }

    open spec fn erased(&self) -> AnyWindow {
        AnyWindow::FilePanel(*self)
    }

    open spec fn restored(e: &AnyWindow) -> Option<Self> {
        match *e {
            AnyWindow::FilePanel(inst) => Some(inst),
            _ => None,
        }
    }

    open spec fn handles(&self, hwnd: HWND, msg: UINT, param: WPARAM, para: LPARAM) -> Option<
        PanelWork,
    > {
        if msg == WM_PAINT {
            Some(PanelWork::Paint)
        } else {
            None
        }
    }

    open spec fn handles_static(hwnd: HWND, msg: UINT, param: WPARAM, para: LPARAM) -> Option<
        PanelWork,
    > {
        None
    }

    open spec fn class_desc() -> Option<WndClassView> {
        Some(
            WndClassView {
                style: CS_HREDRAW | CS_VREDRAW,
                cls_extra: 0,
                wnd_extra: 0,
                icon: RC_IDI_APPLICATION,
                cursor: RC_IDC_ARROW,
                background: (COLOR_WINDOW + 1) as i32,
                class_name: terminated(wide("FilePanelCls"@)),
                icon_sm: RC_IDI_APPLICATION,
            },
        )
    }

    proof fn lemma_round_trip(&self) {
    }

    fn class_key() -> (k: u64) {
        FILE_PANEL_CLS
    }

    fn erase(&self) -> (e: AnyWindow) {
        AnyWindow::FilePanel(*self)
    }

    fn restore(e: &AnyWindow) -> (r: Option<Self>) {
        match e {
            AnyWindow::FilePanel(inst) => Some(*inst),
            _ => None,
        }
    }

    fn wnd_proc(&self, hwnd: HWND, msg: UINT, param: WPARAM, para: LPARAM) -> (r: Option<
        PanelWork,
    >) {
        if msg == WM_PAINT {
            Some(PanelWork::Paint)
        } else {
            None
        }
    }

    fn wnd_proc_static(hwnd: HWND, msg: UINT, param: WPARAM, para: LPARAM) -> (r: Option<
        PanelWork,
    >) {
        None
    }

    fn register() -> (r: Option<WndClass>) {
        Some(
            WndClass {
                style: CS_HREDRAW | CS_VREDRAW,
                cls_extra: 0,
                wnd_extra: 0,
                icon: RC_IDI_APPLICATION,
                cursor: RC_IDC_ARROW,
                background: COLOR_WINDOW + 1,
                class_name: wstr("FilePanelCls"),
                icon_sm: RC_IDI_APPLICATION,
            },
        )
    }
}

} // verus!
