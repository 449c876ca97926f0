use wincls::dispatch::{insert_hwnd, wants_create_param, wnd_proc_raw, Reply};
use wincls::hwnd_table::HwndTable;
use wincls::win_gdi::{AnyWindow, FilePanelCls, MainCls, MainWork, PanelLayout, PanelWork, Placement};
use wincls::win_layer::{
    Rect, HWND, WM_CREATE, WM_DESTROY, WM_DRAWITEM, WM_GETMINMAXINFO, WM_NCCREATE, WM_NCDESTROY,
    WM_PAINT, WM_SIZE,
};
use wincls::win_cls::WinCls;

type Table = HwndTable<AnyWindow>;

fn to_shell(table: &mut Table, hwnd: HWND, msg: u32, create: &mut Option<MainCls>) -> Reply<MainWork> {
    wnd_proc_raw::<AnyWindow, MainCls>(table, hwnd, msg, 0, 0, create)
}

fn to_panel(
    table: &mut Table,
    hwnd: HWND,
    msg: u32,
    create: &mut Option<FilePanelCls>,
) -> Reply<PanelWork> {
    wnd_proc_raw::<AnyWindow, FilePanelCls>(table, hwnd, msg, 0, 0, create)
}

#[test]
fn binding_protocol_binds_and_uses_the_parameter_up() {
    let mut table = Table::new();
    let mut create = Some(MainCls { panel1: 1, panel2: 2 });
    assert_eq!(insert_hwnd(&mut table, 0x10, &mut create), Some(MainCls { panel1: 1, panel2: 2 }));
    assert_eq!(create, None);
    assert_eq!(table.len(), 1);
    assert_eq!(table.lookup::<MainCls>(0x10), Some(MainCls { panel1: 1, panel2: 2 }));
}

#[test]
fn binding_protocol_rejects_a_missing_parameter() {
    let mut table = Table::new();
    let mut create: Option<FilePanelCls> = None;
    assert_eq!(insert_hwnd(&mut table, 0x10, &mut create), None);
    assert_eq!(create, None);
    assert_eq!(table.len(), 0);
}

#[test]
fn created_message_binds_the_instance() {
    let mut table = Table::new();
    let mut create = Some(FilePanelCls::new());
    assert_eq!(to_panel(&mut table, 0x20, WM_CREATE, &mut create), Reply::Default);
    assert_eq!(create, None);
    assert_eq!(table.len(), 1);
    assert_eq!(table.lookup::<FilePanelCls>(0x20), Some(FilePanelCls {}));
}

#[test]
fn created_message_without_parameter_binds_nothing() {
    let mut table = Table::new();
    let mut create: Option<FilePanelCls> = None;
    assert_eq!(to_panel(&mut table, 0x20, WM_CREATE, &mut create), Reply::Default);
    assert_eq!(table.len(), 0);
}

#[test]
fn other_messages_leave_the_parameter_alone() {
    let mut table = Table::new();
    let mut create = Some(FilePanelCls::new());
    for msg in [WM_NCCREATE, WM_SIZE, WM_PAINT, WM_DESTROY, WM_NCDESTROY, WM_GETMINMAXINFO] {
        assert_eq!(to_panel(&mut table, 0x20, msg, &mut create), Reply::Default);
        assert_eq!(create, Some(FilePanelCls {}));
        assert_eq!(table.len(), 0);
    }
}

#[test]
fn messages_before_the_binding_go_to_default_handling() {
    let mut table = Table::new();
    let mut create = Some(MainCls::new());
    assert_eq!(to_shell(&mut table, 0x30, WM_NCCREATE, &mut create), Reply::Default);
    assert_eq!(to_shell(&mut table, 0x30, WM_SIZE, &mut create), Reply::Default);
    assert_eq!(to_shell(&mut table, 0x30, WM_PAINT, &mut create), Reply::Default);
    assert_eq!(to_shell(&mut table, 0x30, WM_DESTROY, &mut create), Reply::Default);
    assert_eq!(table.len(), 0);
    assert_eq!(to_shell(&mut table, 0x30, WM_CREATE, &mut create), Reply::Default);
    assert_eq!(
        to_shell(&mut table, 0x30, WM_SIZE, &mut create),
        Reply::Handled(MainWork::Layout { panel1: 0, panel2: 0 })
    );
}

#[test]
fn class_wide_handler_needs_no_binding() {
    let mut table = Table::new();
    let mut create = Some(MainCls::new());
    assert_eq!(
        to_shell(&mut table, 0x30, WM_GETMINMAXINFO, &mut create),
        Reply::Handled(MainWork::MinTrackSize { x: 400, y: 200 })
    );
    assert_eq!(table.len(), 0);
    assert_eq!(create, Some(MainCls::new()));
}

#[test]
fn class_wide_handler_comes_before_the_instance() {
    let mut table = Table::new();
    table.bind(0x30, MainCls { panel1: 1, panel2: 2 });
    assert_eq!(
        to_shell(&mut table, 0x30, WM_GETMINMAXINFO, &mut None),
        Reply::Handled(MainWork::MinTrackSize { x: 400, y: 200 })
    );
    assert_eq!(table.len(), 1);
}

#[test]
fn bound_instance_takes_its_messages() {
    let mut table = Table::new();
    table.bind(0x30, MainCls { panel1: 1, panel2: 2 });
    table.bind(0x31, FilePanelCls::new());
    assert_eq!(
        to_shell(&mut table, 0x30, WM_SIZE, &mut None),
        Reply::Handled(MainWork::Layout { panel1: 1, panel2: 2 })
    );
    assert_eq!(to_shell(&mut table, 0x30, WM_PAINT, &mut None), Reply::Handled(MainWork::Fill { brush: 7 }));
    assert_eq!(
        to_shell(&mut table, 0x30, WM_DRAWITEM, &mut None),
        Reply::Handled(MainWork::DrawItem { brush: 5 })
    );
    assert_eq!(
        to_shell(&mut table, 0x30, WM_DESTROY, &mut None),
        Reply::Handled(MainWork::Quit { exit_code: 0 })
    );
    assert_eq!(to_shell(&mut table, 0x30, 0x400, &mut None), Reply::Default);
    assert_eq!(to_panel(&mut table, 0x31, WM_PAINT, &mut None), Reply::Handled(PanelWork::Paint));
    assert_eq!(to_panel(&mut table, 0x31, WM_SIZE, &mut None), Reply::Default);
    assert_eq!(table.len(), 2);
}

#[test]
fn final_message_unbinds() {
    let mut table = Table::new();
    table.bind(0x30, MainCls { panel1: 1, panel2: 2 });
    table.bind(0x31, FilePanelCls::new());
    assert_eq!(to_shell(&mut table, 0x30, WM_NCDESTROY, &mut None), Reply::Default);
    assert!(!table.contains(0x30));
    assert_eq!(table.len(), 1);
    assert_eq!(to_shell(&mut table, 0x30, WM_SIZE, &mut None), Reply::Default);
    assert_eq!(to_shell(&mut table, 0x30, WM_DESTROY, &mut None), Reply::Default);
    assert_eq!(table.len(), 1);
}

#[test]
fn final_message_for_an_unbound_handle() {
    let mut table = Table::new();
    table.bind(0x31, FilePanelCls::new());
    assert_eq!(to_panel(&mut table, 0x99, WM_NCDESTROY, &mut None), Reply::Default);
    assert_eq!(table.len(), 1);
}

#[test]
fn final_message_through_another_trampoline_still_unbinds() {
    let mut table = Table::new();
    table.bind(0x31, FilePanelCls::new());
    assert_eq!(to_shell(&mut table, 0x31, WM_NCDESTROY, &mut None), Reply::Default);
    assert_eq!(table.len(), 0);
}

#[test]
fn at_most_one_binding_until_the_final_message() {
    let mut table = Table::new();
    let mut binds = 0;
    for msg in [WM_CREATE, WM_SIZE, WM_CREATE, WM_PAINT, WM_CREATE, WM_DESTROY, WM_CREATE] {
        let mut create = Some(MainCls::new());
        to_shell(&mut table, 0x40, msg, &mut create);
        if create.is_none() {
            binds += 1;
        }
    }
    assert_eq!(binds, 1);
    assert_eq!(table.len(), 1);
    to_shell(&mut table, 0x40, WM_NCDESTROY, &mut None);
    let mut create = Some(MainCls::new());
    to_shell(&mut table, 0x40, WM_CREATE, &mut create);
    assert_eq!(create, None);
    assert_eq!(table.len(), 1);
}

#[test]
fn no_instance_dispatch_before_the_binding() {
    let mut table = Table::new();
    for msg in [WM_NCCREATE, WM_SIZE, WM_PAINT, WM_DRAWITEM, WM_DESTROY, WM_NCDESTROY, 0x400] {
        assert_eq!(to_shell(&mut table, 0x40, msg, &mut None), Reply::Default);
    }
    let mut create = Some(MainCls { panel1: 8, panel2: 9 });
    to_shell(&mut table, 0x40, WM_CREATE, &mut create);
    assert_eq!(
        to_shell(&mut table, 0x40, WM_SIZE, &mut None),
        Reply::Handled(MainWork::Layout { panel1: 8, panel2: 9 })
    );
}

#[test]
fn no_stale_binding_after_the_final_message() {
    let mut table = Table::new();
    let mut create = Some(MainCls { panel1: 8, panel2: 9 });
    to_shell(&mut table, 0x40, WM_CREATE, &mut create);
    to_shell(&mut table, 0x40, WM_NCDESTROY, &mut None);
    assert_eq!(table.lookup::<MainCls>(0x40), None);
    for msg in [WM_SIZE, WM_PAINT, WM_DESTROY, WM_NCDESTROY, WM_CREATE] {
        assert_eq!(to_shell(&mut table, 0x40, msg, &mut None), Reply::Default);
    }
    let mut reused = Some(MainCls { panel1: 1, panel2: 2 });
    to_shell(&mut table, 0x40, WM_CREATE, &mut reused);
    assert_eq!(
        to_shell(&mut table, 0x40, WM_SIZE, &mut None),
        Reply::Handled(MainWork::Layout { panel1: 1, panel2: 2 })
    );
}

#[test]
fn lookup_is_type_safe_in_dispatch() {
    let mut table = Table::new();
    let mut create = Some(FilePanelCls::new());
    to_panel(&mut table, 0x50, WM_CREATE, &mut create);
    assert_eq!(table.lookup::<MainCls>(0x50), None);
    assert_eq!(to_shell(&mut table, 0x50, WM_PAINT, &mut None), Reply::Default);
    assert_eq!(to_shell(&mut table, 0x50, WM_SIZE, &mut None), Reply::Default);
    assert_eq!(to_panel(&mut table, 0x50, WM_PAINT, &mut None), Reply::Handled(PanelWork::Paint));
}

#[test]
fn created_message_through_another_trampoline_rebinds() {
    let mut table = Table::new();
    table.bind(0x50, FilePanelCls::new());
    let mut create = Some(MainCls { panel1: 1, panel2: 2 });
    assert_eq!(to_shell(&mut table, 0x50, WM_CREATE, &mut create), Reply::Default);
    assert_eq!(create, None);
    assert_eq!(table.len(), 1);
    assert_eq!(table.lookup::<FilePanelCls>(0x50), None);
    assert_eq!(table.lookup::<MainCls>(0x50), Some(MainCls { panel1: 1, panel2: 2 }));
}

#[test]
fn parameter_is_wanted_where_the_protocol_runs() {
    let mut table = Table::new();
    assert!(wants_create_param::<AnyWindow, MainCls>(&table, 0x60, WM_CREATE, 0, 0));
    assert!(!wants_create_param::<AnyWindow, MainCls>(&table, 0x60, WM_NCCREATE, 0, 0));
    assert!(!wants_create_param::<AnyWindow, MainCls>(&table, 0x60, WM_GETMINMAXINFO, 0, 0));
    assert!(!wants_create_param::<AnyWindow, MainCls>(&table, 0x60, WM_NCDESTROY, 0, 0));
    table.bind(0x60, MainCls::new());
    assert!(!wants_create_param::<AnyWindow, MainCls>(&table, 0x60, WM_CREATE, 0, 0));
    assert!(wants_create_param::<AnyWindow, FilePanelCls>(&table, 0x60, WM_CREATE, 0, 0));
    assert!(wants_create_param::<AnyWindow, MainCls>(&table, 0x61, WM_CREATE, 0, 0));
    assert_eq!(table.len(), 1);
}

#[test]
fn shell_with_two_panels_from_creation_to_destruction() {
    let mut table = Table::new();
    let (shell, left, right): (HWND, HWND, HWND) = (0x1000, 0x1001, 0x1002);

    // The shell window comes without an instance: its messages get
    // class-wide handling or default handling.
    let mut nothing: Option<MainCls> = None;
    assert_eq!(
        to_shell(&mut table, shell, WM_GETMINMAXINFO, &mut nothing),
        Reply::Handled(MainWork::MinTrackSize { x: 400, y: 200 })
    );
    assert_eq!(to_shell(&mut table, shell, WM_NCCREATE, &mut nothing), Reply::Default);
    assert_eq!(to_shell(&mut table, shell, WM_CREATE, &mut nothing), Reply::Default);
    assert_eq!(table.len(), 0);

    // Two panels, each with an instance.
    for panel in [left, right] {
        let mut create = Some(FilePanelCls::new());
        assert_eq!(to_panel(&mut table, panel, WM_NCCREATE, &mut create), Reply::Default);
        assert_eq!(to_panel(&mut table, panel, WM_CREATE, &mut create), Reply::Default);
        assert_eq!(create, None);
    }
    assert_eq!(table.len(), 2);
    assert!(table.contains(left));
    assert!(table.contains(right));
    assert!(!table.contains(shell));
    assert_eq!(table.lookup::<FilePanelCls>(left), Some(FilePanelCls {}));
    assert_eq!(table.lookup::<FilePanelCls>(right), Some(FilePanelCls {}));

    // The shell is resized: one batch that places both panels, then a
    // repaint of the whole client area.
    let state = MainCls::new().with_panels(left, right);
    let work = state.wnd_proc(shell, WM_SIZE, 0, 0);
    assert_eq!(work, Some(MainWork::Layout { panel1: left, panel2: right }));
    let client = Rect { left: 0, top: 0, right: 1008, bottom: 729 };
    assert!(client.extent_fits());
    assert_eq!(
        state.layout(client),
        PanelLayout {
            count: 2,
            first: Placement { hwnd: left, x: 0, y: 0, cx: 502, cy: 729 },
            second: Placement { hwnd: right, x: 506, y: 0, cx: 502, cy: 729 },
            flags: 0x14,
            invalidate: client,
            erase: true,
        }
    );
    assert_eq!(work.unwrap().reply(Ok(())), 0);
    assert_eq!(table.len(), 2);

    // The shell is destroyed, and its children with it.
    assert_eq!(to_shell(&mut table, shell, WM_DESTROY, &mut None), Reply::Default);
    for panel in [left, right] {
        assert_eq!(to_panel(&mut table, panel, WM_DESTROY, &mut None), Reply::Default);
        assert_eq!(to_panel(&mut table, panel, WM_NCDESTROY, &mut None), Reply::Default);
        assert!(!table.contains(panel));
    }
    assert_eq!(to_shell(&mut table, shell, WM_NCDESTROY, &mut None), Reply::Default);
    assert_eq!(table.len(), 0);
    assert!(table.is_empty());
}

#[test]
fn bound_shell_learns_its_panels() {
    let mut table = Table::new();
    let (shell, left, right): (HWND, HWND, HWND) = (0x2000, 0x2001, 0x2002);
    let state = MainCls::new();
    let mut create = Some(state);
    assert_eq!(to_shell(&mut table, shell, WM_CREATE, &mut create), Reply::Default);
    assert_eq!(
        to_shell(&mut table, shell, WM_SIZE, &mut None),
        Reply::Handled(MainWork::Layout { panel1: 0, panel2: 0 })
    );
    for panel in [left, right] {
        let mut create = Some(FilePanelCls::new());
        to_panel(&mut table, panel, WM_CREATE, &mut create);
    }
    assert_eq!(table.len(), 3);
    assert!(table.update(shell, state.with_panels(left, right)));
    assert_eq!(
        to_shell(&mut table, shell, WM_SIZE, &mut None),
        Reply::Handled(MainWork::Layout { panel1: left, panel2: right })
    );
    assert_eq!(
        to_shell(&mut table, shell, WM_DESTROY, &mut None),
        Reply::Handled(MainWork::Quit { exit_code: 0 })
    );
    for hwnd in [left, right] {
        to_panel(&mut table, hwnd, WM_NCDESTROY, &mut None);
    }
    to_shell(&mut table, shell, WM_NCDESTROY, &mut None);
    assert_eq!(table.len(), 0);
}

#[test]
fn created_message_twice_binds_once() {
    let mut table = Table::new();
    let mut create = Some(FilePanelCls::new());
    assert!(wants_create_param::<AnyWindow, FilePanelCls>(&table, 0x70, WM_CREATE, 0, 0));
    assert_eq!(to_panel(&mut table, 0x70, WM_CREATE, &mut create), Reply::Default);
    assert_eq!(create, None);
    assert_eq!(table.len(), 1);

    assert!(!wants_create_param::<AnyWindow, FilePanelCls>(&table, 0x70, WM_CREATE, 0, 0));
    assert_eq!(to_panel(&mut table, 0x70, WM_CREATE, &mut create), Reply::Default);
    assert_eq!(create, None);
    assert_eq!(table.len(), 1);
    assert_eq!(table.lookup::<FilePanelCls>(0x70), Some(FilePanelCls {}));
}

#[test]
fn second_created_message_does_not_touch_a_parameter() {
    let mut table = Table::new();
    let mut create = Some(MainCls { panel1: 1, panel2: 2 });
    to_shell(&mut table, 0x70, WM_CREATE, &mut create);
    let mut again = Some(MainCls { panel1: 3, panel2: 4 });
    assert_eq!(to_shell(&mut table, 0x70, WM_CREATE, &mut again), Reply::Default);
    assert_eq!(again, Some(MainCls { panel1: 3, panel2: 4 }));
    assert_eq!(table.len(), 1);
    assert_eq!(table.lookup::<MainCls>(0x70), Some(MainCls { panel1: 1, panel2: 2 }));
}
