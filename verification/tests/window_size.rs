use faketty::WindowSize;

#[test]
fn fixed_size_is_80_by_24() {
    let size = WindowSize::fixed();
    assert_eq!(size.columns, 80);
    assert_eq!(size.rows, 24);
    assert_eq!(size, WindowSize { columns: 80, rows: 24 });
}

#[test]
fn resolve_without_terminal_falls_back_to_fixed() {
    assert_eq!(
        WindowSize::resolve(None, None, None),
        WindowSize { columns: 80, rows: 24 }
    );
}

#[test]
fn resolve_inherits_the_terminal() {
    let terminal = WindowSize { columns: 132, rows: 43 };
    assert_eq!(WindowSize::resolve(Some(terminal), None, None), terminal);
}

#[test]
fn resolve_overrides_each_part_alone() {
    let terminal = WindowSize { columns: 132, rows: 43 };
    assert_eq!(
        WindowSize::resolve(Some(terminal), Some(100), None),
        WindowSize { columns: 100, rows: 43 }
    );
    assert_eq!(
        WindowSize::resolve(Some(terminal), None, Some(50)),
        WindowSize { columns: 132, rows: 50 }
    );
    assert_eq!(
        WindowSize::resolve(None, Some(100), None),
        WindowSize { columns: 100, rows: 24 }
    );
    assert_eq!(
        WindowSize::resolve(None, None, Some(50)),
        WindowSize { columns: 80, rows: 50 }
    );
    assert_eq!(
        WindowSize::resolve(Some(terminal), Some(1), Some(2)),
        WindowSize { columns: 1, rows: 2 }
    );
}
