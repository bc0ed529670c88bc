use wasm2obj::{Ebb, FaerieRelocSink, FuncRef, JumpTable, Reloc};

#[test]
fn new_sink_has_recorded_nothing() {
    let sink = FaerieRelocSink::new();
    assert!(sink.ebbs.is_empty());
    assert!(sink.funcs.is_empty());
    assert!(sink.jts.is_empty());
}

#[test]
fn reloc_ebb_records_target_and_offset() {
    let mut sink = FaerieRelocSink::new();
    sink.reloc_ebb(12, Reloc(3), Ebb(7));
    assert_eq!(sink.ebbs.len(), 1);
    let (ebb, offset) = sink.ebbs[&3];
    assert_eq!(ebb.0, 7);
    assert_eq!(offset, 12);
    assert!(sink.funcs.is_empty());
    assert!(sink.jts.is_empty());
}

#[test]
fn reloc_func_records_target_and_offset() {
    let mut sink = FaerieRelocSink::new();
    sink.reloc_func(1, Reloc(0), FuncRef(4));
    assert_eq!(sink.funcs.len(), 1);
    let (func, offset) = sink.funcs[&0];
    assert_eq!(func.0, 4);
    assert_eq!(offset, 1);
    assert!(sink.ebbs.is_empty());
    assert!(sink.jts.is_empty());
}

#[test]
fn reloc_jt_records_target_and_offset() {
    let mut sink = FaerieRelocSink::new();
    sink.reloc_jt(u32::MAX, Reloc(u16::MAX), JumpTable(0));
    assert_eq!(sink.jts.len(), 1);
    let (jt, offset) = sink.jts[&u16::MAX];
    assert_eq!(jt.0, 0);
    assert_eq!(offset, u32::MAX);
    assert!(sink.ebbs.is_empty());
    assert!(sink.funcs.is_empty());
}

#[test]
fn same_number_overwrites_silently() {
    let mut sink = FaerieRelocSink::new();
    sink.reloc_ebb(10, Reloc(5), Ebb(1));
    sink.reloc_ebb(20, Reloc(5), Ebb(2));
    assert_eq!(sink.ebbs.len(), 1);
    let (ebb, offset) = sink.ebbs[&5];
    assert_eq!(ebb.0, 2);
    assert_eq!(offset, 20);
}

#[test]
fn different_numbers_are_kept_apart() {
    let mut sink = FaerieRelocSink::new();
    sink.reloc_func(10, Reloc(1), FuncRef(1));
    sink.reloc_func(10, Reloc(2), FuncRef(1));
    assert_eq!(sink.funcs.len(), 2);
}

#[test]
fn the_three_kinds_share_no_store() {
    let mut sink = FaerieRelocSink::new();
    sink.reloc_ebb(1, Reloc(9), Ebb(1));
    sink.reloc_func(2, Reloc(9), FuncRef(2));
    sink.reloc_jt(3, Reloc(9), JumpTable(3));
    assert_eq!(sink.ebbs[&9].1, 1);
    assert_eq!(sink.funcs[&9].1, 2);
    assert_eq!(sink.jts[&9].1, 3);
}
