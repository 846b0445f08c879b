use miniutil::memory::Pointer;
use miniutil::reloc::RelocTable;

#[test]
fn an_empty_table_holds_nothing() {
    let table = RelocTable::new();
    assert_eq!(table.get(0), None);
    assert_eq!(table.get(usize::MAX), None);
}

#[test]
fn insert_records_and_replaces() {
    let mut table = RelocTable::new();
    let a = Pointer { alloc: 1, offset: 0 };
    let b = Pointer { alloc: 2, offset: 4 };
    table.insert(8, a);
    assert_eq!(table.get(8), Some(a));
    assert_eq!(table.get(0), None);
    table.insert(8, b);
    assert_eq!(table.get(8), Some(b));
    table.insert(16, a);
    assert_eq!(table.get(16), Some(a));
    assert_eq!(table.get(8), Some(b));
}

#[test]
fn remove_range_forgets_the_keys_from_its_start_to_before_its_end() {
    let mut table = RelocTable::new();
    let p = Pointer { alloc: 0, offset: 0 };
    for key in [0usize, 8, 16, 24] {
        table.insert(key, p);
    }
    table.insert(8, Pointer { alloc: 9, offset: 9 });
    table.remove_range(8, 24);
    assert_eq!(table.get(0), Some(p));
    assert_eq!(table.get(8), None);
    assert_eq!(table.get(16), None);
    assert_eq!(table.get(24), Some(p));
    table.remove_range(24, 24);
    assert_eq!(table.get(24), Some(p));
    table.remove_range(30, 10);
    assert_eq!(table.get(24), Some(p));
    table.remove_range(0, usize::MAX);
    assert_eq!(table.get(0), None);
    assert_eq!(table.get(24), None);
}
