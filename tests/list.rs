use std::collections::HashMap;

use gnucash_sys::{Account, ListCell, ListCursor, ListRead, ListSource, Transaction};

/// Runs a walk against cells held in a map, as the engine would serve them.
fn drive(cursor: &mut ListCursor, head: u64, cells: &HashMap<u64, ListCell>) -> usize {
    let mut reads = 0;
    while let Some(read) = cursor.next_read() {
        match read {
            ListRead::Head(_) => cursor.on_head(head),
            ListRead::Cell(at) => {
                reads += 1;
                cursor.on_cell(cells[&at]);
            }
        }
    }
    reads
}

fn three_cells() -> HashMap<u64, ListCell> {
    let mut cells = HashMap::new();
    cells.insert(0x100, ListCell { data: 0x51, next: 0x200 });
    cells.insert(0x200, ListCell { data: 0x52, next: 0x300 });
    cells.insert(0x300, ListCell { data: 0x53, next: 0 });
    cells
}

#[test]
fn empty_list_yields_nothing() {
    let t = Transaction::new(0x71);
    let mut cursor = t.splits();
    assert_eq!(cursor.next_read(), Some(ListRead::Head(ListSource::TransactionSplits(0x71))));
    let reads = drive(&mut cursor, 0, &HashMap::new());
    assert_eq!(reads, 0);
    assert!(cursor.is_done());
    assert!(cursor.splits().is_empty());
}

#[test]
fn three_cells_yield_three_borrowed_handles_in_order() {
    let a = Account::new(0xa0);
    let mut cursor = a.splits();
    let cells = three_cells();
    assert_eq!(drive(&mut cursor, 0x100, &cells), 3);
    let splits = cursor.splits();
    assert_eq!(splits.len(), 3);
    let ptrs: Vec<u64> = splits.iter().map(|s| s.as_ptr()).collect();
    assert_eq!(ptrs, vec![0x51, 0x52, 0x53]);
    assert!(splits.iter().all(|s| !s.is_owned()));
    assert!(splits.iter().all(|s| s.drop_calls().is_empty()));
}

#[test]
fn restarted_walk_yields_the_same_elements() {
    let a = Account::new(0xa0);
    let mut cursor = a.children();
    let cells = three_cells();
    drive(&mut cursor, 0x100, &cells);
    let first = cursor.items();
    cursor.restart();
    assert_eq!(cursor.next_read(), Some(ListRead::Head(ListSource::AccountChildren(0xa0))));
    assert!(cursor.items().is_empty());
    drive(&mut cursor, 0x100, &cells);
    assert_eq!(cursor.items(), first);
    let accounts = cursor.accounts();
    assert_eq!(accounts.iter().map(|x| x.as_ptr()).collect::<Vec<_>>(), first);
}

#[test]
fn null_elements_are_skipped_and_the_walk_stops_at_null() {
    let mut cells = HashMap::new();
    cells.insert(0x100, ListCell { data: 0, next: 0x200 });
    cells.insert(0x200, ListCell { data: 0x99, next: 0 });
    cells.insert(0x300, ListCell { data: 0x77, next: 0 });
    let mut cursor = Account::new(0xa0).descendants();
    assert_eq!(drive(&mut cursor, 0x100, &cells), 2);
    assert_eq!(cursor.items(), vec![0x99]);
    assert_eq!(cursor.transactions().len(), 1);
    assert_eq!(cursor.source(), ListSource::AccountDescendants(0xa0));
}

#[test]
fn only_copied_lists_are_freed_by_the_caller() {
    assert!(ListSource::AccountChildren(1).caller_owns_cells());
    assert!(ListSource::AccountDescendants(1).caller_owns_cells());
    assert!(!ListSource::AccountSplits(1).caller_owns_cells());
    assert!(!ListSource::TransactionSplits(1).caller_owns_cells());
    assert!(!ListSource::QueryResults(1).caller_owns_cells());
    assert!(!ListSource::TaxTableEntries(1).caller_owns_cells());
}
