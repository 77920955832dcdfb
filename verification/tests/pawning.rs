use pawn::Cell;
use pawn::PawnExt;

#[test]
fn it_works() {
    let mut v = Cell::new(vec![1]);
    let mut t = v.pawn();
    t.get_mut().push(2);
    t.release(&mut v);
    {
        let mut t = v.pawn();
        t.get_mut().push(3);
        t.get_mut().push(4);
        t.release(&mut v);
    }
    assert_eq!(v.into_inner(), [1, 2, 3, 4]);
}

#[test]
fn pawn_twice() {
    let mut v = Cell::new(vec![1]);
    {
        let mut a = v.pawn();
        assert_eq!(a.get()[..], [1]);

        // Pawning again while a ticket is alive is allowed; the second
        // ticket just owns the placeholder, not the first ticket's value.
        let mut b = v.pawn();
        assert_eq!(b.get()[..], []);

        a.get_mut().push(2);

        b.get_mut().push(3); // Discarded when `a` is released after `b`.

        b.release(&mut v);
        a.release(&mut v);
    }
    assert_eq!(v.into_inner(), [1, 2]);
}

#[test]
fn round_trip_leaves_contents_unchanged() {
    let mut c = Cell::new(5u64);
    let t = c.pawn_with(0);
    t.release(&mut c);
    assert_eq!(c.into_inner(), 5);
}

#[test]
fn round_trip_with_empty_contents() {
    let mut c: Cell<Vec<u8>> = Cell::new(Vec::new());
    let t = c.pawn();
    t.release(&mut c);
    assert!(c.into_inner().is_empty());
}

#[test]
fn mutation_becomes_visible_on_release() {
    let mut c = Cell::new(10u32);
    let mut t = c.pawn_with(0);
    let doubled = *t.get() * 2;
    t.set(doubled);
    assert_eq!(*c.get(), 0); // The mutation is still private to the ticket.
    t.release(&mut c);
    assert_eq!(c.into_inner(), 20);
}

#[test]
fn placeholder_visible_while_ticket_alive() {
    let mut c = Cell::new(7u32);
    let t = c.pawn_with(99);
    assert_eq!(*c.get(), 99);
    t.release(&mut c);
    assert_eq!(*c.get(), 7);
}

#[test]
fn default_placeholder_fills_the_gap() {
    let mut c = Cell::new(5u32);
    let t = c.pawn();
    assert_eq!(*c.get(), 0);
    assert_eq!(*t.get(), 5);
    t.release(&mut c);
}

#[test]
fn cell_replace_returns_previous() {
    let mut c = Cell::new(String::from("first"));
    let prev = c.replace(String::from("second"));
    assert_eq!(prev, "first");
    assert_eq!(c.into_inner(), "second");
}

#[test]
fn values_move_without_loss_or_duplication() {
    let mut c = Cell::new(String::from("first"));
    let t = c.pawn_with(String::from("temp"));
    assert_eq!(c.get(), "temp");
    assert_eq!(t.get(), "first");

    let t2 = c.pawn_with(String::from("other"));
    assert_eq!(t2.get(), "temp"); // The placeholder moved; it was not copied.
    assert_eq!(c.get(), "other");

    t2.release(&mut c); // Cell holds "temp" again; "other" is discarded.
    assert_eq!(c.get(), "temp");
    t.release(&mut c); // Cell holds "first" again; "temp" is discarded.
    assert_eq!(c.into_inner(), "first");
}

#[test]
fn cloned_ticket_is_independent_of_the_cell() {
    let mut c = Cell::new(vec![1, 2]);
    let t = c.pawn_with(Vec::new());
    let mut copy = t.clone();
    copy.get_mut().push(3);
    assert!(c.get().is_empty()); // Cloning never touched the cell.
    assert_eq!(t.get()[..], [1, 2]); // The original ticket is unaffected.
    copy.release(&mut c);
    assert_eq!(*c.get(), [1, 2, 3]);
    t.release(&mut c);
    assert_eq!(c.into_inner(), [1, 2]);
}
