//! A scoped, exclusive, mutable view into a single-slot container.
//!
//! A [`Cell`] always holds exactly one value. Pawning the cell swaps a
//! placeholder value in and moves the previous contents out into a
//! [`Ticket`]: a guard that owns that value for as long as it lives. The
//! caller reads and mutates the ticket's value freely; releasing the ticket
//! swaps the value back into the cell, displacing whatever the cell holds at
//! that moment.
//!
//! Pawning a cell again while an earlier ticket is still alive is allowed:
//! the second ticket receives the placeholder (never the first ticket's
//! value), and whichever ticket is released last determines the cell's final
//! contents. The other ticket's value is silently discarded — degraded, but
//! memory-safe, behaviour.

use vstd::prelude::*;

pub mod laws;

verus! {

/// The pair (cell contents, ticket value) produced by pawning a cell that
/// holds `contents` with `temp` as the placeholder: the placeholder moves
/// into the cell and the previous contents moves into the ticket.
pub open spec fn pawned<T>(contents: T, temp: T) -> (T, T) {
    (temp, contents)
}

/// The cell contents produced by releasing a ticket that holds `ticket`
/// into a cell that holds `contents`: the ticket's value displaces the
/// cell's, and the displaced value is discarded.
pub open spec fn released<T>(contents: T, ticket: T) -> T {
    ticket
}

/// A single-threaded container that holds exactly one value at all times.
pub struct Cell<T> {
    value: T,
}

/// Containers that can be pawned: swapping a placeholder in hands the
/// previous contents to a [`Ticket`], to be swapped back on release.
pub trait PawnExt {
    type Inner;

    /// The value the container currently holds.
    spec fn contents(&self) -> Self::Inner;

    /// Swap `temp` into the container and return a ticket owning the
    /// previous contents. Always succeeds; nothing blocks or locks.
    fn pawn_with(&mut self, temp: Self::Inner) -> (t: Ticket<Self::Inner>)
        ensures
            final(self).contents() == pawned(old(self).contents(), temp).0,
            t@ == pawned(old(self).contents(), temp).1,
    ;

    /// Pawn with a default value as the placeholder.
    fn pawn(&mut self) -> (t: Ticket<Self::Inner>) where Self::Inner: Default
        ensures
            t@ == old(self).contents(),
            call_ensures(<Self::Inner as Default>::default, (), final(self).contents()),
    {
        self.pawn_with(Self::Inner::default())
    }
}

impl<T> Cell<T> {
    /// Create a cell holding `value`.
    pub fn new(value: T) -> (c: Self)
        ensures
            c.contents() == value,
    {
        Cell { value }
    }

    /// Borrow the current contents.
    pub fn get(&self) -> (r: &T)
        ensures
            *r == self.contents(),
    {
        &self.value
    }

    /// Swap `value` in and return the previous contents. This whole-value
    /// swap is the one primitive everything else is built on.
    pub fn replace(&mut self, value: T) -> (prev: T)
        ensures
            final(self).contents() == value,
            prev == old(self).contents(),
    {
        let mut prev = value;
        core::mem::swap(&mut self.value, &mut prev);
        prev
    }

    /// Consume the cell and return its contents.
    pub fn into_inner(self) -> (r: T)
        ensures
            r == self.contents(),
    {
        self.value
    }
}

impl<T> PawnExt for Cell<T> {
    type Inner = T;

    closed spec fn contents(&self) -> T {
        self.value
    }

    fn pawn_with(&mut self, temp: T) -> (t: Ticket<T>) {
        Ticket { value: self.replace(temp) }
    }
}

/// A guard that exclusively owns one value taken out of a [`Cell`]. While
/// the ticket is alive the cell holds the placeholder (or whatever was
/// swapped in since); the ticket's value returns to the cell on release.
///
/// Release is an explicit, consuming step; `#[must_use]` keeps a ticket from
/// being discarded silently. Cloning a ticket (available when the value can
/// be cloned) yields an independent ticket over a copy of the value and does
/// not touch the cell.
#[derive(Clone)]
#[must_use]
pub struct Ticket<T> {
    value: T,
}

impl<T> View for Ticket<T> {
    type V = T;

    closed spec fn view(&self) -> T {
        self.value
    }
}

impl<T> Ticket<T> {
    /// Borrow the owned value. The cell is neither consulted nor affected.
    pub fn get(&self) -> (r: &T)
        ensures
            *r == self@,
    {
        &self.value
    }

    /// Mutably borrow the owned value. Mutation stays private to the ticket
    /// and becomes visible to the cell only upon release.
    pub fn get_mut(&mut self) -> (r: &mut T)
        ensures
            *r == old(self)@,
            final(self)@ == *final(r),
    {
        &mut self.value
    }

    /// Replace the owned value with `value` outright.
    pub fn set(&mut self, value: T)
        ensures
            final(self)@ == value,
    {
        self.value = value;
    }

    /// Swap the owned value back into `cell`, discarding whatever the cell
    /// held at this instant, and consume the ticket.
    pub fn release(self, cell: &mut Cell<T>)
        ensures
            final(cell).contents() == released(old(cell).contents(), self@),
    {
        let _ = cell.replace(self.value);
    }
}

} // verus!
