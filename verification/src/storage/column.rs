//! A column of a table: the bytes of one component of every row.

use crate::bus;
use crate::storage::layout::{array_layout, Layout};
use vstd::prelude::*;

verus! {

/// The number of a row in a table.
#[derive(Debug, Hash, Eq, PartialEq, Clone, Copy, Structural)]
pub struct RowIndex(pub bus::Width);

/// Represents the allocation of memory for a column.
///
/// The layout is that of an array of the elements. Its size is the number of bytes. Its alignment
/// is only recorded: the bytes themselves are aligned as bytes are, so whoever turns them into a
/// value must not rely on more.
pub struct ColumnAllocation {
    pub data: Vec<u8>,
    pub layout: Layout,
}

/// A column of components in a table.
/// This is a low level structure. While it allocates the memory for its elements, it is the
/// job of the table itself to track how many rows its columns hold.
///
/// A column holds the bytes of its elements and does not know their type. Where an element has
/// to be dropped, its bytes are handed out, and whoever knows the type turns them back into a
/// value.
pub struct Column {
    pub allocation: Option<ColumnAllocation>,
    pub element_layout: Layout,
}

/// `bytes` with those from `start` on replaced by `part`.
pub open spec fn splice(bytes: Seq<u8>, start: int, part: Seq<u8>) -> Seq<u8> {
    bytes.subrange(0, start) + part + bytes.subrange(start + part.len(), bytes.len() as int)
}

/// Overwrites `dest` with `source`.
///
/// Calls `uninit::out_ref::Out::copy_from_slice`, of which it claims that it copies every
/// element of the source to the same place in the destination. That function panics where the
/// lengths differ.
#[verifier::external_body]
fn copy_bytes(dest: &mut [u8], source: &[u8])
    requires
        old(dest)@.len() == source@.len(),
    ensures
        final(dest)@ == source@,
{
    let out: uninit::out_ref::Out<'_, [u8]> = uninit::prelude::AsOut::as_out(dest);
    out.copy_from_slice(source);
}

/// The place of one row's element lies before that of any later row.
pub proof fn lemma_element_bounds(size: int, row: int, later: int)
    requires
        0 <= size,
        0 <= row < later,
    ensures
        0 <= size * row,
        size * row + size <= size * later,
{
    assert(0 <= size * row && size * row + size <= size * later) by (nonlinear_arith)
        requires
            0 <= size,
            0 <= row < later,
    ;
}

impl Column {
    /// The bytes that are allocated.
    pub open spec fn bytes(self) -> Seq<u8> {
        match self.allocation {
            Some(allocation) => allocation.data@,
            None => Seq::empty(),
        }
    }

    /// The size of an element.
    pub open spec fn size(self) -> int {
        self.element_layout.size as int
    }

    /// The bytes of the element in the given row.
    pub open spec fn element(self, row: int) -> Seq<u8> {
        self.bytes().subrange(self.size() * row, self.size() * row + self.size())
    }

    /// Memory for the given row is allocated.
    pub open spec fn has_row(self, row: int) -> bool {
        &&& self.allocation is Some
        &&& 0 <= row
        &&& 0 <= self.size() * row
        &&& self.size() * row + self.size() <= self.bytes().len()
    }

    /// The column has memory for exactly `rows` rows. An element without size needs none.
    pub open spec fn wf(self, rows: int) -> bool {
        &&& self.element_layout.of_type()
        &&& match self.allocation {
            Some(allocation) => {
                &&& 0 < rows
                &&& 0 < self.size()
                &&& allocation.layout.size == self.size() * rows
                &&& allocation.layout.align == self.element_layout.align
                &&& allocation.data@.len() == allocation.layout.size
            },
            None => rows == 0 || self.size() == 0,
        }
    }

    /// Both columns hold elements of the same layout in allocations of the same layout.
    pub open spec fn same_shape(self, other: Column) -> bool {
        &&& self.element_layout == other.element_layout
        &&& self.allocation is Some <==> other.allocation is Some
        &&& self.allocation is Some ==> {
            &&& self.allocation->0.layout == other.allocation->0.layout
            &&& self.bytes().len() == other.bytes().len()
        }
    }

    /// A column with memory for some rows has a place for each of them.
    pub proof fn lemma_has_row(self, rows: int, row: int)
        requires
            self.wf(rows),
            0 < self.size(),
            0 <= row < rows,
        ensures
            self.has_row(row),
            self.element(row).len() == self.size(),
    {
        lemma_element_bounds(self.size(), row, rows);
    }

    /// Replacing the bytes of one row's element replaces that element and keeps the others.
    pub proof fn lemma_splice(self, other: Column, row: int, part: Seq<u8>)
        requires
            self.has_row(row),
            other.same_shape(self),
            part.len() == self.size(),
            other.bytes() == splice(self.bytes(), self.size() * row, part),
        ensures
            other.element(row) == part,
            forall|r: int|
                #![trigger other.element(r)]
                r != row && self.has_row(r) ==> other.element(r) == self.element(r),
    {
        assert(other.element(row) =~= part);
        assert forall|r: int| #![trigger other.element(r)] r != row && self.has_row(r) implies
            other.element(r) == self.element(r) by {
            if r < row {
                lemma_element_bounds(self.size(), r, row);
            } else {
                lemma_element_bounds(self.size(), row, r);
            }
            assert(other.element(r) =~= self.element(r));
        }
    }

    /// Create a column that can store this specific type.
    pub fn new<T>() -> (column: Self)
        ensures
            column.allocation is None,
            column.element_layout.size as nat == vstd::layout::size_of::<T>(),
            column.element_layout.align as nat == vstd::layout::align_of::<T>(),
            column.element_layout.of_type(),
    {
        Column { allocation: None, element_layout: Layout::new::<T>() }
    }

    /// Create a new column that can store the same type as the other column.
    pub fn inherit_type(other: &Self) -> (column: Self)
        ensures
            column.allocation is None,
            column.element_layout == other.element_layout,
    {
        Column { allocation: None, element_layout: other.element_layout }
    }

    /// The bytes of the element in the given row.
    pub fn read_element(&self, index: RowIndex) -> (element: &[u8])
        requires
            self.has_row(index.0 as int),
        ensures
            element@ == self.element(index.0 as int),
    {
        match &self.allocation {
            Some(allocation) => {
                let element_length = self.element_layout.size;
                assert(self.bytes().len() == allocation.data.len());
                let start: usize = element_length * index.0;
                vstd::slice::slice_subrange(
                    allocation.data.as_slice(),
                    start,
                    start + element_length,
                )
            },
            None => {
                assert(false);
                &[]
            },
        }
    }

    /// Write the bytes of the element in the given row. What was there before is overwritten.
    pub fn set_element(&mut self, index: RowIndex, element: &[u8])
        requires
            old(self).has_row(index.0 as int),
            element@.len() == old(self).size(),
        ensures
            final(self).same_shape(*old(self)),
            final(self).bytes() == splice(
                old(self).bytes(),
                old(self).size() * index.0,
                element@,
            ),
            final(self).element(index.0 as int) == element@,
            forall|r: int|
                #![trigger final(self).element(r)]
                r != index.0 && old(self).has_row(r) ==> final(self).element(r) == old(
                    self,
                ).element(r),
    {
        let slice = self.access_element_mut(index);
        copy_bytes(slice, element);
        proof {
            old(self).lemma_splice(*self, index.0 as int, element@);
        }
    }

    /// Access the element of a row. What is written to the returned bytes is what the row holds
    /// once the access ends.
    pub fn access_element_mut(&mut self, index: RowIndex) -> (element: &mut [u8])
        requires
            old(self).has_row(index.0 as int),
        ensures
            element@ == old(self).element(index.0 as int),
            final(element)@.len() == element@.len() ==> {
                &&& final(self).same_shape(*old(self))
                &&& final(self).bytes() == splice(
                    old(self).bytes(),
                    old(self).size() * index.0,
                    final(element)@,
                )
            },
    {
        let element_length = self.element_layout.size;
        assert(self.bytes().len() == self.allocation->0.data.len());
        match &mut self.allocation {
            Some(allocation) => {
                let start: usize = element_length * index.0;
                let (before, from_start) = allocation.data.as_mut_slice().split_at_mut(start);
                let (element, after) = from_start.split_at_mut(element_length);
                assert(element@ =~= old(self).element(index.0 as int));
                assert(after@ =~= old(self).bytes().subrange(
                    start + element_length,
                    old(self).bytes().len() as int,
                ));
                element
            },
            None => {
                assert(false);
                &mut []
            },
        }
    }

    /// Resize the column to the select number of elements.
    /// You can safely shrink the column, but elements from those freed rows are lost.
    pub fn resize(&mut self, new_size: usize)
        requires
            old(self).element_layout.of_type(),
            0 < new_size,
            old(self).size() * new_size <= isize::MAX,
        ensures
            final(self).element_layout == old(self).element_layout,
            old(self).size() == 0 ==> *final(self) == *old(self),
            old(self).size() > 0 ==> {
                &&& final(self).wf(new_size as int)
                &&& final(self).allocation is Some
                &&& forall|i: int|
                    #![trigger final(self).bytes()[i]]
                    0 <= i < old(self).bytes().len() && i < final(self).bytes().len()
                        ==> final(self).bytes()[i] == old(self).bytes()[i]
                &&& forall|r: int|
                    #![trigger final(self).element(r)]
                    0 <= r < new_size && old(self).has_row(r) ==> final(self).element(r) == old(
                        self,
                    ).element(r)
            },
    {
        let element_length = self.element_layout.size;
        if element_length > 0 {
            let new_layout = match array_layout(&self.element_layout, new_size) {
                Some(new_layout) => new_layout,
                None => {
                    assert(false);
                    return ;
                },
            };
            let mut data = match self.allocation.take() {
                Some(allocation) => allocation.data,
                None => Vec::new(),
            };
            assert(data@ == old(self).bytes());
            data.resize(new_layout.size, 0);
            let ghost kept = if old(self).bytes().len() <= new_layout.size {
                old(self).bytes().len() as int
            } else {
                new_layout.size as int
            };
            assert(forall|i: int|
                0 <= i < kept ==> {
                    &&& data@[i] == data@.subrange(0, kept)[i]
                    &&& data@.subrange(0, kept)[i] == old(self).bytes()[i]
                });
            self.allocation = Some(ColumnAllocation { data, layout: new_layout });
            proof {
                assert forall|r: int|
                    #![trigger self.element(r)]
                    0 <= r < new_size && old(self).has_row(r) implies self.element(r) == old(
                    self,
                ).element(r) by {
                    lemma_element_bounds(self.size(), r, new_size as int);
                    assert(self.element(r) =~= old(self).element(r));
                }
            }
        }
    }

    /// Takes the contents of a row out of the column, for the component to be dropped.
    /// Note that this does not free the memory of the row. It will be reused.
    pub fn drop_row(&self, row: RowIndex) -> (element: Vec<u8>)
        requires
            self.has_row(row.0 as int),
        ensures
            element@ == self.element(row.0 as int),
    {
        vstd::slice::slice_to_vec(self.read_element(row))
    }
}

} // verus!
