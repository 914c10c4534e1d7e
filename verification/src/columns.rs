//! Growing and copying the plain columns of generation output.

use vstd::prelude::*;

use crate::text::texts;

verus! {

/// Appends a column of 64-bit values.
pub fn extend_u64(column: &mut Vec<u64>, more: &Vec<u64>)
    ensures
        final(column)@ == old(column)@ + more@,
{
    column.extend_from_slice(more.as_slice());
    assert(column@ =~= old(column)@ + more@);
}

/// Appends a column of unsigned 32-bit values.
pub fn extend_u32(column: &mut Vec<u32>, more: &Vec<u32>)
    ensures
        final(column)@ == old(column)@ + more@,
{
    column.extend_from_slice(more.as_slice());
    assert(column@ =~= old(column)@ + more@);
}

/// Appends a column of token identifiers.
pub fn extend_i32(column: &mut Vec<i32>, more: &Vec<i32>)
    ensures
        final(column)@ == old(column)@ + more@,
{
    column.extend_from_slice(more.as_slice());
    assert(column@ =~= old(column)@ + more@);
}

/// Appends a column of texts.
pub fn extend_texts(column: &mut Vec<String>, more: &Vec<String>)
    ensures
        texts(final(column)@) == texts(old(column)@) + texts(more@),
{
    column.extend_from_slice(more.as_slice());
    assert(column@ =~= old(column)@ + more@);
    assert(texts(column@) =~= texts(old(column)@) + texts(more@));
}

/// Copies a column of 64-bit values.
pub fn copy_u64(column: &Vec<u64>) -> (copy: Vec<u64>)
    ensures
        copy@ == column@,
{
    let copy = column.clone();
    assert(copy@ =~= column@);
    copy
}

/// Copies a column of unsigned 32-bit values.
pub fn copy_u32(column: &Vec<u32>) -> (copy: Vec<u32>)
    ensures
        copy@ == column@,
{
    let copy = column.clone();
    assert(copy@ =~= column@);
    copy
}

/// Copies a column of token identifiers.
pub fn copy_i32(column: &Vec<i32>) -> (copy: Vec<i32>)
    ensures
        copy@ == column@,
{
    let copy = column.clone();
    assert(copy@ =~= column@);
    copy
}

} // verus!
