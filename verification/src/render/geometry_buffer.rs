//! Elements of a geometry buffer and the ranges of them that a draw call
//! names.

use crate::render::error::FrameworkError;
use vstd::prelude::*;

verus! {

/// What the elements of a geometry buffer are.
#[derive(Clone, Copy, Debug, PartialEq, Eq, Structural)]
pub enum ElementKind {
    Triangle,
    Line,
}

impl ElementKind {
    /// The number of indices that make up one element.
    pub open spec fn spec_index_per_element(self) -> nat {
        match self {
            ElementKind::Triangle => 3,
            ElementKind::Line => 2,
        }
    }

    /// The number of indices that make up one element.
    pub fn index_per_element(self) -> (indices: usize)
        ensures
            indices == self.spec_index_per_element(),
    {
        match self {
            ElementKind::Triangle => 3,
            ElementKind::Line => 2,
        }
    }
}

/// What a draw call has drawn.
#[derive(Clone, Copy, Debug, PartialEq, Eq, Structural)]
pub struct DrawCallStatistics {
    pub triangles: usize,
}

impl Default for DrawCallStatistics {
    fn default() -> (statistics: DrawCallStatistics)
        ensures
            statistics == (DrawCallStatistics { triangles: 0 }),
    {
        DrawCallStatistics { triangles: 0 }
    }
}

impl DrawCallStatistics {
    /// What drawing `instances` instances of a buffer of `element_count`
    /// elements has drawn.
    pub fn instanced(element_count: usize, instances: usize) -> (statistics: DrawCallStatistics)
        requires
            element_count * instances <= usize::MAX,
        ensures
            statistics.triangles == element_count * instances,
    {
        DrawCallStatistics { triangles: element_count * instances }
    }
}

/// The indices that a draw call reads.
#[derive(Clone, Copy, Debug, PartialEq, Eq, Structural)]
pub struct IndexRange {
    /// The first index.
    pub start_index: usize,
    /// The number of indices.
    pub index_count: usize,
}

/// The indices of `count` elements from element `offset` on, in a buffer of
/// `element_count` elements. A range that reaches beyond the buffer is
/// refused; the error names the range, its end cut off at the largest
/// machine word.
pub fn element_range(kind: ElementKind, element_count: usize, offset: usize, count: usize) -> (range:
    Result<IndexRange, FrameworkError>)
    requires
        element_count * kind.spec_index_per_element() <= usize::MAX,
    ensures
        match range {
            Ok(r) => {
                &&& offset + count <= element_count
                &&& r.start_index == offset * kind.spec_index_per_element()
                &&& r.index_count == count * kind.spec_index_per_element()
            },
            Err(e) => {
                &&& offset + count > element_count
                &&& e == (FrameworkError::InvalidElementRange {
                    start: offset,
                    end: if offset + count > usize::MAX {
                        usize::MAX
                    } else {
                        (offset + count) as usize
                    },
                    total: element_count,
                })
            },
        },
{
    let end = match offset.checked_add(count) {
        Some(end) => end,
        None => usize::MAX,
    };
    if end > element_count || (end == usize::MAX && count > usize::MAX - offset) {
        return Err(FrameworkError::InvalidElementRange { start: offset, end, total: element_count });
    }
    let index_per_element = kind.index_per_element();
    assert(offset * index_per_element <= element_count * index_per_element) by (nonlinear_arith)
        requires
            offset <= element_count,
    ;
    assert(count * index_per_element <= element_count * index_per_element) by (nonlinear_arith)
        requires
            count <= element_count,
    ;
    Ok(
        IndexRange {
            start_index: offset * index_per_element,
            index_count: count * index_per_element,
        },
    )
}

/// The indices of all elements of a buffer of `element_count` elements.
pub fn all_elements(kind: ElementKind, element_count: usize) -> (range: IndexRange)
    requires
        element_count * kind.spec_index_per_element() <= usize::MAX,
    ensures
        range.start_index == 0,
        range.index_count == element_count * kind.spec_index_per_element(),
{
    IndexRange { start_index: 0, index_count: element_count * kind.index_per_element() }
}

/// The arguments of a draw call over a range of 32-bit indices, as the
/// graphics API takes them.
#[derive(Clone, Copy, Debug, PartialEq, Eq, Structural)]
pub struct DrawArguments {
    /// The number of indices to read.
    pub count: i32,
    /// The byte at which the first index lies in the element buffer.
    pub offset: i32,
}

/// The arguments for drawing `range`: each index takes four bytes. `None`
/// when the number of indices or the offset of the first does not fit the
/// 32 bits that the graphics API takes.
pub fn draw_arguments(range: IndexRange) -> (arguments: Option<DrawArguments>)
    ensures
        match arguments {
            Some(a) => a.count == range.index_count && a.offset == 4 * range.start_index,
            None => range.index_count > i32::MAX || 4 * range.start_index > i32::MAX,
        },
{
    if range.index_count > 0x7fff_ffff || range.start_index > 0x7fff_ffff / 4 {
        return None;
    }
    Some(DrawArguments { count: range.index_count as i32, offset: (range.start_index * 4) as i32 })
}

} // verus!
