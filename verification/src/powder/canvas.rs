//! The pixels of a chunk's canvas: one RGBA pixel per cell, row after row.
use super::chunk::cell_index;
use super::GridPosition;
use vstd::prelude::*;

verus! {

/// The pixels of a blank canvas with `count` cells: opaque black.
pub open spec fn blank_pixels(count: nat) -> Seq<u8> {
    Seq::new(count * 4, |i: int| if i % 4 == 3 { 255u8 } else { 0u8 })
}

/// The pixels after painting the pixel of cell `cell` with `color`.
pub open spec fn paint(pixels: Seq<u8>, cell: int, color: [u8; 4]) -> Seq<u8> {
    pixels.update(4 * cell, color[0]).update(4 * cell + 1, color[1]).update(4 * cell + 2, color[2]).update(
        4 * cell + 3,
        color[3],
    )
}

/// Color of the pixel of an empty cell: opaque black.
pub open spec fn empty_color() -> [u8; 4] {
    [0u8, 0u8, 0u8, 255u8]
}

/// Painting a cell twice leaves only the second color: a particle added to a cell and then
/// removed leaves that cell's pixel at the empty color and every other byte as it was.
pub proof fn lemma_paint_over(pixels: Seq<u8>, cell: int, first: [u8; 4], second: [u8; 4])
    requires
        0 <= cell,
        4 * cell + 3 < pixels.len(),
    ensures
        paint(paint(pixels, cell, first), cell, second) == paint(pixels, cell, second),
        paint(paint(pixels, cell, first), cell, second).subrange(4 * cell, 4 * cell + 4) == second@,
{
    assert(paint(paint(pixels, cell, first), cell, second) =~= paint(pixels, cell, second));
    assert(paint(pixels, cell, second).subrange(4 * cell, 4 * cell + 4) =~= second@);
}

/// RGBA pixels of the cells of a chunk.
pub struct CanvasPixels {
    pub chunk_size: i32,
    pub texture_data: Vec<u8>,
}

impl CanvasPixels {
    /// The side is positive and there are four bytes for each cell.
    pub open spec fn wf(&self) -> bool {
        &&& 0 < self.chunk_size
        &&& self.chunk_size * self.chunk_size <= i32::MAX
        &&& self.texture_data@.len() == 4 * self.chunk_size * self.chunk_size
    }

    /// Blank canvas of a chunk whose side is `chunk_size` cells.
    pub fn new(chunk_size: i32) -> (canvas: Self)
        requires
            0 < chunk_size,
            chunk_size * chunk_size <= i32::MAX,
        ensures
            canvas.wf(),
            canvas.chunk_size == chunk_size,
            canvas.texture_data@ == blank_pixels((chunk_size * chunk_size) as nat),
    {
        assert(0 <= chunk_size * chunk_size) by (nonlinear_arith)
            requires
                0 < chunk_size,
        ;
        let count = (chunk_size * chunk_size) as usize;
        let mut texture_data: Vec<u8> = Vec::new();
        let mut index: usize = 0;
        while index < count
            invariant
                index <= count,
                count == chunk_size * chunk_size,
                count <= i32::MAX,
                texture_data@ == blank_pixels(index as nat),
            decreases count - index,
        {
            texture_data.push(0);
            texture_data.push(0);
            texture_data.push(0);
            texture_data.push(255);
            index = index + 1;
            assert(texture_data@ =~= blank_pixels(index as nat));
        }
        assert(count * 4 == 4 * chunk_size * chunk_size) by (nonlinear_arith)
            requires
                count == chunk_size * chunk_size,
        ;
        CanvasPixels { chunk_size, texture_data }
    }

    /// Index of the pixel of the cell at `position` of the chunk, which must lie in the chunk.
    pub fn position_to_texture_index(&self, position: GridPosition) -> (index: usize)
        requires
            self.wf(),
            0 <= position.x < self.chunk_size,
            0 <= position.y < self.chunk_size,
        ensures
            index == position.x + position.y * self.chunk_size,
    {
        assert(position.y * self.chunk_size <= (self.chunk_size - 1) * self.chunk_size) by (nonlinear_arith)
            requires
                0 <= position.y < self.chunk_size,
        ;
        assert(0 <= position.y * self.chunk_size) by (nonlinear_arith)
            requires
                0 <= position.y,
                0 < self.chunk_size,
        ;
        assert(position.x + position.y * self.chunk_size < self.chunk_size * self.chunk_size)
            by (nonlinear_arith)
            requires
                0 <= position.x < self.chunk_size,
                0 <= position.y < self.chunk_size,
        ;
        (position.x + position.y * self.chunk_size) as usize
    }

    /// Paints the pixel of the cell where `position` lands with `color`.
    pub fn set_particle(&mut self, position: GridPosition, color: [u8; 4])
        requires
            old(self).wf(),
        ensures
            final(self).wf(),
            final(self).chunk_size == old(self).chunk_size,
            final(self).texture_data@ == paint(
                old(self).texture_data@,
                cell_index(position, old(self).chunk_size),
                color,
            ),
    {
        let mask = self.chunk_size - 1;
        let local = GridPosition::new(position.x & mask, position.y & mask);
        proof {
            let m = mask;
            let x = position.x;
            let y = position.y;
            assert(m >= 0 ==> 0 <= (x & m) <= m && 0 <= (y & m) <= m) by (bit_vector);
        }
        let index = self.position_to_texture_index(local);
        let length = self.texture_data.len();
        assert(index * 4 + 3 < length) by (nonlinear_arith)
            requires
                index == local.x + local.y * self.chunk_size,
                0 <= local.x < self.chunk_size,
                0 <= local.y < self.chunk_size,
                length == 4 * self.chunk_size * self.chunk_size,
        ;
        self.texture_data.set(index * 4, color[0]);
        self.texture_data.set(index * 4 + 1, color[1]);
        self.texture_data.set(index * 4 + 2, color[2]);
        self.texture_data.set(index * 4 + 3, color[3]);
    }
}

} // verus!
