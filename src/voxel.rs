//! The voxel colour grid and the bytes it is uploaded as.
use vstd::prelude::*;

verus! {

/// Cells along one side of the grid.
pub const GRID_SIDE: usize = 16;

/// Cells in one grid: `GRID_SIDE` cubed.
pub const CELL_COUNT: usize = 4096;

/// Bytes of the GPU buffer that holds one grid: four per cell.
pub const BUFFER_SIZE: usize = 16384;

/// The four bytes of a packed colour, least significant first.
pub open spec fn cell_bytes(c: u32) -> Seq<u8> {
    seq![
        (c & 0xffu32) as u8,
        ((c >> 8u32) & 0xffu32) as u8,
        ((c >> 16u32) & 0xffu32) as u8,
        ((c >> 24u32) & 0xffu32) as u8,
    ]
}

/// The buffer contents for a run of packed colours: each colour's bytes, in order.
pub open spec fn color_bytes(cells: Seq<u32>) -> Seq<u8>
    decreases cells.len(),
{
    if cells.len() == 0 {
        Seq::empty()
    } else {
        color_bytes(cells.drop_last()) + cell_bytes(cells.last())
    }
}

pub proof fn lemma_color_bytes_len(cells: Seq<u32>)
    ensures
        color_bytes(cells).len() == 4 * cells.len(),
    decreases cells.len(),
{
    if cells.len() > 0 {
        lemma_color_bytes_len(cells.drop_last());
    }
}

/// Byte `i` of the buffer is byte `i % 4` (least significant first) of cell
/// `i / 4`: the buffer holds the cells' colours byte for byte, in cell order.
pub proof fn lemma_color_bytes_index(cells: Seq<u32>)
    ensures
        color_bytes(cells).len() == 4 * cells.len(),
        forall|i: int|
            0 <= i < 4 * cells.len() ==> #[trigger] color_bytes(cells)[i] == cell_bytes(
                cells[i / 4],
            )[i % 4],
    decreases cells.len(),
{
    lemma_color_bytes_len(cells);
    if cells.len() > 0 {
        let prefix = cells.drop_last();
        lemma_color_bytes_index(prefix);
        let n = prefix.len();
        assert forall|i: int| 0 <= i < 4 * cells.len() implies #[trigger] color_bytes(cells)[i]
            == cell_bytes(cells[i / 4])[i % 4] by {
            if i < 4 * n {
                assert(color_bytes(cells)[i] == color_bytes(prefix)[i]);
                assert(prefix[i / 4] == cells[i / 4]);
            } else {
                assert(i / 4 == n);
                assert(color_bytes(cells)[i] == cell_bytes(cells.last())[i - 4 * n]);
            }
        }
    }
}

/// A 16 x 16 x 16 grid of packed RGBA colours; 0 is transparent.
pub struct VoxelData(pub [u32; 4096]);

/// Which uses a GPU buffer is created for.
#[derive(Clone, Copy, Debug, PartialEq, Eq, Structural)]
pub struct BufferUsages {
    pub uniform: bool,
    pub copy_dst: bool,
}

/// What is needed to create the GPU buffer of one voxel grid.
pub struct BufferInit {
    pub contents: Vec<u8>,
    pub usage: BufferUsages,
}

impl VoxelData {
    /// The grid with every cell transparent.
    pub fn default() -> (r: VoxelData)
        ensures
            forall|i: int| 0 <= i < CELL_COUNT ==> r.0@[i] == 0,
    {
        VoxelData([0u32; 4096])
    }

    /// The copy of the grid that the render side keeps.
    pub fn extract_asset(&self) -> (r: VoxelData)
        ensures
            r.0@ == self.0@,
    {
        VoxelData(self.0)
    }

    /// The bytes uploaded for the grid: every cell's colour, least significant
    /// byte first, in the grid's order.
    pub fn buffer_contents(&self) -> (r: Vec<u8>)
        ensures
            r@ == color_bytes(self.0@),
            r@.len() == BUFFER_SIZE,
            forall|i: int|
                0 <= i < BUFFER_SIZE ==> #[trigger] r@[i] == cell_bytes(self.0@[i / 4])[i % 4],
    {
        let mut out: Vec<u8> = Vec::with_capacity(BUFFER_SIZE);
        let mut i: usize = 0;
        while i < CELL_COUNT
            invariant
                i <= CELL_COUNT,
                self.0@.len() == CELL_COUNT,
                out@ == color_bytes(self.0@.subrange(0, i as int)),
            decreases CELL_COUNT - i,
        {
            let c = self.0[i];
            out.push((c & 0xff) as u8);
            out.push(((c >> 8) & 0xff) as u8);
            out.push(((c >> 16) & 0xff) as u8);
            out.push(((c >> 24) & 0xff) as u8);
            proof {
                let next = self.0@.subrange(0, i + 1);
                assert(next.drop_last() =~= self.0@.subrange(0, i as int));
                assert(next.last() == c);
            }
            i = i + 1;
        }
        proof {
            assert(self.0@.subrange(0, CELL_COUNT as int) =~= self.0@);
            lemma_color_bytes_index(self.0@);
        }
        out
    }

    /// The buffer to create for the grid: its bytes, readable as a uniform and
    /// writable by copies.
    pub fn prepare_asset(&self) -> (r: BufferInit)
        ensures
            r.contents@ == color_bytes(self.0@),
            r.contents@.len() == BUFFER_SIZE,
            r.usage == (BufferUsages { uniform: true, copy_dst: true }),
    {
        BufferInit { contents: self.buffer_contents(), usage: BufferUsages { uniform: true, copy_dst: true } }
    }
}

/// The component that gives an entity its voxel grid: the handle of a
/// `VoxelData` asset, which many entities may share.
#[derive(Clone, Copy, Debug, PartialEq, Eq, Structural)]
pub struct Voxel {
    pub data: u64,
}

impl Voxel {
    /// The component as the render side receives it.
    pub fn extract_component(&self) -> (r: Voxel)
        ensures
            r == *self,
    {
        *self
    }
}

} // verus!
