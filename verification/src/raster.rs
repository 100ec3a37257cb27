//! Single-channel rasters and their mathematical model.

use vstd::prelude::*;

verus! {

/// What a raster is, mathematically: its dimensions and its samples in
/// row-major order, top-left sample first.
pub struct Grid<T> {
    pub width: nat,
    pub height: nat,
    pub cells: Seq<T>,
}

/// A single-channel image with samples of type `T`, stored row by row.
#[derive(Clone, Debug, PartialEq, Eq)]
pub struct Raster<T> {
    pub width: u32,
    pub height: u32,
    pub pixels: Vec<T>,
}

impl<T> View for Raster<T> {
    type V = Grid<T>;

    open spec fn view(&self) -> Grid<T> {
        Grid { width: self.width as nat, height: self.height as nat, cells: self.pixels@ }
    }
}

impl<T> Grid<T> {
    /// The grid holds exactly one sample for each position.
    pub open spec fn wf(self) -> bool {
        self.cells.len() == self.width * self.height
    }

    /// The grid has a sample, and all its samples are the same.
    pub open spec fn is_uniform(self) -> bool {
        &&& self.cells.len() > 0
        &&& forall|i: int| 0 <= i < self.cells.len() ==> #[trigger] self.cells[i] == self.cells[0]
    }
}

impl<T> Raster<T> {
    /// The raster holds exactly one sample for each position.
    pub open spec fn wf(&self) -> bool {
        self@.wf()
    }

    /// Builds a raster from its dimensions and its samples in row-major
    /// order. Gives `None` exactly when the number of samples is not
    /// `width * height`.
    pub fn new(width: u32, height: u32, pixels: Vec<T>) -> (r: Option<Raster<T>>)
        ensures
            r is Some <==> pixels@.len() == width as nat * height as nat,
            r matches Some(raster) ==> raster.wf() && raster.width == width && raster.height
                == height && raster.pixels == pixels,
    {
        assert(width as nat * height as nat <= u64::MAX) by (nonlinear_arith)
            requires
                width <= u32::MAX,
                height <= u32::MAX,
        ;
        let expected: u64 = (width as u64) * (height as u64);
        if pixels.len() as u64 == expected {
            Some(Raster { width, height, pixels })
        } else {
            None
        }
    }
}

} // verus!
