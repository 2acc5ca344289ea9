//! Captured screen pixels: greyscale and RGB matrices, row-major.
use vstd::prelude::*;

verus! {

/// A greyscale capture: `data[y * width + x]` is the luma of pixel `(x, y)`.
#[derive(Debug)]
pub struct GrayMatrix {
    pub width: usize,
    pub height: usize,
    pub data: Vec<u8>,
}

/// An RGB capture: `data[y * width + x]` is `[r, g, b]` of pixel `(x, y)`.
#[derive(Debug)]
pub struct RgbMatrix {
    pub width: usize,
    pub height: usize,
    pub data: Vec<[u8; 3]>,
}

/// Statistics of the pixels a scan selects: how many there are, and their
/// bounding box.
pub struct BlobStats {
    pub count: int,
    pub min_x: int,
    pub min_y: int,
    pub max_x: int,
    pub max_y: int,
}

/// One pixel folded onto the statistics; only a selected pixel changes them.
pub open spec fn blob_step(st: BlobStats, bright: bool, dx: int, dy: int) -> BlobStats {
    if bright {
        BlobStats {
            count: st.count + 1,
            min_x: if dx < st.min_x { dx } else { st.min_x },
            min_y: if dy < st.min_y { dy } else { st.min_y },
            max_x: if dx > st.max_x { dx } else { st.max_x },
            max_y: if dy > st.max_y { dy } else { st.max_y },
        }
    } else {
        st
    }
}

pub proof fn lemma_index_in_bounds(x: int, y: int, w: int, h: int)
    requires
        0 <= x < w,
        0 <= y < h,
    ensures
        0 <= y * w + x < w * h,
{
    assert(y * w + x < w * h) by (nonlinear_arith)
        requires
            0 <= x < w,
            0 <= y < h,
    ;
    assert(0 <= y * w) by (nonlinear_arith)
        requires
            0 <= y,
            0 <= w,
    ;
}

/// Row `y` lies inside a `w × h` row-major buffer.
pub proof fn lemma_row_in_bounds(y: int, w: int, h: int)
    requires
        0 <= y < h,
        0 <= w,
    ensures
        0 <= y * w,
        y * w + w <= w * h,
{
    assert(y * w + w <= w * h) by (nonlinear_arith)
        requires
            0 <= y < h,
            0 <= w,
    ;
    assert(0 <= y * w) by (nonlinear_arith)
        requires
            0 <= y,
            0 <= w,
    ;
}

impl GrayMatrix {
    /// The data holds exactly one value per pixel.
    pub open spec fn wf(&self) -> bool {
        self.data@.len() == self.width * self.height
    }

    /// Luma of pixel `(x, y)`.
    pub open spec fn px(&self, x: int, y: int) -> u8 {
        self.data@[y * self.width + x]
    }

    /// The pixels of row `y`, left to right.
    pub open spec fn row(&self, y: int) -> Seq<u8> {
        self.data@.subrange(y * self.width, y * self.width + self.width)
    }

    pub fn get(&self, x: usize, y: usize) -> (v: u8)
        requires
            self.wf(),
            x < self.width,
            y < self.height,
        ensures
            v == self.px(x as int, y as int),
    {
        let n = self.data.len();
        proof {
            lemma_index_in_bounds(x as int, y as int, self.width as int, self.height as int);
        }
        self.data[y * self.width + x]
    }
}

impl RgbMatrix {
    pub open spec fn wf(&self) -> bool {
        self.data@.len() == self.width * self.height
    }

    pub open spec fn px(&self, x: int, y: int) -> [u8; 3] {
        self.data@[y * self.width + x]
    }

    pub fn get(&self, x: usize, y: usize) -> (v: [u8; 3])
        requires
            self.wf(),
            x < self.width,
            y < self.height,
        ensures
            v == self.px(x as int, y as int),
    {
        let n = self.data.len();
        proof {
            lemma_index_in_bounds(x as int, y as int, self.width as int, self.height as int);
        }
        self.data[y * self.width + x]
    }
}

} // verus!
