use vstd::prelude::*;

verus! {

/// The mathematical value of an image: its dimensions and its raw bytes.
pub struct ImageView {
    pub width: nat,
    pub height: nat,
    pub pixels: Seq<u8>,
}

impl ImageView {
    /// A well-formed image holds exactly four bytes (red, green, blue,
    /// alpha) per pixel, and is small enough that the byte counts the
    /// image service computes (`4 * width`, then times `height`) fit a
    /// machine word.
    pub open spec fn wf(self) -> bool {
        &&& self.pixels.len() == 4 * self.width * self.height
        &&& 4 * self.width <= usize::MAX
        &&& 4 * self.width * self.height <= usize::MAX
    }
}

/// An owned RGBA bitmap: `pixels` holds `4 * width * height` bytes in
/// row-major order, four bytes per pixel.
pub struct Image {
    pub width: u32,
    pub height: u32,
    pub pixels: Vec<u8>,
}

impl View for Image {
    type V = ImageView;

    open spec fn view(&self) -> ImageView {
        ImageView {
            width: self.width as nat,
            height: self.height as nat,
            pixels: self.pixels@,
        }
    }
}

impl Image {
    pub open spec fn wf(self) -> bool {
        self@.wf()
    }

    /// Builds an image from raw RGBA bytes; rejects data whose length does
    /// not match the dimensions, and dimensions whose byte counts would
    /// not fit a machine word.
    pub fn new(width: u32, height: u32, pixels: Vec<u8>) -> (r: Option<Image>)
        ensures
            r is Some <==> (pixels@.len() == 4 * (width as nat) * (height as nat) && 4 * (
            width as nat) <= usize::MAX),
            r matches Some(img) ==> img.width == width && img.height == height
                && img.pixels@ == pixels@ && img.wf(),
    {
        let n: usize = pixels.len();
        let w64: u64 = width as u64;
        let h64: u64 = height as u64;
        proof {
            assert((w64 as int) * (h64 as int) <= 0xffff_fffe_0000_0001int) by (nonlinear_arith)
                requires
                    w64 <= 0xffff_ffffu64,
                    h64 <= 0xffff_ffffu64,
            ;
        }
        let area: u64 = w64 * h64;
        proof {
            let w = width as nat;
            let h = height as nat;
            assert(4 * w * h == 4 * (w * h)) by (nonlinear_arith);
        }
        if w64 <= usize::MAX as u64 / 4 && area <= usize::MAX as u64 / 4 {
            if n as u64 == 4 * area {
                Some(Image { width, height, pixels })
            } else {
                None
            }
        } else {
            None
        }
    }

    /// An independent copy: fresh storage, equal value.
    pub fn duplicate(&self) -> (r: Image)
        ensures
            r@ == self@,
    {
        let mut bytes: Vec<u8> = Vec::new();
        let mut i: usize = 0;
        while i < self.pixels.len()
            invariant
                0 <= i <= self.pixels@.len(),
                bytes@ == self.pixels@.subrange(0, i as int),
            decreases self.pixels@.len() - i,
        {
            bytes.push(self.pixels[i]);
            proof {
                assert(bytes@ =~= self.pixels@.subrange(0, i + 1));
            }
            i += 1;
        }
        proof {
            assert(bytes@ =~= self.pixels@);
        }
        Image { width: self.width, height: self.height, pixels: bytes }
    }
}

} // verus!
