use vstd::prelude::*;

verus! {

/// Bytes per pixel of the RGBA frames that capture sessions deliver.
pub const BYTES_PER_PIXEL: u64 = 4;

/// The abstract content of a frame buffer.
pub struct FrameView {
    pub pixels: Option<Seq<u8>>,
    pub width: int,
    pub height: int,
}

/// Number of bytes of an RGBA frame of the given size.
pub open spec fn frame_len(width: int, height: int) -> int {
    width * height * 4
}

/// A frame buffer never holds pixel data whose size disagrees with its
/// dimensions, and its dimensions are never negative.
pub open spec fn frame_consistent(v: FrameView) -> bool {
    &&& v.width >= 0
    &&& v.height >= 0
    &&& (v.pixels matches Some(p) ==> p.len() == frame_len(v.width, v.height))
}

/// The dimensions that a delivery settles on: the reported ones when both are
/// present and positive, otherwise the ones already held.
pub open spec fn delivered_dimensions(
    current: (int, int),
    width: Option<i32>,
    height: Option<i32>,
) -> (int, int) {
    if width is Some && height is Some && width->0 > 0 && height->0 > 0 {
        (width->0 as int, height->0 as int)
    } else {
        current
    }
}

/// `after` is what a buffer holding `before` holds once a frame `data` was
/// delivered with the given metadata, and `accepted` says whether it was taken.
pub open spec fn delivery(
    before: FrameView,
    after: FrameView,
    width: Option<i32>,
    height: Option<i32>,
    data: Seq<u8>,
    accepted: bool,
) -> bool {
    let dims = delivered_dimensions((before.width, before.height), width, height);
    &&& accepted <==> data.len() == frame_len(dims.0, dims.1)
    &&& accepted ==> after == (FrameView { pixels: Some(data), width: dims.0, height: dims.1 })
    &&& !accepted ==> after == before
}

/// Offset of the first byte of pixel (x, y) in a frame of the given width.
pub open spec fn pixel_offset(width: int, x: int, y: int) -> int {
    (y * width + x) * 4
}

/// The latest frame of one capture session, with its dimensions.
///
/// It is a single-slot mailbox: each accepted delivery replaces the frame and
/// its dimensions together, and a delivery whose size disagrees with its
/// dimensions is turned away.
pub struct FrameBuffer {
    pixels: Option<Vec<u8>>,
    width: i32,
    height: i32,
}

impl View for FrameBuffer {
    type V = FrameView;

    closed spec fn view(&self) -> FrameView {
        FrameView {
            pixels: match self.pixels {
                Some(p) => Some(p@),
                None => None,
            },
            width: self.width as int,
            height: self.height as int,
        }
    }
}

/// Multiplies out the byte length of a frame without overflow.
fn expected_len(width: i32, height: i32) -> (r: u64)
    requires
        width >= 0,
        height >= 0,
    ensures
        r as int == frame_len(width as int, height as int),
{
    assert((width as int) * (height as int) <= 0x7fff_ffff * 0x7fff_ffff) by (nonlinear_arith)
        requires
            0 <= width <= 0x7fff_ffff,
            0 <= height <= 0x7fff_ffff,
    ;
    let area: u64 = (width as u64) * (height as u64);
    area * BYTES_PER_PIXEL
}

impl FrameBuffer {
    #[verifier::type_invariant]
    spec fn inv(self) -> bool {
        frame_consistent(self@)
    }

    /// A buffer with no frame and the given dimensions.
    pub fn with_dimensions(width: i32, height: i32) -> (r: FrameBuffer)
        requires
            width >= 0,
            height >= 0,
        ensures
            r@ == (FrameView { pixels: None, width: width as int, height: height as int }),
    {
        FrameBuffer { pixels: None, width, height }
    }

    /// A buffer with no frame and no size yet.
    pub fn empty() -> (r: FrameBuffer)
        ensures
            r@ == (FrameView { pixels: None, width: 0, height: 0 }),
    {
        FrameBuffer { pixels: None, width: 0, height: 0 }
    }

    /// Every buffer is consistent.
    pub fn check_consistent(&self)
        ensures
            frame_consistent(self@),
    {
        proof {
            use_type_invariant(self);
        }
    }

    /// Offers a newly delivered frame, with the dimensions its format metadata
    /// reported, if any. The frame and the settled dimensions replace the
    /// buffer's content together when the frame has the size those dimensions
    /// call for; otherwise the delivery is rejected and nothing changes.
    pub fn deliver(&mut self, width: Option<i32>, height: Option<i32>, data: Vec<u8>) -> (accepted:
        bool)
        ensures
            delivery(old(self)@, final(self)@, width, height, data@, accepted),
            frame_consistent(final(self)@),
    {
        proof {
            use_type_invariant(&*self);
        }
        let mut new_width = self.width;
        let mut new_height = self.height;
        match (width, height) {
            (Some(w), Some(h)) => {
                if w > 0 && h > 0 {
                    new_width = w;
                    new_height = h;
                }
            },
            _ => {},
        }
        let expected = expected_len(new_width, new_height);
        if data.len() as u64 == expected {
            *self = FrameBuffer { pixels: Some(data), width: new_width, height: new_height };
            true
        } else {
            false
        }
    }

    /// The dimensions the buffer holds.
    pub fn dimensions(&self) -> (r: (i32, i32))
        ensures
            r.0 as int == self@.width,
            r.1 as int == self@.height,
            r.0 >= 0,
            r.1 >= 0,
    {
        proof {
            use_type_invariant(self);
        }
        (self.width, self.height)
    }

    /// The latest frame, if any.
    pub fn pixels(&self) -> (r: Option<&Vec<u8>>)
        ensures
            match r {
                Some(p) => self@.pixels == Some(p@),
                None => self@.pixels is None,
            },
    {
        match &self.pixels {
            Some(p) => Some(p),
            None => None,
        }
    }

    /// A fresh copy of the latest frame, if any: what an encoder that asks
    /// for a frame is handed.
    pub fn snapshot(&self) -> (r: Option<Vec<u8>>)
        ensures
            match r {
                Some(p) => self@.pixels == Some(p@),
                None => self@.pixels is None,
            },
    {
        match &self.pixels {
            Some(p) => Some(p.clone()),
            None => None,
        }
    }

    /// The RGBA value of pixel (x, y) of the latest frame; `None` when there
    /// is no frame or the position lies outside the frame.
    pub fn pixel(&self, x: i32, y: i32) -> (r: Option<[u8; 4]>)
        ensures
            ({
                let v = self@;
                if v.pixels is Some && 0 <= x < v.width && 0 <= y < v.height {
                    let p = v.pixels->0;
                    let o = pixel_offset(v.width, x as int, y as int);
                    r matches Some(px) && px@ == seq![p[o], p[o + 1], p[o + 2], p[o + 3]]
                } else {
                    r is None
                }
            }),
    {
        proof {
            use_type_invariant(self);
        }
        if x < 0 || x >= self.width || y < 0 || y >= self.height {
            return None;
        }
        match &self.pixels {
            None => None,
            Some(frame) => {
                let w = self.width as u64;
                let h = self.height as u64;
                proof {
                    assert(((y as int) * (w as int) + (x as int)) * 4 + 4 <= (w as int) * (h as int)
                        * 4) by (nonlinear_arith)
                        requires
                            0 <= x < w,
                            0 <= y < h,
                    ;
                    assert(frame@.len() == (w as int) * (h as int) * 4);
                }
                let len = frame.len();
                assert(((y as int) * (w as int) + (x as int)) * 4 + 4 <= len);
                let row: u64 = (y as u64) * w;
                let idx: u64 = (row + (x as u64)) * 4;
                let i = idx as usize;
                Some([frame[i], frame[i + 1], frame[i + 2], frame[i + 3]])
            },
        }
    }
}

} // verus!
