//! Frames as they are handed to the engine.

use vstd::prelude::*;

verus! {

/// The number of bytes of a frame of the given dimensions, at one byte per
/// channel.
pub open spec fn frame_bytes(width: int, height: int, channels: int) -> int {
    width * height * channels
}

/// The dimensions are such that a frame can have them: neither side is
/// negative, and a pixel has at least one channel.
pub open spec fn dimensions_ok(width: i32, height: i32, channels: i32) -> bool {
    width >= 0 && height >= 0 && channels >= 1
}

/// A frame: `height` contiguous rows of `width` pixels, each pixel
/// `channels` bytes.
///
/// The engine is given the buffer with its width and height and reads that
/// many bytes. A `Frame` cannot be built with a buffer of another length, so
/// a call made from one stays inside the buffer. Which channels a pixel has,
/// and in what order, is for the caller and the engine to agree on.
#[derive(Debug, PartialEq, Eq)]
pub struct Frame {
    data: Vec<u8>,
    width: i32,
    height: i32,
    channels: i32,
}

impl Frame {
    #[verifier::type_invariant]
    spec fn consistent(&self) -> bool {
        &&& dimensions_ok(self.width, self.height, self.channels)
        &&& self.data@.len() == frame_bytes(self.width as int, self.height as int, self.channels as int)
    }

    /// The pixel bytes, row after row.
    pub closed spec fn pixels(&self) -> Seq<u8> {
        self.data@
    }

    /// The number of pixels in a row.
    pub closed spec fn spec_width(&self) -> i32 {
        self.width
    }

    /// The number of rows.
    pub closed spec fn spec_height(&self) -> i32 {
        self.height
    }

    /// The number of bytes in a pixel.
    pub closed spec fn spec_channels(&self) -> i32 {
        self.channels
    }

    /// Makes a frame of a pixel buffer and its dimensions.
    ///
    /// `None` unless the dimensions are possible and the buffer is exactly
    /// `width * height * channels` bytes long.
    pub fn new(data: Vec<u8>, width: i32, height: i32, channels: i32) -> (frame: Option<Frame>)
        ensures
            frame is Some <==> dimensions_ok(width, height, channels) && data@.len() == frame_bytes(
                width as int,
                height as int,
                channels as int,
            ),
            frame matches Some(f) ==> f.pixels() == data@ && f.width() == width && f.height()
                == height && f.channels() == channels,
    {
        if width < 0 || height < 0 || channels < 1 {
            return None;
        }
        assert(0 <= width * height <= 0x7fff_ffff * 0x7fff_ffff) by (nonlinear_arith)
            requires
                0 <= width <= 0x7fff_ffff,
                0 <= height <= 0x7fff_ffff,
        ;
        let area: u64 = (width as u64) * (height as u64);
        let len: u64 = data.len() as u64;
        match area.checked_mul(channels as u64) {
            Some(total) => {
                if len == total {
                    Some(Frame { data, width, height, channels })
                } else {
                    None
                }
            },
            None => None,
        }
    }

    /// The number of pixels in a row.
    #[verifier::when_used_as_spec(spec_width)]
    pub fn width(&self) -> (w: i32)
        ensures
            w == self.spec_width(),
            w >= 0,
    {
        proof {
            use_type_invariant(self);
        }
        self.width
    }

    /// The number of rows.
    #[verifier::when_used_as_spec(spec_height)]
    pub fn height(&self) -> (h: i32)
        ensures
            h == self.spec_height(),
            h >= 0,
    {
        proof {
            use_type_invariant(self);
        }
        self.height
    }

    /// The number of bytes in a pixel.
    #[verifier::when_used_as_spec(spec_channels)]
    pub fn channels(&self) -> (c: i32)
        ensures
            c == self.spec_channels(),
            c >= 1,
    {
        proof {
            use_type_invariant(self);
        }
        self.channels
    }

    /// The pixel bytes, row after row: `width * height * channels` of them.
    pub fn data(&self) -> (bytes: &Vec<u8>)
        ensures
            bytes@ == self.pixels(),
            bytes@.len() == frame_bytes(
                self.width() as int,
                self.height() as int,
                self.channels() as int,
            ),
    {
        proof {
            use_type_invariant(self);
        }
        &self.data
    }

    /// Gives the pixel buffer back.
    pub fn into_data(self) -> (bytes: Vec<u8>)
        ensures
            bytes@ == self.pixels(),
    {
        self.data
    }
}

} // verus!
