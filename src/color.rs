//! The average color of an image: decoded and, past 100 pixels on a side,
//! shrunk by the `image` crate, then averaged channel by channel.

use vstd::prelude::*;

verus! {

/// An RGBA image with eight bits per channel, row by row.
pub struct Pixels {
    width: u32,
    height: u32,
    rgba: Vec<u8>,
}

/// The abstract value of an image: width, height and channel bytes.
pub type PixelsView = (u32, u32, Seq<u8>);

impl View for Pixels {
    type V = PixelsView;

    closed spec fn view(&self) -> PixelsView {
        (self.width, self.height, self.rgba@)
    }
}

/// `v` holds four bytes for each of its pixels.
pub open spec fn well_sized(v: PixelsView) -> bool {
    v.2.len() == 4 * ((v.0 as nat) * (v.1 as nat))
}

impl Pixels {
    #[verifier::type_invariant]
    spec fn wf(self) -> bool {
        well_sized((self.width, self.height, self.rgba@))
    }

    /// An image of `width` by `height` pixels from its RGBA bytes, or nothing
    /// when there are not exactly four bytes per pixel.
    pub fn new(width: u32, height: u32, rgba: Vec<u8>) -> (r: Option<Pixels>)
        ensures
            r matches Some(p) ==> p@ == (width, height, rgba@),
            r is Some <==> rgba@.len() == 4 * ((width as nat) * (height as nat)),
    {
        assert((width as nat) * (height as nat) <= 0xffff_fffe_0000_0001) by (nonlinear_arith)
            requires
                width <= 0xffff_ffff,
                height <= 0xffff_ffff,
        ;
        let pixels: u64 = (width as u64) * (height as u64);
        let len = rgba.len();
        if pixels <= (usize::MAX / 4) as u64 && len == (pixels * 4) as usize {
            Some(Pixels { width, height, rgba })
        } else {
            None
        }
    }

    /// The width in pixels.
    pub fn width(&self) -> (r: u32)
        ensures
            r == self@.0,
    {
        self.width
    }

    /// The height in pixels.
    pub fn height(&self) -> (r: u32)
        ensures
            r == self@.1,
    {
        self.height
    }

    /// The RGBA bytes, row by row: four for each pixel.
    pub fn rgba(&self) -> (r: &Vec<u8>)
        ensures
            r@ == self@.2,
            well_sized(self@),
    {
        proof {
            use_type_invariant(self);
        }
        &self.rgba
    }
}

/// The neutral color handed out when an image cannot be fetched in time or
/// decoded.
pub open spec fn fallback_color() -> Seq<u8> {
    seq![128u8, 128u8, 128u8]
}

/// The sum of channel `channel` over the first `pixels` pixels.
pub open spec fn channel_total(rgba: Seq<u8>, channel: int, pixels: nat) -> nat
    decreases pixels,
{
    if pixels == 0 {
        0
    } else {
        channel_total(rgba, channel, (pixels - 1) as nat) + rgba[4 * (pixels - 1) + channel] as nat
    }
}

/// The mean red, green and blue of an image, rounded down, alpha ignored;
/// black for an image without pixels.
pub open spec fn mean_color(v: PixelsView) -> Seq<u8> {
    let n = (v.0 as nat) * (v.1 as nat);
    if n == 0 {
        seq![0u8, 0u8, 0u8]
    } else {
        seq![
            (channel_total(v.2, 0, n) / n) as u8,
            (channel_total(v.2, 1, n) / n) as u8,
            (channel_total(v.2, 2, n) / n) as u8,
        ]
    }
}

/// What `DynamicImage::thumbnail` makes of an RGBA image for the given bounds.
pub uninterp spec fn thumbnail_rgba(v: PixelsView, max_width: u32, max_height: u32) -> PixelsView;

/// What `image::load_from_memory` decodes from `bytes`, as RGBA; nothing when
/// the bytes are no image it can read.
pub uninterp spec fn decoded_rgba(bytes: Seq<u8>) -> Option<PixelsView>;

/// Relies on `image::RgbaImage::from_raw`, `DynamicImage::thumbnail` and
/// `DynamicImage::into_rgba8`: the image is scaled down, its aspect ratio
/// kept, to fit within the bounds, and is at least one pixel on each side.
#[verifier::external_body]
fn thumbnail(img: &Pixels, max_width: u32, max_height: u32) -> (r: Pixels)
    requires
        img@.0 >= 1,
        img@.1 >= 1,
        max_width >= 1,
        max_height >= 1,
    ensures
        r@ == thumbnail_rgba(img@, max_width, max_height),
        1 <= r@.0 <= max_width,
        1 <= r@.1 <= max_height,
{
    let buffer = image::RgbaImage::from_raw(img.width, img.height, img.rgba.clone()).unwrap();
    let small = image::DynamicImage::ImageRgba8(buffer).thumbnail(max_width, max_height).into_rgba8();
    Pixels { width: small.width(), height: small.height(), rgba: small.into_raw() }
}

/// Relies on `image::load_from_memory` and `DynamicImage::into_rgba8`: the
/// format is guessed from the bytes, and the decoded image is converted to
/// RGBA with eight bits per channel.
#[verifier::external_body]
fn decode_rgba(bytes: &[u8]) -> (r: Option<Pixels>)
    ensures
        opt_pixels(r) == decoded_rgba(bytes@),
{
    match image::load_from_memory(bytes) {
        Ok(img) => {
            let rgba = img.into_rgba8();
            Some(Pixels { width: rgba.width(), height: rgba.height(), rgba: rgba.into_raw() })
        },
        Err(_) => None,
    }
}

/// The view of an optional image.
pub open spec fn opt_pixels(p: Option<Pixels>) -> Option<PixelsView> {
    match p {
        Some(v) => Some(v@),
        None => None,
    }
}

/// The image that is averaged: past 100 pixels on a side it is first shrunk
/// to fit within `min(width, 100)` by `min(height, 100)`.
pub open spec fn downsampled(v: PixelsView) -> PixelsView {
    if v.0 > 100 || v.1 > 100 {
        thumbnail_rgba(
            v,
            if v.0 < 100 { v.0 } else { 100 },
            if v.1 < 100 { v.1 } else { 100 },
        )
    } else {
        v
    }
}

/// The color of an image: black without pixels, else the mean color of its
/// downsampled form.
pub open spec fn dominant_color(v: PixelsView) -> Seq<u8> {
    if (v.0 as nat) * (v.1 as nat) == 0 {
        seq![0u8, 0u8, 0u8]
    } else {
        mean_color(downsampled(v))
    }
}

/// The color of an encoded image: its dominant color, or the neutral color
/// when it cannot be decoded.
pub open spec fn color_of_bytes(bytes: Seq<u8>) -> Seq<u8> {
    match decoded_rgba(bytes) {
        Some(v) => dominant_color(v),
        None => fallback_color(),
    }
}

/// The mean red, green and blue of an image, alpha ignored, rounded down;
/// black for an image without pixels.
pub fn average_rgb(img: &Pixels) -> (r: Vec<u8>)
    ensures
        r@ == mean_color(img@),
{
    let data = img.rgba();
    let n: usize = data.len() / 4;
    if n == 0 {
        return vec![0u8, 0u8, 0u8];
    }
    let mut red: u128 = 0;
    let mut green: u128 = 0;
    let mut blue: u128 = 0;
    let mut i: usize = 0;
    while i < n
        invariant
            data@ == img@.2,
            data@.len() == 4 * n,
            data@.len() <= usize::MAX,
            i <= n,
            red == channel_total(data@, 0, i as nat),
            green == channel_total(data@, 1, i as nat),
            blue == channel_total(data@, 2, i as nat),
            red <= 255 * i,
            green <= 255 * i,
            blue <= 255 * i,
        decreases n - i,
    {
        assert(4 * i + 3 < data@.len());
        red = red + data[4 * i] as u128;
        green = green + data[4 * i + 1] as u128;
        blue = blue + data[4 * i + 2] as u128;
        i = i + 1;
    }
    let count = n as u128;
    proof {
        assert(red / count <= 255) by (nonlinear_arith)
            requires
                red <= 255 * count,
                count > 0,
        ;
        assert(green / count <= 255) by (nonlinear_arith)
            requires
                green <= 255 * count,
                count > 0,
        ;
        assert(blue / count <= 255) by (nonlinear_arith)
            requires
                blue <= 255 * count,
                count > 0,
        ;
    }
    let r = vec![(red / count) as u8, (green / count) as u8, (blue / count) as u8];
    assert(r@ =~= mean_color(img@));
    r
}

/// The color of an image: the mean of its pixels, after shrinking it to fit
/// within 100 by 100 when it is larger; black for an image without pixels.
pub fn get_dominant_color(img: &Pixels) -> (r: Vec<u8>)
    ensures
        r@ == dominant_color(img@),
        r@.len() == 3,
        (img@.0 as nat) * (img@.1 as nat) != 0 ==> {
            let t = downsampled(img@);
            &&& 1 <= t.0 <= 100
            &&& 1 <= t.1 <= 100
            &&& well_sized(t)
        },
{
    let w = img.width();
    let h = img.height();
    if w == 0 || h == 0 {
        assert((w as nat) * (h as nat) == 0) by (nonlinear_arith)
            requires
                w == 0 || h == 0,
        ;
        return vec![0u8, 0u8, 0u8];
    }
    assert((w as nat) * (h as nat) != 0) by (nonlinear_arith)
        requires
            w >= 1,
            h >= 1,
    ;
    if w > 100 || h > 100 {
        let max_w = if w < 100 { w } else { 100 };
        let max_h = if h < 100 { h } else { 100 };
        let small = thumbnail(img, max_w, max_h);
        let _ = small.rgba();
        average_rgb(&small)
    } else {
        let _ = img.rgba();
        average_rgb(img)
    }
}

proof fn lemma_channel_total_bounds(v: PixelsView, c: int, k: nat, lo: u8, hi: u8)
    requires
        well_sized(v),
        0 <= c < 3,
        k <= (v.0 as nat) * (v.1 as nat),
        forall|i: int|
            0 <= i < (v.0 as nat) * (v.1 as nat) ==> lo <= #[trigger] v.2[4 * i + c] <= hi,
    ensures
        (lo as nat) * k <= channel_total(v.2, c, k) <= (hi as nat) * k,
    decreases k,
{
    if k > 0 {
        lemma_channel_total_bounds(v, c, (k - 1) as nat, lo, hi);
        let b = v.2[4 * (k - 1) + c];
        assert(lo <= b <= hi);
        assert((lo as nat) * k == (lo as nat) * ((k - 1) as nat) + lo) by (nonlinear_arith)
            requires
                k > 0,
        ;
        assert((hi as nat) * k == (hi as nat) * ((k - 1) as nat) + hi) by (nonlinear_arith)
            requires
                k > 0,
        ;
    }
}

/// Each channel of the mean color lies between the least and the greatest
/// value of that channel over the image's pixels.
pub proof fn mean_within_channel_range(v: PixelsView, c: int, lo: u8, hi: u8)
    requires
        well_sized(v),
        (v.0 as nat) * (v.1 as nat) > 0,
        0 <= c < 3,
        forall|i: int|
            0 <= i < (v.0 as nat) * (v.1 as nat) ==> lo <= #[trigger] v.2[4 * i + c] <= hi,
    ensures
        lo <= mean_color(v)[c] <= hi,
{
    let n = (v.0 as nat) * (v.1 as nat);
    lemma_channel_total_bounds(v, c, n, lo, hi);
    let t = channel_total(v.2, c, n);
    assert(lo as nat <= t / n <= hi as nat) by (nonlinear_arith)
        requires
            (lo as nat) * n <= t <= (hi as nat) * n,
            n > 0,
    ;
}

/// The color of an image that has been decoded, or the neutral color when
/// it could not be.
pub fn color_from_decoded(decoded: Option<Pixels>) -> (r: Vec<u8>)
    ensures
        r@ == match opt_pixels(decoded) {
            Some(v) => dominant_color(v),
            None => fallback_color(),
        },
{
    match decoded {
        Some(img) => get_dominant_color(&img),
        None => vec![128u8, 128u8, 128u8],
    }
}

/// The color of an encoded image, or the neutral color when it cannot be
/// decoded.
pub fn color_of_image_bytes(bytes: &[u8]) -> (r: Vec<u8>)
    ensures
        r@ == color_of_bytes(bytes@),
{
    color_from_decoded(decode_rgba(bytes))
}

/// How fetching an image ended.
pub enum ImageFetch {
    /// The image's bytes arrived.
    Body(Vec<u8>),
    /// The request did not complete within its time limit.
    TimedOut,
    /// The request was answered but its body could not be read.
    BodyFailed,
    /// The request could not be sent.
    SendFailed(String),
}

/// Why no color could be had for an image.
#[derive(Debug)]
pub enum ColorError {
    /// The image could not be requested.
    Fetch(String),
}

/// The color of a fetched image. A fetch that timed out, a body that could
/// not be read and bytes that are no image give the neutral color; only a
/// request that could not be sent at all is an error.
pub fn get_image_color(fetch: ImageFetch) -> (r: Result<Vec<u8>, ColorError>)
    ensures
        match fetch {
            ImageFetch::Body(bytes) => r matches Ok(c) && c@ == color_of_bytes(bytes@),
            ImageFetch::TimedOut => r matches Ok(c) && c@ == fallback_color(),
            ImageFetch::BodyFailed => r matches Ok(c) && c@ == fallback_color(),
            ImageFetch::SendFailed(m) => r matches Err(ColorError::Fetch(e)) && e@ == m@,
        },
{
    match fetch {
        ImageFetch::Body(bytes) => Ok(color_of_image_bytes(bytes.as_slice())),
        ImageFetch::TimedOut => Ok(vec![128u8, 128u8, 128u8]),
        ImageFetch::BodyFailed => Ok(vec![128u8, 128u8, 128u8]),
        ImageFetch::SendFailed(message) => Err(ColorError::Fetch(message)),
    }
}

} // verus!
