//! Scripted in-memory encoder for tests: it returns a canned buffer or a
//! deterministic pseudo-encoding, and records every call.

use crate::image_encoder::{frame_spec, EncodingKind, FrameSpec, ImageEncoderPort};
use crate::error::ImageEncodingError;
use crate::mat_view::MatView;
use crate::types::PixelFormat;
use vstd::prelude::*;

verus! {

/// Scripted encoder that either returns a user-supplied canned byte buffer
/// or a deterministic pseudo-encoding built from the frame metadata and
/// bytes, recording `(kind, input byte length)` for every call.
///
/// A clone is an independent copy: calls made through it are recorded in
/// the clone only. Handles that must share one record of calls hold a
/// single encoder behind a lock (the application's `SharedImageEncoder`).
#[derive(Debug, Clone, Default)]
pub struct ScriptedImageEncoder {
    canned: Option<Vec<u8>>,
    calls: Vec<(EncodingKind, usize)>,
}

impl ScriptedImageEncoder {
    /// The buffer every call returns, if one is set.
    pub closed spec fn spec_canned(&self) -> Option<Seq<u8>> {
        match self.canned {
            Some(c) => Some(c@),
            None => None,
        }
    }

    /// Every recorded call: `(kind, input byte length)`, oldest first.
    pub closed spec fn spec_calls(&self) -> Seq<(EncodingKind, usize)> {
        self.calls@
    }

    /// An encoder with no canned buffer and no recorded calls.
    pub fn new() -> (e: Self)
        ensures
            e.spec_canned() is None,
            e.spec_calls() == Seq::<(EncodingKind, usize)>::empty(),
    {
        ScriptedImageEncoder { canned: None, calls: Vec::new() }
    }

    /// Make every future call return `bytes`, whatever the encoding kind.
    pub fn set_canned(&mut self, bytes: Vec<u8>)
        ensures
            final(self).spec_canned() == Some(bytes@),
            final(self).spec_calls() == old(self).spec_calls(),
    {
        self.canned = Some(bytes);
    }

    /// Snapshot of every recorded call: `(kind, input length)`.
    pub fn calls(&self) -> (c: Vec<(EncodingKind, usize)>)
        ensures
            c@ == self.spec_calls(),
    {
        let n = self.calls.len();
        let mut c: Vec<(EncodingKind, usize)> = Vec::with_capacity(n);
        let mut i: usize = 0;
        while i < n
            invariant
                n == self.calls@.len(),
                i <= n,
                c@ == self.calls@.take(i as int),
            decreases n - i,
        {
            c.push(self.calls[i]);
            i = i + 1;
            assert(c@ =~= self.calls@.take(i as int));
        }
        assert(self.calls@.take(n as int) =~= self.calls@);
        c
    }
}

/// One-byte tag of a pixel format in the pseudo-encoding.
pub open spec fn spec_pixel_format_tag(pf: PixelFormat) -> u8 {
    match pf {
        PixelFormat::Mono8 => 1,
        PixelFormat::Bgr8 => 2,
        PixelFormat::Rgb8 => 3,
    }
}

/// Stable one-byte tag for a pixel format, making the pseudo-encoding format-aware.
fn pixel_format_tag(pf: PixelFormat) -> (t: u8)
    ensures
        t == spec_pixel_format_tag(pf),
{
    match pf {
        PixelFormat::Mono8 => 1,
        PixelFormat::Bgr8 => 2,
        PixelFormat::Rgb8 => 3,
    }
}

/// The ten magic bytes that open a pseudo-encoding: `FAKE_JPEG`, `FAKE_WEBP`
/// or `FAKE_NONE` followed by a zero byte.
pub open spec fn magic(kind: EncodingKind) -> Seq<u8> {
    match kind {
        EncodingKind::Jpeg => seq![70u8, 65, 75, 69, 95, 74, 80, 69, 71, 0],
        EncodingKind::Webp => seq![70u8, 65, 75, 69, 95, 87, 69, 66, 80, 0],
        EncodingKind::Raw => seq![70u8, 65, 75, 69, 95, 78, 79, 78, 69, 0],
    }
}

/// Little-endian bytes of `v`.
pub open spec fn le_bytes(v: u32) -> Seq<u8> {
    seq![
        (v % 256) as u8,
        ((v / 256) % 256) as u8,
        ((v / 65536) % 256) as u8,
        (v / 16777216) as u8,
    ]
}

/// Magic, width, height and channels as little-endian `u32`s, the format
/// tag, then the frame's bytes.
pub open spec fn pseudo_encoding(frame: FrameSpec, kind: EncodingKind) -> Seq<u8> {
    magic(kind) + le_bytes(frame.width) + le_bytes(frame.height) + le_bytes(frame.channels) + seq![
        spec_pixel_format_tag(frame.pixel_format),
    ] + frame.data
}

fn magic_bytes(kind: EncodingKind) -> (m: Vec<u8>)
    ensures
        m@ == magic(kind),
{
    let m = match kind {
        EncodingKind::Jpeg => vec![70u8, 65, 75, 69, 95, 74, 80, 69, 71, 0],
        EncodingKind::Webp => vec![70u8, 65, 75, 69, 95, 87, 69, 66, 80, 0],
        EncodingKind::Raw => vec![70u8, 65, 75, 69, 95, 78, 79, 78, 69, 0],
    };
    assert(m@ =~= magic(kind));
    m
}

fn push_le_bytes(out: &mut Vec<u8>, v: u32)
    ensures
        final(out)@ == old(out)@ + le_bytes(v),
{
    out.push((v % 256) as u8);
    out.push(((v / 256) % 256) as u8);
    out.push(((v / 65536) % 256) as u8);
    out.push((v / 16777216) as u8);
    assert(out@ =~= old(out)@ + le_bytes(v));
}

/// Append every byte of `bytes` to `out`.
pub fn push_all(out: &mut Vec<u8>, bytes: &[u8])
    ensures
        final(out)@ == old(out)@ + bytes@,
{
    let n = bytes.len();
    let mut i: usize = 0;
    while i < n
        invariant
            n == bytes@.len(),
            i <= n,
            out@ == old(out)@ + bytes@.take(i as int),
        decreases n - i,
    {
        out.push(bytes[i]);
        i = i + 1;
        assert(out@ =~= old(out)@ + bytes@.take(i as int));
    }
    assert(bytes@.take(n as int) =~= bytes@);
}

/// Deterministic pseudo-encoding of a frame.
fn pseudo_encode<M: MatView>(frame: &M, kind: EncodingKind) -> (out: Vec<u8>)
    ensures
        out@ == pseudo_encoding(frame_spec(frame), kind),
{
    let mut out = magic_bytes(kind);
    push_le_bytes(&mut out, frame.width());
    push_le_bytes(&mut out, frame.height());
    push_le_bytes(&mut out, frame.channels());
    out.push(pixel_format_tag(frame.pixel_format()));
    push_all(&mut out, frame.data());
    assert(out@ =~= pseudo_encoding(frame_spec(frame), kind));
    out
}

impl ImageEncoderPort for ScriptedImageEncoder {
    open spec fn spec_encode(&self, frame: FrameSpec, kind: EncodingKind) -> Result<
        Seq<u8>,
        ImageEncodingError,
    > {
        match self.spec_canned() {
            Some(c) => Ok(c),
            None => match kind {
                EncodingKind::Raw => Ok(frame.data),
                _ => Ok(pseudo_encoding(frame, kind)),
            },
        }
    }

    fn encode<M: MatView>(&mut self, frame: &M, kind: EncodingKind) -> (r: Result<
        Vec<u8>,
        ImageEncodingError,
    >)
        ensures
            final(self).spec_calls() == old(self).spec_calls().push(
                (kind, frame.spec_data().len() as usize),
            ),
            final(self).spec_canned() == old(self).spec_canned(),
    {
        let len = frame.data().len();
        self.calls.push((kind, len));
        match &self.canned {
            Some(c) => {
                let out = c.clone();
                assert(out@ =~= c@);
                return Ok(out);
            },
            None => {},
        }
        match kind {
            EncodingKind::Raw => Ok(vstd::slice::slice_to_vec(frame.data())),
            _ => Ok(pseudo_encode(frame, kind)),
        }
    }
}

/// Without a canned buffer, the raw encoding hands back the frame's bytes
/// unchanged, and a canned buffer, once set, is what every encoding returns.
pub proof fn law_raw_passthrough_and_canned_override(
    e: ScriptedImageEncoder,
    frame: FrameSpec,
    kind: EncodingKind,
)
    ensures
        e.spec_canned() is None ==> e.spec_encode(frame, EncodingKind::Raw) == Ok::<
            Seq<u8>,
            ImageEncodingError,
        >(frame.data),
        e.spec_canned() matches Some(c) ==> e.spec_encode(frame, kind) == Ok::<
            Seq<u8>,
            ImageEncodingError,
        >(c),
{
}

/// The JPEG and WebP pseudo-encodings are non-empty, differ from each
/// other, and carry at offset 22 a non-zero tag that tells the three pixel
/// formats apart.
pub proof fn law_pseudo_encoding_shape(frame: FrameSpec, kind: EncodingKind)
    ensures
        pseudo_encoding(frame, kind).len() == 23 + frame.data.len(),
        pseudo_encoding(frame, kind)[22] == spec_pixel_format_tag(frame.pixel_format),
        spec_pixel_format_tag(frame.pixel_format) != 0,
        pseudo_encoding(frame, EncodingKind::Jpeg) != pseudo_encoding(frame, EncodingKind::Webp),
        spec_pixel_format_tag(PixelFormat::Mono8) != spec_pixel_format_tag(PixelFormat::Bgr8),
        spec_pixel_format_tag(PixelFormat::Mono8) != spec_pixel_format_tag(PixelFormat::Rgb8),
        spec_pixel_format_tag(PixelFormat::Bgr8) != spec_pixel_format_tag(PixelFormat::Rgb8),
{
    let j = pseudo_encoding(frame, EncodingKind::Jpeg);
    let w = pseudo_encoding(frame, EncodingKind::Webp);
    assert(j[5] == 74);
    assert(w[5] == 87);
}

/// What an encoder returns depends on its canned buffer alone, not on the
/// calls it has recorded: encoding the same frame twice gives the same bytes.
pub proof fn law_encoding_ignores_call_history(
    a: ScriptedImageEncoder,
    b: ScriptedImageEncoder,
    frame: FrameSpec,
    kind: EncodingKind,
)
    requires
        a.spec_canned() == b.spec_canned(),
    ensures
        a.spec_encode(frame, kind) == b.spec_encode(frame, kind),
{
}

/// The four bytes at `i` read back as a little-endian integer.
pub open spec fn le_value(b: Seq<u8>, i: int) -> int {
    b[i] + 256 * b[i + 1] + 65536 * b[i + 2] + 16777216 * b[i + 3]
}

/// Without a canned buffer, a JPEG or WebP encoding of `frame` is 23 header
/// bytes followed by the frame's own bytes: the text `FAKE_JPEG` or
/// `FAKE_WEBP` and a zero byte, then width, height and channel count, each
/// reading back as a little-endian integer, then the pixel-format tag
/// (1 for Mono8, 2 for Bgr8, 3 for Rgb8).
pub proof fn law_pseudo_encoding_layout(e: ScriptedImageEncoder, frame: FrameSpec, kind: EncodingKind)
    requires
        e.spec_canned() is None,
        kind != EncodingKind::Raw,
    ensures
        e.spec_encode(frame, kind) matches Ok(b) && {
            &&& b.len() == 23 + frame.data.len()
            &&& b.subrange(23, b.len() as int) == frame.data
            &&& kind == EncodingKind::Jpeg ==> b.subrange(0, 10) == seq![
                70u8, 65, 75, 69, 95, 74, 80, 69, 71, 0,
            ]
            &&& kind == EncodingKind::Webp ==> b.subrange(0, 10) == seq![
                70u8, 65, 75, 69, 95, 87, 69, 66, 80, 0,
            ]
            &&& le_value(b, 10) == frame.width
            &&& le_value(b, 14) == frame.height
            &&& le_value(b, 18) == frame.channels
            &&& frame.pixel_format == PixelFormat::Mono8 ==> b[22] == 1
            &&& frame.pixel_format == PixelFormat::Bgr8 ==> b[22] == 2
            &&& frame.pixel_format == PixelFormat::Rgb8 ==> b[22] == 3
        },
{
    let b = pseudo_encoding(frame, kind);
    lemma_le_bytes_read_back(frame.width);
    lemma_le_bytes_read_back(frame.height);
    lemma_le_bytes_read_back(frame.channels);
    let w = le_bytes(frame.width);
    let h = le_bytes(frame.height);
    let c = le_bytes(frame.channels);
    assert(b[10] == w[0] && b[11] == w[1] && b[12] == w[2] && b[13] == w[3]);
    assert(b[14] == h[0] && b[15] == h[1] && b[16] == h[2] && b[17] == h[3]);
    assert(b[18] == c[0] && b[19] == c[1] && b[20] == c[2] && b[21] == c[3]);
    assert(b.subrange(23, b.len() as int) =~= frame.data);
    assert(b.subrange(0, 10) =~= magic(kind));
}

/// The little-endian bytes of `v` read back as `v`.
proof fn lemma_le_bytes_read_back(v: u32)
    ensures
        le_value(le_bytes(v), 0) == v,
{
    let b = le_bytes(v);
    assert(b[0] == v % 256);
    assert(b[1] == (v / 256) % 256);
    assert(b[2] == (v / 65536) % 256);
    assert(b[3] == v / 16777216);
}

} // verus!
