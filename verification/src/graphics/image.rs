use vstd::prelude::*;

verus! {

/// One pixel as three 8-bit samples.
#[derive(Clone, Copy, Debug, PartialEq, Eq, Structural)]
pub struct Rgb {
    pub r: u8,
    pub g: u8,
    pub b: u8,
}

/// Sample `c` of a pixel: 0 is red, 1 is green, anything else is blue.
pub open spec fn channel(p: Rgb, c: int) -> u8 {
    if c == 0 {
        p.r
    } else if c == 1 {
        p.g
    } else {
        p.b
    }
}

/// The samples of `pixels` as one run of bytes: red, green and blue of the
/// first pixel, then of the second, and so on.
pub open spec fn interleaved(pixels: Seq<Rgb>) -> Seq<u8> {
    Seq::new(3 * pixels.len(), |k: int| channel(pixels[k / 3], k % 3))
}

/// Lays the pixels out as interleaved bytes, three for each pixel.
pub fn pack_rgb(pixels: &Vec<Rgb>) -> (bytes: Vec<u8>)
    ensures
        bytes@ == interleaved(pixels@),
{
    let mut bytes: Vec<u8> = Vec::new();
    let mut k: usize = 0;
    while k < pixels.len()
        invariant
            k <= pixels.len(),
            bytes@ == interleaved(pixels@.take(k as int)),
        decreases pixels.len() - k,
    {
        let p = pixels[k];
        bytes.push(p.r);
        bytes.push(p.g);
        bytes.push(p.b);
        k = k + 1;
        assert(bytes@ =~= interleaved(pixels@.take(k as int)));
    }
    assert(pixels@.take(k as int) =~= pixels@);
    bytes
}

/// Reads interleaved bytes back as pixels. A run whose length is no
/// multiple of three is refused.
pub fn unpack_rgb(bytes: &Vec<u8>) -> (pixels: Option<Vec<Rgb>>)
    ensures
        bytes@.len() % 3 == 0 ==> (pixels matches Some(p) && interleaved(p@) == bytes@),
        bytes@.len() % 3 != 0 ==> pixels.is_none(),
{
    if bytes.len() % 3 != 0 {
        return None;
    }
    let n = bytes.len() / 3;
    let mut pixels: Vec<Rgb> = Vec::new();
    let mut k: usize = 0;
    while k < n
        invariant
            k <= n,
            bytes@.len() == 3 * n,
            3 * n <= usize::MAX,
            pixels@.len() == k,
            interleaved(pixels@) == bytes@.take(3 * k),
        decreases n - k,
    {
        let p = Rgb { r: bytes[3 * k], g: bytes[3 * k + 1], b: bytes[3 * k + 2] };
        pixels.push(p);
        k = k + 1;
        assert(interleaved(pixels@) =~= bytes@.take(3 * k)) by {
            let old_pixels = pixels@.drop_last();
            assert(interleaved(old_pixels) == bytes@.take(3 * (k - 1)));
            assert forall|j: int| 0 <= j < 3 * k implies interleaved(pixels@)[j] == bytes@[j] by {
                if j < 3 * (k - 1) {
                    assert(interleaved(old_pixels)[j] == bytes@.take(3 * (k - 1))[j]);
                    assert(pixels@[j / 3] == old_pixels[j / 3]);
                }
            }
        }
    }
    assert(bytes@.take(3 * k) =~= bytes@);
    Some(pixels)
}

/// Interleaving loses nothing: pixel lists with the same bytes are the same
/// list, so unpacking what was packed gives the pixels back.
pub proof fn lemma_interleaved_is_injective(a: Seq<Rgb>, b: Seq<Rgb>)
    requires
        interleaved(a) == interleaved(b),
    ensures
        a == b,
{
    assert(3 * a.len() == interleaved(a).len());
    assert(3 * b.len() == interleaved(b).len());
    assert forall|i: int| 0 <= i < a.len() implies a[i] == b[i] by {
        assert((3 * i) / 3 == i && (3 * i + 1) / 3 == i && (3 * i + 2) / 3 == i);
        assert((3 * i) % 3 == 0 && (3 * i + 1) % 3 == 1 && (3 * i + 2) % 3 == 2);
        assert(interleaved(a)[3 * i] == a[i].r && interleaved(b)[3 * i] == b[i].r);
        assert(interleaved(a)[3 * i + 1] == a[i].g && interleaved(b)[3 * i + 1] == b[i].g);
        assert(interleaved(a)[3 * i + 2] == a[i].b && interleaved(b)[3 * i + 2] == b[i].b);
    }
    assert(a =~= b);
}

} // verus!
