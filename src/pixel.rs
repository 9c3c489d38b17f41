use vstd::prelude::*;

verus! {

/// One 8-bit RGB color of the output buffer.
#[derive(Clone, Copy, Debug, Default, PartialEq, Eq, Structural)]
pub struct Pixel {
    pub r: u8,
    pub g: u8,
    pub b: u8,
}

impl Pixel {
    pub fn new(r: u8, g: u8, b: u8) -> (p: Self)
        ensures
            p.r == r,
            p.g == g,
            p.b == b,
    {
        Self { r, g, b }
    }

    pub fn set(&mut self, r: u8, g: u8, b: u8)
        ensures
            final(self).r == r,
            final(self).g == g,
            final(self).b == b,
    {
        self.r = r;
        self.g = g;
        self.b = b;
    }
}

/// A dense row-major buffer of pixels.
pub type Image = Vec<Pixel>;

/// The RGBA byte layout of an image: four bytes per pixel, in buffer order,
/// the alpha byte always opaque.
pub open spec fn rgba_bytes(image: Seq<Pixel>) -> Seq<u8>
    decreases image.len(),
{
    if image.len() == 0 {
        Seq::empty()
    } else {
        let p = image.last();
        rgba_bytes(image.drop_last()).add(seq![p.r, p.g, p.b, 0xFFu8])
    }
}

pub proof fn lemma_rgba_bytes_len(image: Seq<Pixel>)
    ensures
        rgba_bytes(image).len() == 4 * image.len(),
    decreases image.len(),
{
    if image.len() > 0 {
        lemma_rgba_bytes_len(image.drop_last());
    }
}

/// Each pixel `k` of the image occupies bytes `4k .. 4k + 4` of its RGBA layout.
pub proof fn lemma_rgba_bytes_index(image: Seq<Pixel>, k: int)
    requires
        0 <= k < image.len(),
    ensures
        rgba_bytes(image).len() == 4 * image.len(),
        rgba_bytes(image)[4 * k] == image[k].r,
        rgba_bytes(image)[4 * k + 1] == image[k].g,
        rgba_bytes(image)[4 * k + 2] == image[k].b,
        rgba_bytes(image)[4 * k + 3] == 0xFFu8,
    decreases image.len(),
{
    lemma_rgba_bytes_len(image);
    lemma_rgba_bytes_len(image.drop_last());
    if k < image.len() - 1 {
        lemma_rgba_bytes_index(image.drop_last(), k);
    }
}

/// Lays out the image as RGBA bytes, four per pixel, alpha set to 0xFF.
pub fn image_to_byte_array(image: &Image) -> (bytes: Vec<u8>)
    requires
        image@.len() * 4 <= usize::MAX,
    ensures
        bytes@ == rgba_bytes(image@),
        bytes@.len() == 4 * image@.len(),
        forall|k: int|
            #![trigger image@[k]]
            0 <= k < image@.len() ==> {
                &&& bytes@[4 * k] == image@[k].r
                &&& bytes@[4 * k + 1] == image@[k].g
                &&& bytes@[4 * k + 2] == image@[k].b
                &&& bytes@[4 * k + 3] == 0xFFu8
            },
{
    let mut bytes: Vec<u8> = Vec::new();
    let mut i: usize = 0;
    while i < image.len()
        invariant
            i <= image@.len(),
            bytes@ == rgba_bytes(image@.subrange(0, i as int)),
        decreases image@.len() - i,
    {
        let pixel = image[i];
        bytes.push(pixel.r);
        bytes.push(pixel.g);
        bytes.push(pixel.b);
        bytes.push(0xFF);
        proof {
            let next = image@.subrange(0, i + 1);
            assert(next.drop_last() =~= image@.subrange(0, i as int));
            assert(bytes@ =~= rgba_bytes(next));
        }
        i = i + 1;
    }
    assert(image@.subrange(0, i as int) =~= image@);
    proof {
        lemma_rgba_bytes_len(image@);
        assert forall|k: int| 0 <= k < image@.len() implies {
            &&& bytes@[4 * k] == image@[k].r
            &&& bytes@[4 * k + 1] == image@[k].g
            &&& bytes@[4 * k + 2] == image@[k].b
            &&& bytes@[4 * k + 3] == 0xFFu8
        } by {
            lemma_rgba_bytes_index(image@, k);
        }
    }
    bytes
}

/// std's I/O error, carried through opaquely as the failure of a save.
#[verifier::external_type_specification]
#[verifier::external_body]
pub struct ExIoError(std::io::Error);

/// Writing an image out to a file of the given dimensions.
pub trait Persistable {
    fn save(&self, path: &str, width: u32, height: u32) -> Result<(), std::io::Error>;
}

} // verus!
