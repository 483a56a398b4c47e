use vstd::prelude::*;

verus! {

/// Size in bytes of the camera parameter block: 20 words.
pub const CAMERA_BLOCK_SIZE: usize = 80;

/// Size in bytes of the fractal parameter block: 12 words.
pub const FRACTAL_BLOCK_SIZE: usize = 48;

/// The four bytes of a word, least significant first.
pub open spec fn le_bytes(w: u32) -> Seq<u8> {
    seq![(w & 0xff) as u8, ((w >> 8u32) & 0xff) as u8, ((w >> 16u32) & 0xff) as u8, (w >> 24u32) as u8]
}

/// A run of words laid out one after the other, each as `le_bytes`.
pub open spec fn bytes_of(ws: Seq<u32>) -> Seq<u8>
    decreases ws.len(),
{
    if ws.len() == 0 {
        Seq::empty()
    } else {
        bytes_of(ws.drop_last()) + le_bytes(ws.last())
    }
}

/// The camera parameter block as the shading stage reads it. Every word holds
/// the bit pattern of a 32-bit float; the rows of the ray-direction matrix
/// are `[x, y, z, 0]`.
#[derive(Clone, Copy, Debug)]
pub struct CameraBlock {
    pub ray_dir_mat: [[u32; 4]; 3],
    pub position: [u32; 3],
    pub ratio: u32,
    pub depth: u32,
}

/// The fractal parameter block as the shading stage reads it. The two counts
/// are signed 32-bit integers; the other words hold bit patterns of 32-bit
/// floats.
#[derive(Clone, Copy, Debug)]
pub struct FractalBlock {
    pub iterations: i32,
    pub max_ray_march_iterations: i32,
    pub collision_distance: u32,
    pub power: u32,
    pub color_map_black: [u32; 4],
    pub color_map_white: [u32; 4],
}

impl CameraBlock {
    /// The block's words in field order: the three matrix rows, the position,
    /// the aspect ratio, the screen depth, then three zero words of padding.
    pub open spec fn words(&self) -> Seq<u32> {
        self.ray_dir_mat@[0]@ + self.ray_dir_mat@[1]@ + self.ray_dir_mat@[2]@ + self.position@
            + seq![self.ratio, self.depth, 0u32, 0u32, 0u32]
    }

    /// The block's bytes.
    pub open spec fn bytes(&self) -> Seq<u8> {
        bytes_of(self.words())
    }

    /// Serialises the block, padding included.
    pub fn to_bytes(&self) -> (r: Vec<u8>)
        ensures
            r@ == self.bytes(),
            r@.len() == CAMERA_BLOCK_SIZE,
    {
        let mut ws: Vec<u32> = Vec::new();
        extend_words(&mut ws, &self.ray_dir_mat[0]);
        extend_words(&mut ws, &self.ray_dir_mat[1]);
        extend_words(&mut ws, &self.ray_dir_mat[2]);
        extend_words(&mut ws, &self.position);
        ws.push(self.ratio);
        ws.push(self.depth);
        ws.push(0);
        ws.push(0);
        ws.push(0);
        assert(ws@ =~= self.words());
        proof {
            lemma_bytes_of_len(ws@);
        }
        encode_words(&ws)
    }
}

impl FractalBlock {
    /// The block's words in field order: the two counts in two's complement,
    /// the collision distance, the power, then the two colors.
    pub open spec fn words(&self) -> Seq<u32> {
        seq![self.iterations as u32, self.max_ray_march_iterations as u32, self.collision_distance, self.power]
            + self.color_map_black@ + self.color_map_white@
    }

    /// The block's bytes.
    pub open spec fn bytes(&self) -> Seq<u8> {
        bytes_of(self.words())
    }

    /// Serialises the block.
    pub fn to_bytes(&self) -> (r: Vec<u8>)
        ensures
            r@ == self.bytes(),
            r@.len() == FRACTAL_BLOCK_SIZE,
    {
        let mut ws: Vec<u32> = Vec::new();
        ws.push(self.iterations as u32);
        ws.push(self.max_ray_march_iterations as u32);
        ws.push(self.collision_distance);
        ws.push(self.power);
        extend_words(&mut ws, &self.color_map_black);
        extend_words(&mut ws, &self.color_map_white);
        assert(ws@ =~= self.words());
        proof {
            lemma_bytes_of_len(ws@);
        }
        encode_words(&ws)
    }
}

/// Appends the words of `src` to `ws`.
fn extend_words<const N: usize>(ws: &mut Vec<u32>, src: &[u32; N])
    ensures
        final(ws)@ == old(ws)@ + src@,
{
    let mut i: usize = 0;
    while i < N
        invariant
            i <= N,
            src@.len() == N,
            ws@ == old(ws)@ + src@.take(i as int),
        decreases N - i,
    {
        ws.push(src[i]);
        i = i + 1;
        assert(src@.take(i as int) =~= src@.take(i - 1 as int).push(src@[i - 1]));
    }
    assert(src@.take(N as int) =~= src@);
}

/// Lays out `ws` as bytes.
pub fn encode_words(ws: &Vec<u32>) -> (r: Vec<u8>)
    ensures
        r@ == bytes_of(ws@),
{
    let mut out: Vec<u8> = Vec::new();
    let mut i: usize = 0;
    while i < ws.len()
        invariant
            i <= ws@.len(),
            out@ == bytes_of(ws@.take(i as int)),
        decreases ws.len() - i,
    {
        let w: u32 = ws[i];
        out.push((w & 0xff) as u8);
        out.push(((w >> 8u32) & 0xff) as u8);
        out.push(((w >> 16u32) & 0xff) as u8);
        out.push((w >> 24u32) as u8);
        i = i + 1;
        assert(ws@.take(i as int).drop_last() =~= ws@.take(i - 1 as int));
        assert(out@ =~= bytes_of(ws@.take(i as int)));
    }
    assert(ws@.take(i as int) =~= ws@);
    out
}

/// Four bytes per word.
pub proof fn lemma_bytes_of_len(ws: Seq<u32>)
    ensures
        bytes_of(ws).len() == 4 * ws.len(),
    decreases ws.len(),
{
    if ws.len() > 0 {
        lemma_bytes_of_len(ws.drop_last());
    }
}

/// A word's four bytes give the word back.
pub proof fn lemma_le_bytes_injective(a: u32, b: u32)
    requires
        le_bytes(a) == le_bytes(b),
    ensures
        a == b,
{
    assert(le_bytes(a)[0] == le_bytes(b)[0]);
    assert(le_bytes(a)[1] == le_bytes(b)[1]);
    assert(le_bytes(a)[2] == le_bytes(b)[2]);
    assert(le_bytes(a)[3] == le_bytes(b)[3]);
    assert(((a & 0xff) as u8 == (b & 0xff) as u8 && ((a >> 8u32) & 0xff) as u8 == ((b >> 8u32)
        & 0xff) as u8 && ((a >> 16u32) & 0xff) as u8 == ((b >> 16u32) & 0xff) as u8 && (a
        >> 24u32) as u8 == (b >> 24u32) as u8) ==> a == b) by (bit_vector);
}

/// Word `i` of a run sits at bytes `4 * i .. 4 * i + 4` of its layout.
pub proof fn lemma_word_at_offset(ws: Seq<u32>, i: int)
    requires
        0 <= i < ws.len(),
    ensures
        bytes_of(ws).subrange(4 * i, 4 * i + 4) == le_bytes(ws[i]),
    decreases ws.len(),
{
    lemma_bytes_of_len(ws.drop_last());
    let n = ws.len() - 1;
    if i == n {
        assert(bytes_of(ws).subrange(4 * i, 4 * i + 4) =~= le_bytes(ws[i]));
    } else {
        lemma_word_at_offset(ws.drop_last(), i);
        assert(bytes_of(ws).subrange(4 * i, 4 * i + 4) =~= bytes_of(ws.drop_last()).subrange(
            4 * i,
            4 * i + 4,
        ));
    }
}

/// Two runs of equal length with the same layout are the same run.
pub proof fn lemma_bytes_of_injective(a: Seq<u32>, b: Seq<u32>)
    requires
        a.len() == b.len(),
        bytes_of(a) == bytes_of(b),
    ensures
        a == b,
{
    assert forall|i: int| 0 <= i < a.len() implies a[i] == b[i] by {
        lemma_word_at_offset(a, i);
        lemma_word_at_offset(b, i);
        lemma_le_bytes_injective(a[i], b[i]);
    }
    assert(a =~= b);
}

/// Both blocks serialise to exactly their declared sizes, and the bytes
/// stand in one-to-one correspondence with the field values: equal fields
/// give identical bytes, and identical bytes come only from equal fields.
pub proof fn lemma_block_serialization(c1: CameraBlock, c2: CameraBlock, f1: FractalBlock, f2: FractalBlock)
    ensures
        c1.bytes().len() == CAMERA_BLOCK_SIZE,
        f1.bytes().len() == FRACTAL_BLOCK_SIZE,
        (c1.words() == c2.words()) <==> (c1.bytes() == c2.bytes()),
        (f1.words() == f2.words()) <==> (f1.bytes() == f2.bytes()),
{
    lemma_bytes_of_len(c1.words());
    lemma_bytes_of_len(f1.words());
    if c1.bytes() == c2.bytes() {
        lemma_bytes_of_injective(c1.words(), c2.words());
    }
    if f1.bytes() == f2.bytes() {
        lemma_bytes_of_injective(f1.words(), f2.words());
    }
}

} // verus!
