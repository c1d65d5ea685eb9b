use vstd::prelude::*;

verus! {

/// Size in bytes of the camera uniform block: a 4x4 matrix and a position
/// with four components, each a 32-bit word.
pub const CAMERA_UNIFORM_SIZE: usize = 80;

/// Size in bytes of the lighting uniform block: three vectors of four 32-bit
/// words.
pub const LIGHTING_CONFIG_SIZE: usize = 48;

/// Byte `k` (0 is the least significant) of `w`.
pub open spec fn le_byte(w: u32, k: int) -> u8 {
    if k == 0 {
        (w % 0x100) as u8
    } else if k == 1 {
        ((w / 0x100) % 0x100) as u8
    } else if k == 2 {
        ((w / 0x1_0000) % 0x100) as u8
    } else {
        (w / 0x100_0000) as u8
    }
}

/// The words laid out one after another, each in four bytes, least
/// significant byte first: the layout of a block of 32-bit fields in GPU
/// memory.
pub open spec fn le_bytes(words: Seq<u32>) -> Seq<u8> {
    Seq::new(4 * words.len(), |j: int| le_byte(words[j / 4], j % 4))
}

/// The word that a reader of `bytes` finds in its `i`-th 4-byte slot.
pub open spec fn le_word(bytes: Seq<u8>, i: int) -> int {
    bytes[4 * i] + 0x100 * bytes[4 * i + 1] + 0x1_0000 * bytes[4 * i + 2] + 0x100_0000 * bytes[4
        * i + 3]
}

proof fn lemma_le_bytes_append(a: Seq<u32>, b: Seq<u32>)
    ensures
        le_bytes(a) + le_bytes(b) == le_bytes(a + b),
{
    let l = le_bytes(a) + le_bytes(b);
    let r = le_bytes(a + b);
    assert forall|j: int| 0 <= j < r.len() implies l[j] == r[j] by {
        if j >= 4 * a.len() {
            let j2 = j - 4 * a.len();
            assert(j2 / 4 == j / 4 - a.len());
            assert(j2 % 4 == j % 4);
        }
    }
    assert(l =~= r);
}

proof fn lemma_le_bytes_push(a: Seq<u32>, w: u32)
    ensures
        le_bytes(a.push(w)) == le_bytes(a) + seq![
            le_byte(w, 0),
            le_byte(w, 1),
            le_byte(w, 2),
            le_byte(w, 3),
        ],
{
    lemma_le_bytes_append(a, seq![w]);
    assert(a + seq![w] =~= a.push(w));
    assert(le_bytes(seq![w]) =~= seq![le_byte(w, 0), le_byte(w, 1), le_byte(w, 2), le_byte(w, 3)]);
}

/// Appends the words to `out` in the layout of `le_bytes`.
fn push_le_words(out: &mut Vec<u8>, words: &[u32])
    requires
        old(out).len() + 4 * words.len() <= usize::MAX,
    ensures
        final(out)@ == old(out)@ + le_bytes(words@),
{
    let n = words.len();
    for i in 0..n
        invariant
            n == words.len(),
            out@ == old(out)@ + le_bytes(words@.take(i as int)),
    {
        let w = words[i];
        proof {
            assert(words@.take(i + 1) =~= words@.take(i as int).push(w));
            lemma_le_bytes_push(words@.take(i as int), w);
        }
        out.push((w % 0x100) as u8);
        out.push(((w / 0x100) % 0x100) as u8);
        out.push(((w / 0x1_0000) % 0x100) as u8);
        out.push((w / 0x100_0000) as u8);
        assert(out@ =~= old(out)@ + le_bytes(words@.take(i + 1)));
    }
    assert(words@.take(n as int) =~= words@);
}

/// The camera uniform block: the view-projection matrix (column-major) and
/// the eye position, each component given by the bit pattern of its 32-bit
/// float.
pub struct CameraUniform {
    pub view_proj: [u32; 16],
    pub position: [u32; 4],
}

/// The lighting uniform block: ambient colour, light direction, and the
/// parameters `[size, spacing, intensity, 0]`, each component given by the
/// bit pattern of its 32-bit float.
pub struct LightingConfig {
    pub ambient_color: [u32; 4],
    pub light_dir: [u32; 4],
    pub params: [u32; 4],
}

impl CameraUniform {
    /// The block's fields in declaration order.
    pub open spec fn words(&self) -> Seq<u32> {
        self.view_proj@ + self.position@
    }

    /// The bytes to upload: the fields in declaration order with no padding,
    /// each word least significant byte first.
    pub fn to_bytes(&self) -> (bytes: Vec<u8>)
        ensures
            bytes@ == le_bytes(self.words()),
            bytes.len() == CAMERA_UNIFORM_SIZE,
            forall|i: int| 0 <= i < 16 ==> le_word(bytes@, i) == self.view_proj[i],
            forall|i: int| 0 <= i < 4 ==> le_word(bytes@, 16 + i) == self.position[i],
    {
        let mut out: Vec<u8> = Vec::new();
        push_le_words(&mut out, &self.view_proj);
        push_le_words(&mut out, &self.position);
        proof {
            lemma_le_bytes_append(self.view_proj@, self.position@);
            assert(Seq::<u8>::empty() + le_bytes(self.view_proj@) =~= le_bytes(self.view_proj@));
        }
        proof {
            lemma_camera_slots(*self, out@);
        }
        out
    }
}

impl LightingConfig {
    /// The block's fields in declaration order.
    pub open spec fn words(&self) -> Seq<u32> {
        self.ambient_color@ + self.light_dir@ + self.params@
    }

    /// The bytes to upload: the fields in declaration order with no padding,
    /// each word least significant byte first.
    pub fn to_bytes(&self) -> (bytes: Vec<u8>)
        ensures
            bytes@ == le_bytes(self.words()),
            bytes.len() == LIGHTING_CONFIG_SIZE,
            forall|i: int| 0 <= i < 4 ==> le_word(bytes@, i) == self.ambient_color[i],
            forall|i: int| 0 <= i < 4 ==> le_word(bytes@, 4 + i) == self.light_dir[i],
            forall|i: int| 0 <= i < 4 ==> le_word(bytes@, 8 + i) == self.params[i],
    {
        let mut out: Vec<u8> = Vec::new();
        push_le_words(&mut out, &self.ambient_color);
        push_le_words(&mut out, &self.light_dir);
        push_le_words(&mut out, &self.params);
        proof {
            lemma_le_bytes_append(self.ambient_color@, self.light_dir@);
            lemma_le_bytes_append(self.ambient_color@ + self.light_dir@, self.params@);
            assert(Seq::<u8>::empty() + le_bytes(self.ambient_color@) =~= le_bytes(
                self.ambient_color@,
            ));
            lemma_lighting_slots(*self, out@);
        }
        out
    }
}

/// Reading the `i`-th 4-byte slot of a laid-out block gives back exactly the
/// `i`-th word written: the GPU sees every field as the CPU wrote it.
pub proof fn lemma_le_bytes_roundtrip(words: Seq<u32>, i: int)
    requires
        0 <= i < words.len(),
    ensures
        le_word(le_bytes(words), i) == words[i],
{
    let b = le_bytes(words);
    let w = words[i];
    assert((4 * i) / 4 == i && (4 * i) % 4 == 0);
    assert((4 * i + 1) / 4 == i && (4 * i + 1) % 4 == 1);
    assert((4 * i + 2) / 4 == i && (4 * i + 2) % 4 == 2);
    assert((4 * i + 3) / 4 == i && (4 * i + 3) % 4 == 3);
    assert(w % 0x100 + 0x100 * ((w / 0x100) % 0x100) + 0x1_0000 * ((w / 0x1_0000) % 0x100)
        + 0x100_0000 * (w / 0x100_0000) == w) by (nonlinear_arith);
}

/// In the laid-out camera block, the first sixteen 4-byte slots read back as
/// the view-projection matrix, in order, and the next four as the eye
/// position, in order.
pub proof fn lemma_camera_slots(c: CameraUniform, bytes: Seq<u8>)
    requires
        bytes == le_bytes(c.words()),
    ensures
        bytes.len() == 80,
        forall|i: int| 0 <= i < 16 ==> le_word(bytes, i) == c.view_proj[i],
        forall|i: int| 0 <= i < 4 ==> le_word(bytes, 16 + i) == c.position[i],
{
    let w = c.words();
    assert forall|i: int| 0 <= i < 16 implies le_word(bytes, i) == c.view_proj[i] by {
        lemma_le_bytes_roundtrip(w, i);
    }
    assert forall|i: int| 0 <= i < 4 implies le_word(bytes, 16 + i) == c.position[i] by {
        lemma_le_bytes_roundtrip(w, 16 + i);
    }
}

/// In the laid-out lighting block, slots 0..4 read back as the ambient
/// colour, slots 4..8 as the light direction and slots 8..12 as the
/// parameters `[size, spacing, intensity, 0]`, each in order.
pub proof fn lemma_lighting_slots(l: LightingConfig, bytes: Seq<u8>)
    requires
        bytes == le_bytes(l.words()),
    ensures
        bytes.len() == 48,
        forall|i: int| 0 <= i < 4 ==> le_word(bytes, i) == l.ambient_color[i],
        forall|i: int| 0 <= i < 4 ==> le_word(bytes, 4 + i) == l.light_dir[i],
        forall|i: int| 0 <= i < 4 ==> le_word(bytes, 8 + i) == l.params[i],
{
    let w = l.words();
    assert forall|i: int| 0 <= i < 4 implies le_word(bytes, i) == l.ambient_color[i] by {
        lemma_le_bytes_roundtrip(w, i);
    }
    assert forall|i: int| 0 <= i < 4 implies le_word(bytes, 4 + i) == l.light_dir[i] by {
        lemma_le_bytes_roundtrip(w, 4 + i);
    }
    assert forall|i: int| 0 <= i < 4 implies le_word(bytes, 8 + i) == l.params[i] by {
        lemma_le_bytes_roundtrip(w, 8 + i);
    }
}

} // verus!
