use vstd::prelude::*;

verus! {

/// Width and height of a viewport or texture, in pixels.
#[derive(Debug, Default, Copy, Clone, PartialEq, Eq, Structural)]
pub struct Size {
    pub width: u32,
    pub height: u32,
}

/// GPU row alignment for texture-to-buffer copies: `wgpu::COPY_BYTES_PER_ROW_ALIGNMENT`,
/// which wgpu defines as 256 bytes.
#[verifier::external_body]
fn copy_bytes_per_row_alignment() -> (r: usize)
    ensures
        r == 256,
{
    wgpu::COPY_BYTES_PER_ROW_ALIGNMENT as usize
}

/// The layout of an image copied out of the GPU: every row is padded up to the
/// copy alignment.
#[derive(Debug, Clone)]
pub struct BufferDimensions {
    pub height: usize,
    pub unpadded_bytes_per_row: usize,
    pub padded_bytes_per_row: u32,
}

/// The padding that brings a row of `unpadded` bytes up to a multiple of `align`.
pub open spec fn row_padding(unpadded: int, align: int) -> int {
    (align - unpadded % align) % align
}

impl BufferDimensions {
    /// The layout of a `width` by `height` image of `pixel_unit` bytes per pixel,
    /// with rows padded to the 256 byte copy alignment.
    pub fn new(width: usize, height: usize, pixel_unit: usize) -> (r: Self)
        requires
            width * pixel_unit + 256 <= usize::MAX,
        ensures
            r.height == height,
            r.unpadded_bytes_per_row == width * pixel_unit,
            r.padded_bytes_per_row == (width * pixel_unit + row_padding(width * pixel_unit, 256)) as u32,
    {
        let bytes_per_pixel = pixel_unit;
        let unpadded_bytes_per_row = width * bytes_per_pixel;
        let align: usize = copy_bytes_per_row_alignment();
        let padded_bytes_per_row_padding = (align - unpadded_bytes_per_row % align) % align;
        let padded_bytes_per_row = (unpadded_bytes_per_row + padded_bytes_per_row_padding) as u32;

        BufferDimensions { height, unpadded_bytes_per_row, padded_bytes_per_row }
    }

    /// The size in bytes of the padded buffer.
    pub fn size(&self) -> (r: u64)
        requires
            self.padded_bytes_per_row * self.height <= u64::MAX,
        ensures
            r == self.padded_bytes_per_row * self.height,
    {
        self.padded_bytes_per_row as u64 * self.height as u64
    }

    /// The image bytes of a padded buffer, with the padding of every row dropped.
    pub fn unpad(&self, data: &[u8]) -> (r: Vec<u8>)
        requires
            self.padded_bytes_per_row > 0,
            rows_hold(data@, self.padded_bytes_per_row as nat, self.unpadded_bytes_per_row as nat),
        ensures
            r@ == spec_unpad(data@, self.padded_bytes_per_row as nat, self.unpadded_bytes_per_row as nat),
    {
        unpad_rows(data, self.padded_bytes_per_row as usize, self.unpadded_bytes_per_row)
    }
}

/// Every row of `padded` bytes (the last one possibly shorter) holds at least
/// the `unpadded` image bytes.
pub open spec fn rows_hold(data: Seq<u8>, padded: nat, unpadded: nat) -> bool {
    &&& unpadded <= padded
    &&& (data.len() % padded == 0 || data.len() % padded >= unpadded)
}

/// The first `unpadded` bytes of each row of `padded` bytes, concatenated.
pub open spec fn spec_unpad(data: Seq<u8>, padded: nat, unpadded: nat) -> Seq<u8>
    decreases data.len(),
{
    if data.len() == 0 || padded == 0 {
        Seq::empty()
    } else if data.len() <= padded {
        data.take(unpadded as int)
    } else {
        data.take(unpadded as int) + spec_unpad(data.skip(padded as int), padded, unpadded)
    }
}

proof fn lemma_rows_hold_skip(data: Seq<u8>, padded: nat, unpadded: nat)
    requires
        padded > 0,
        data.len() > padded,
        rows_hold(data, padded, unpadded),
    ensures
        rows_hold(data.skip(padded as int), padded, unpadded),
{
    vstd::arithmetic::div_mod::lemma_mod_sub_multiples_vanish(data.len() as int, padded as int);
}

/// The first `unpadded_bytes_per_row` bytes of each row of
/// `padded_bytes_per_row` bytes, concatenated.
pub fn unpad_rows(data: &[u8], padded_bytes_per_row: usize, unpadded_bytes_per_row: usize) -> (r: Vec<u8>)
    requires
        padded_bytes_per_row > 0,
        rows_hold(data@, padded_bytes_per_row as nat, unpadded_bytes_per_row as nat),
    ensures
        r@ == spec_unpad(data@, padded_bytes_per_row as nat, unpadded_bytes_per_row as nat),
{
    let padded = padded_bytes_per_row;
    let unpadded = unpadded_bytes_per_row;
    let mut bytes: Vec<u8> = Vec::new();
    let mut pos: usize = 0;
    let n = data.len();
    assert(data@.skip(0) =~= data@);
    while pos < data.len()
        invariant
            padded == padded_bytes_per_row,
            unpadded == unpadded_bytes_per_row,
            padded > 0,
            n == data@.len(),
            pos <= data@.len(),
            rows_hold(data@.skip(pos as int), padded as nat, unpadded as nat),
            bytes@ + spec_unpad(data@.skip(pos as int), padded as nat, unpadded as nat)
                == spec_unpad(data@, padded as nat, unpadded as nat),
        decreases data@.len() - pos,
    {
        let ghost rest = data@.skip(pos as int);
        let ghost before = bytes@;
        assert(unpadded <= rest.len()) by {
            if rest.len() < padded {
                vstd::arithmetic::div_mod::lemma_small_mod(rest.len() as nat, padded as nat);
            }
        }
        let mut j: usize = 0;
        while j < unpadded
            invariant
                pos < data@.len(),
                rest == data@.skip(pos as int),
                rest.len() == data@.len() - pos,
                n == data@.len(),
                unpadded <= rest.len(),
                j <= unpadded,
                bytes@ == before + rest.take(j as int),
            decreases unpadded - j,
        {
            bytes.push(data[pos + j]);
            assert(rest.take(j + 1) =~= rest.take(j as int).push(rest[j as int]));
            j = j + 1;
        }
        proof {
            if rest.len() > padded {
                lemma_rows_hold_skip(rest, padded as nat, unpadded as nat);
                assert(rest.skip(padded as int) =~= data@.skip(pos + padded));
                assert(before + rest.take(unpadded as int) + spec_unpad(rest.skip(padded as int), padded as nat, unpadded as nat)
                    =~= before + spec_unpad(rest, padded as nat, unpadded as nat));
            } else {
                assert(data@.skip(data@.len() as int) =~= Seq::<u8>::empty());
            }
        }
        if data.len() - pos > padded {
            pos = pos + padded;
        } else {
            pos = data.len();
        }
    }
    assert(data@.skip(pos as int) =~= Seq::<u8>::empty());
    bytes
}


/// Padding a row brings it to the next multiple of the alignment: the padded
/// row is a multiple of the alignment, at least as long as the row, and less
/// than one alignment longer.
pub proof fn lemma_row_padding_is_minimal(unpadded: int, align: int)
    requires
        unpadded >= 0,
        align > 0,
    ensures
        (unpadded + row_padding(unpadded, align)) % align == 0,
        unpadded <= unpadded + row_padding(unpadded, align) < unpadded + align,
{
    let m = unpadded % align;
    vstd::arithmetic::div_mod::lemma_fundamental_div_mod(unpadded, align);
    vstd::arithmetic::div_mod::lemma_mod_bound(unpadded, align);
    if m == 0 {
        vstd::arithmetic::div_mod::lemma_mod_self_0(align);
        assert(row_padding(unpadded, align) == 0);
    } else {
        vstd::arithmetic::div_mod::lemma_small_mod((align - m) as nat, align as nat);
        assert(row_padding(unpadded, align) == align - m);
        assert(unpadded + align - m == align * (unpadded / align + 1)) by (nonlinear_arith)
            requires
                unpadded == align * (unpadded / align) + m,
        ;
        vstd::arithmetic::div_mod::lemma_mod_multiples_basic(unpadded / align + 1, align);
    }
}

/// A buffer made of `rows` padded rows unpads to `rows` rows of image bytes.
pub proof fn lemma_unpad_length(data: Seq<u8>, padded: nat, unpadded: nat, rows: nat)
    requires
        padded > 0,
        unpadded <= padded,
        data.len() == rows * padded,
    ensures
        spec_unpad(data, padded, unpadded).len() == rows * unpadded,
    decreases rows,
{
    if rows == 0 {
        assert(rows * padded == 0 && rows * unpadded == 0) by (nonlinear_arith)
            requires
                rows == 0,
        ;
        assert(data.len() == 0);
    } else if rows == 1 {
        assert(rows * padded == padded && rows * unpadded == unpadded) by (nonlinear_arith)
            requires
                rows == 1,
        ;
        assert(data.len() == padded);
        assert(spec_unpad(data, padded, unpadded) == data.take(unpadded as int));
    } else {
        assert((rows - 1) * padded == rows * padded - padded) by (nonlinear_arith);
        assert((rows - 1) * unpadded == rows * unpadded - unpadded) by (nonlinear_arith);
        assert(rows * padded > padded) by (nonlinear_arith)
            requires
                rows > 1,
                padded > 0,
        ;
        lemma_unpad_length(data.skip(padded as int), padded, unpadded, (rows - 1) as nat);
        assert(spec_unpad(data, padded, unpadded) == data.take(unpadded as int) + spec_unpad(
            data.skip(padded as int),
            padded,
            unpadded,
        ));
    }
}

} // verus!
