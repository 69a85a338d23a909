//! The data codewords cut into blocks, their error-correction codewords,
//! and both interleaved into the stream of the symbol.

use super::level::block_count;
use super::level::data_codewords;
use super::level::ec_codewords_per_block;
use super::level::get_remainder_bits;
use super::level::group1_block_size;
use super::level::group1_blocks;
use super::level::group2_block_size;
use super::level::group2_blocks;
use super::level::is_version;
use super::level::lemma_block_layout;
use super::level::remainder_bits;
use super::level::total_codewords;
use super::level::ErrorCorrectionLevel;
use super::symbol::QRMode;
use crate::bit_utils::bit::Bit;
use crate::bit_utils::bit_string::bytes_bits;
use crate::bit_utils::bit_string::pack_bits;
use crate::bit_utils::bit_string::repeated_bit;
use crate::bit_utils::bit_string::BitString;
use crate::galios::codeword::eval;
use crate::galios::codeword::lemma_codeword_vanishes;
use crate::galios::codeword::rs_codeword;
use crate::galios::field::alpha_pow;
use crate::galios::reed_solomon::bytes_ints;
use crate::galios::reed_solomon::generator_poly;
use crate::galios::reed_solomon::generator_polynomial;
use crate::galios::reed_solomon::lemma_generator_shape;
use crate::galios::reed_solomon::lemma_rs_remainder_shape;
use crate::galios::reed_solomon::remainder_codewords;
use crate::galios::reed_solomon::rs_remainder;
use vstd::prelude::*;

verus! {

/// The data codewords of block `b` of a version at a level: the blocks of
/// the first group come first.
pub open spec fn block_size(level: ErrorCorrectionLevel, version: int, b: int) -> int {
    if b < group1_blocks(level, version) {
        group1_block_size(level, version)
    } else {
        group2_block_size(level, version)
    }
}

/// Where block `b` begins among the data codewords.
pub open spec fn block_offset(level: ErrorCorrectionLevel, version: int, b: nat) -> int
    decreases b,
{
    if b == 0 {
        0
    } else {
        block_offset(level, version, (b - 1) as nat) + block_size(level, version, b - 1)
    }
}

/// Block `b` of the data codewords.
pub open spec fn data_block(
    codewords: Seq<u8>,
    level: ErrorCorrectionLevel,
    version: int,
    b: int,
) -> Seq<u8> {
    codewords.subrange(
        block_offset(level, version, b as nat),
        block_offset(level, version, b as nat) + block_size(level, version, b),
    )
}

/// The data codewords cut into the blocks of a version at a level.
pub open spec fn data_blocks(
    codewords: Seq<u8>,
    level: ErrorCorrectionLevel,
    version: int,
) -> Seq<Seq<u8>> {
    Seq::new(
        block_count(level, version) as nat,
        |b: int| data_block(codewords, level, version, b),
    )
}

/// The `n` Reed-Solomon error-correction codewords of a block.
pub open spec fn ec_block(block: Seq<u8>, n: nat) -> Seq<u8> {
    Seq::new(
        rs_remainder(bytes_ints(block), n).len(),
        |i: int| rs_remainder(bytes_ints(block), n)[i] as u8,
    )
}

/// The error-correction codewords of every block of the data codewords.
pub open spec fn ec_blocks(
    codewords: Seq<u8>,
    level: ErrorCorrectionLevel,
    version: int,
) -> Seq<Seq<u8>> {
    Seq::new(
        block_count(level, version) as nat,
        |b: int|
            ec_block(
                data_block(codewords, level, version, b),
                ec_codewords_per_block(level, version) as nat,
            ),
    )
}

/// The contents of a list of blocks.
pub open spec fn rows(blocks: Seq<Vec<u8>>) -> Seq<Seq<u8>> {
    Seq::new(blocks.len(), |i: int| blocks[i]@)
}

/// The length of the longest block.
pub open spec fn longest(blocks: Seq<Seq<u8>>, upto: nat) -> nat
    decreases upto,
{
    if upto == 0 {
        0
    } else {
        let rest = longest(blocks, (upto - 1) as nat);
        if blocks[upto - 1].len() > rest {
            blocks[upto - 1].len()
        } else {
            rest
        }
    }
}

/// Codeword `col` of each of the first `upto` blocks that has one, in the
/// order of the blocks.
pub open spec fn column_part(blocks: Seq<Seq<u8>>, col: int, upto: nat) -> Seq<u8>
    decreases upto,
{
    if upto == 0 {
        Seq::<u8>::empty()
    } else {
        let before = column_part(blocks, col, (upto - 1) as nat);
        if col < blocks[upto - 1].len() {
            before.push(blocks[upto - 1][col])
        } else {
            before
        }
    }
}

/// The first `cols` columns of the blocks, one after the other.
pub open spec fn columns_upto(blocks: Seq<Seq<u8>>, cols: nat) -> Seq<u8>
    decreases cols,
{
    if cols == 0 {
        Seq::<u8>::empty()
    } else {
        columns_upto(blocks, (cols - 1) as nat) + column_part(blocks, cols - 1, blocks.len())
    }
}

/// The blocks interleaved: the first codeword of every block, then the
/// second of every block that has one, and so on.
pub open spec fn interleave(blocks: Seq<Seq<u8>>) -> Seq<u8> {
    columns_upto(blocks, longest(blocks, blocks.len()))
}

/// The codewords of the first `upto` blocks, counted up to `cols` for each.
pub open spec fn capped_total(blocks: Seq<Seq<u8>>, cols: nat, upto: nat) -> nat
    decreases upto,
{
    if upto == 0 {
        0
    } else {
        capped_total(blocks, cols, (upto - 1) as nat) + (if blocks[upto - 1].len() < cols {
            blocks[upto - 1].len()
        } else {
            cols
        })
    }
}

/// The number of codewords in the first `upto` blocks.
pub open spec fn total_len(blocks: Seq<Seq<u8>>, upto: nat) -> nat
    decreases upto,
{
    if upto == 0 {
        0
    } else {
        total_len(blocks, (upto - 1) as nat) + blocks[upto - 1].len()
    }
}

/// The bits of a symbol before they are placed: the data codewords
/// interleaved, the error-correction codewords interleaved, and the
/// remainder bits of the version.
pub open spec fn structured_stream(
    data: Seq<Seq<u8>>,
    error_correction: Seq<Seq<u8>>,
    version: int,
) -> Seq<bool> {
    bytes_bits(interleave(data) + interleave(error_correction)) + repeated_bit(
        false,
        remainder_bits(version) as nat,
    )
}

proof fn lemma_column_part_len(blocks: Seq<Seq<u8>>, col: nat, upto: nat)
    ensures
        column_part(blocks, col as int, upto).len() + capped_total(blocks, col, upto)
            == capped_total(blocks, col + 1, upto),
    decreases upto,
{
    if upto > 0 {
        lemma_column_part_len(blocks, col, (upto - 1) as nat);
    }
}

proof fn lemma_columns_len(blocks: Seq<Seq<u8>>, cols: nat)
    ensures
        columns_upto(blocks, cols).len() == capped_total(blocks, cols, blocks.len()),
    decreases cols,
{
    if cols > 0 {
        lemma_columns_len(blocks, (cols - 1) as nat);
        lemma_column_part_len(blocks, (cols - 1) as nat, blocks.len());
    } else {
        lemma_capped_zero(blocks, blocks.len());
    }
}

proof fn lemma_capped_zero(blocks: Seq<Seq<u8>>, upto: nat)
    ensures
        capped_total(blocks, 0, upto) == 0,
    decreases upto,
{
    if upto > 0 {
        lemma_capped_zero(blocks, (upto - 1) as nat);
    }
}

proof fn lemma_longest_bounds(blocks: Seq<Seq<u8>>, upto: nat, b: int)
    requires
        0 <= b < upto,
    ensures
        blocks[b].len() <= longest(blocks, upto),
    decreases upto,
{
    if b < upto - 1 {
        lemma_longest_bounds(blocks, (upto - 1) as nat, b);
    }
}

proof fn lemma_capped_is_total(blocks: Seq<Seq<u8>>, cols: nat, upto: nat)
    requires
        forall|b: int| 0 <= b < upto ==> (#[trigger] blocks[b]).len() <= cols,
    ensures
        capped_total(blocks, cols, upto) == total_len(blocks, upto),
    decreases upto,
{
    if upto > 0 {
        lemma_capped_is_total(blocks, cols, (upto - 1) as nat);
    }
}

/// Interleaving keeps every codeword: the result is as long as the blocks
/// are together.
pub proof fn lemma_interleave_len(blocks: Seq<Seq<u8>>)
    ensures
        interleave(blocks).len() == total_len(blocks, blocks.len()),
{
    let cols = longest(blocks, blocks.len());
    lemma_columns_len(blocks, cols);
    assert forall|b: int| 0 <= b < blocks.len() implies (#[trigger] blocks[b]).len() <= cols by {
        lemma_longest_bounds(blocks, blocks.len(), b);
    }
    lemma_capped_is_total(blocks, cols, blocks.len());
}

proof fn lemma_mul_step(b: int, size: int)
    by (nonlinear_arith)
    ensures
        (b + 1) * size == b * size + size,
        0 * size == 0,
{
}

/// The blocks lie one after the other: block `b` begins where the blocks
/// before it end, and all the blocks together are the data codewords.
pub proof fn lemma_block_offsets(level: ErrorCorrectionLevel, version: int, b: nat)
    requires
        is_version(version),
        b <= block_count(level, version),
    ensures
        block_offset(level, version, b) == (if b <= group1_blocks(level, version) {
            b * group1_block_size(level, version)
        } else {
            group1_blocks(level, version) * group1_block_size(level, version) + (b - group1_blocks(
                level,
                version,
            )) * group2_block_size(level, version)
        }),
        0 <= block_offset(level, version, b) <= data_codewords(level, version),
        b < block_count(level, version) ==> block_offset(level, version, b) + block_size(
            level,
            version,
            b as int,
        ) <= data_codewords(level, version),
        b == block_count(level, version) ==> block_offset(level, version, b) == data_codewords(
            level,
            version,
        ),
    decreases b,
{
    lemma_block_layout(level, version);
    let g1 = group1_blocks(level, version);
    let s1 = group1_block_size(level, version);
    let g2 = group2_blocks(level, version);
    let s2 = group2_block_size(level, version);
    if b > 0 {
        lemma_block_offsets(level, version, (b - 1) as nat);
        if b <= g1 {
            lemma_mul_step(b - 1, s1);
        } else {
            lemma_mul_step(b - 1 - g1, s2);
        }
    } else {
        lemma_mul_step(0, s1);
    }
    lemma_offsets_monotone(g1, s1, g2, s2, b as int);
}

proof fn lemma_offsets_monotone(g1: int, s1: int, g2: int, s2: int, b: int)
    by (nonlinear_arith)
    requires
        g1 >= 1,
        s1 >= 1,
        g2 >= 0,
        s2 >= 0,
        0 <= b <= g1 + g2,
    ensures
        b <= g1 ==> 0 <= b * s1 <= g1 * s1,
        b < g1 ==> b * s1 + s1 <= g1 * s1,
        b >= g1 ==> 0 <= (b - g1) * s2 <= g2 * s2,
        g1 <= b < g1 + g2 ==> (b - g1) * s2 + s2 <= g2 * s2,
        g2 * s2 >= 0,
{
}

/// The data blocks of a stream of data codewords hold all of them, and the
/// error-correction blocks hold the version's error-correction codewords.
pub proof fn lemma_block_totals(codewords: Seq<u8>, level: ErrorCorrectionLevel, version: int)
    requires
        is_version(version),
        codewords.len() == data_codewords(level, version),
    ensures
        total_len(data_blocks(codewords, level, version), block_count(level, version) as nat)
            == data_codewords(level, version),
        total_len(ec_blocks(codewords, level, version), block_count(level, version) as nat)
            + data_codewords(level, version) == total_codewords(version),
        forall|b: int|
            0 <= b < block_count(level, version) ==> (#[trigger] ec_blocks(
                codewords,
                level,
                version,
            )[b]).len() == ec_codewords_per_block(level, version),
{
    lemma_block_layout(level, version);
    let count = block_count(level, version) as nat;
    lemma_data_total(codewords, level, version, count);
    lemma_ec_total(codewords, level, version, count);
    lemma_block_offsets(level, version, count);
    assert forall|b: int| 0 <= b < count implies (#[trigger] ec_blocks(
        codewords,
        level,
        version,
    )[b]).len() == ec_codewords_per_block(level, version) by {
        lemma_ec_block_len(codewords, level, version, b);
    }
}

proof fn lemma_ec_block_len(codewords: Seq<u8>, level: ErrorCorrectionLevel, version: int, b: int)
    requires
        is_version(version),
        codewords.len() == data_codewords(level, version),
        0 <= b < block_count(level, version),
    ensures
        ec_blocks(codewords, level, version)[b].len() == ec_codewords_per_block(level, version),
        data_block(codewords, level, version, b).len() == block_size(level, version, b),
        block_size(level, version, b) >= 1,
{
    lemma_block_layout(level, version);
    lemma_block_offsets(level, version, b as nat);
    let block = data_block(codewords, level, version, b);
    lemma_rs_remainder_shape(bytes_ints(block), ec_codewords_per_block(level, version) as nat);
}

proof fn lemma_data_total(
    codewords: Seq<u8>,
    level: ErrorCorrectionLevel,
    version: int,
    upto: nat,
)
    requires
        is_version(version),
        codewords.len() == data_codewords(level, version),
        upto <= block_count(level, version),
    ensures
        total_len(data_blocks(codewords, level, version), upto) == block_offset(
            level,
            version,
            upto,
        ),
    decreases upto,
{
    if upto > 0 {
        lemma_data_total(codewords, level, version, (upto - 1) as nat);
        lemma_ec_block_len(codewords, level, version, upto - 1);
    }
}

proof fn lemma_ec_total(codewords: Seq<u8>, level: ErrorCorrectionLevel, version: int, upto: nat)
    requires
        is_version(version),
        codewords.len() == data_codewords(level, version),
        upto <= block_count(level, version),
    ensures
        total_len(ec_blocks(codewords, level, version), upto) == upto * ec_codewords_per_block(
            level,
            version,
        ),
    decreases upto,
{
    if upto > 0 {
        lemma_ec_total(codewords, level, version, (upto - 1) as nat);
        lemma_ec_block_len(codewords, level, version, upto - 1);
        lemma_mul_step(upto - 1, ec_codewords_per_block(level, version));
    } else {
        lemma_mul_step(0, ec_codewords_per_block(level, version));
    }
}

/// Every block of a symbol with its error-correction codewords is a
/// codeword of the Reed-Solomon code: read as a polynomial, it vanishes at
/// every power of `alpha` below the number of error-correction codewords.
pub proof fn lemma_blocks_are_codewords(
    codewords: Seq<u8>,
    level: ErrorCorrectionLevel,
    version: int,
    b: int,
    i: nat,
)
    requires
        is_version(version),
        codewords.len() == data_codewords(level, version),
        0 <= b < block_count(level, version),
        i < ec_codewords_per_block(level, version),
    ensures
        eval(
            bytes_ints(
                data_blocks(codewords, level, version)[b] + ec_blocks(codewords, level, version)[b],
            ),
            alpha_pow(i) as int,
        ) == 0,
{
    lemma_block_layout(level, version);
    lemma_ec_block_len(codewords, level, version, b);
    let n = ec_codewords_per_block(level, version) as nat;
    let block = data_block(codewords, level, version, b);
    let message = bytes_ints(block);
    lemma_rs_remainder_shape(message, n);
    lemma_codeword_vanishes(message, n, i);
    assert(bytes_ints(block + ec_block(block, n)) =~= rs_codeword(message, n));
}

/// Appends the interleaved codewords of the blocks.
pub fn append_interleaved(output: &mut Vec<u8>, blocks: &Vec<Vec<u8>>)
    ensures
        final(output)@ == old(output)@ + interleave(rows(blocks@)),
{
    let ghost contents = rows(blocks@);
    let count = blocks.len();
    let mut max_index: usize = 0;
    let mut b: usize = 0;
    while b < count
        invariant
            b <= count,
            count == blocks@.len(),
            contents == rows(blocks@),
            max_index == longest(contents, b as nat),
        decreases count - b,
    {
        if blocks[b].len() > max_index {
            max_index = blocks[b].len();
        }
        b += 1;
    }
    let mut i: usize = 0;
    assert(output@ =~= old(output)@ + columns_upto(contents, 0));
    while i < max_index
        invariant
            i <= max_index,
            count == blocks@.len(),
            contents == rows(blocks@),
            output@ == old(output)@ + columns_upto(contents, i as nat),
        decreases max_index - i,
    {
        let ghost before = output@;
        let mut k: usize = 0;
        assert(output@ =~= before + column_part(contents, i as int, 0));
        while k < count
            invariant
                k <= count,
                count == blocks@.len(),
                contents == rows(blocks@),
                output@ == before + column_part(contents, i as int, k as nat),
            decreases count - k,
        {
            let block = &blocks[k];
            if i < block.len() {
                output.push(block[i]);
            }
            k += 1;
            assert(output@ =~= before + column_part(contents, i as int, k as nat));
        }
        i += 1;
        assert(output@ =~= old(output)@ + columns_upto(contents, i as nat));
    }
}

/// The codewords of a block, copied out of the stream.
fn copy_block(bits: &BitString, start: usize, size: usize) -> (block: Vec<u8>)
    requires
        bits.wf(),
        start + size <= usize::MAX,
        8 * (start + size) <= bits@.len(),
    ensures
        block@ == pack_bits(bits@).subrange(start as int, start + size),
{
    proof {
        bits.lemma_bytes_pack();
    }
    let mut block: Vec<u8> = Vec::new();
    let mut k: usize = 0;
    while k < size
        invariant
            k <= size,
            bits.wf(),
            start + size <= usize::MAX,
            8 * (start + size) <= bits@.len(),
            bits.bytes() == pack_bits(bits@),
            block@ == pack_bits(bits@).subrange(start as int, start + k),
        decreases size - k,
    {
        block.push(bits.get_byte(start + k));
        k += 1;
        assert(block@ =~= pack_bits(bits@).subrange(start as int, start + k));
    }
    block
}

impl QRMode {
    /// The data codewords of the stream cut into the blocks of the symbol,
    /// and the Reed-Solomon error-correction codewords of each block.
    pub fn generate_error_correction(&self, bits: BitString) -> (blocks: (
        Vec<Vec<u8>>,
        Vec<Vec<u8>>,
    ))
        requires
            self.wf(),
            bits.wf(),
            bits@.len() == 8 * data_codewords(self.level(), self.symbol_version()),
        ensures
            rows(blocks.0@) == data_blocks(pack_bits(bits@), self.level(), self.symbol_version()),
            rows(blocks.1@) == ec_blocks(pack_bits(bits@), self.level(), self.symbol_version()),
    {
        let version = self.version();
        let level = *self.error_correction_level();
        let ghost codewords = pack_bits(bits@);
        proof {
            self.lemma_wf();
            lemma_block_layout(level, version as int);
        }
        let (
            num_blocks_group_1,
            num_code_words_group_1,
            num_blocks_group_2,
            num_code_words_group_2,
        ) = level.get_block_data(version);
        let count = num_blocks_group_1 + num_blocks_group_2;
        let ec_count = level.get_num_error_correction_codewords(version);
        let mut generator = generator_polynomial(ec_count);
        proof {
            lemma_generator_shape(ec_count as nat);
        }
        let mut data: Vec<Vec<u8>> = Vec::new();
        let mut error_correction_data: Vec<Vec<u8>> = Vec::new();
        let mut index: usize = 0;
        let mut b: usize = 0;
        while b < count
            invariant
                b <= count,
                is_version(version as int),
                count == block_count(level, version as int),
                num_blocks_group_1 == group1_blocks(level, version as int),
                num_code_words_group_1 == group1_block_size(level, version as int),
                num_code_words_group_2 == group2_block_size(level, version as int),
                ec_count == ec_codewords_per_block(level, version as int),
                1 <= ec_count <= 255,
                bits.wf(),
                bits@.len() == 8 * data_codewords(level, version as int),
                codewords == pack_bits(bits@),
                index == block_offset(level, version as int, b as nat),
                generator.wf(),
                generator@ == generator_poly(ec_count as nat),
                generator@.len() >= 1,
                generator@[0] == 1,
                data@.len() == b,
                error_correction_data@.len() == b,
                forall|k: int|
                    0 <= k < b ==> (#[trigger] data@[k])@ == data_block(
                        codewords,
                        level,
                        version as int,
                        k,
                    ),
                forall|k: int|
                    0 <= k < b ==> (#[trigger] error_correction_data@[k])@ == ec_block(
                        data_block(codewords, level, version as int, k),
                        ec_count as nat,
                    ),
            decreases count - b,
        {
            proof {
                lemma_block_offsets(level, version as int, b as nat);
            }
            let size = if b < num_blocks_group_1 {
                num_code_words_group_1
            } else {
                num_code_words_group_2
            };
            let block = copy_block(&bits, index, size);
            let codes = remainder_codewords(&block, &mut generator);
            proof {
                let target = ec_block(block@, ec_count as nat);
                lemma_rs_remainder_shape(bytes_ints(block@), ec_count as nat);
                assert(bytes_ints(codes@).len() == codes@.len());
                assert forall|i: int| 0 <= i < codes@.len() implies codes@[i] == target[i] by {
                    assert(bytes_ints(codes@)[i] == codes@[i]);
                }
                assert(codes@ =~= target);
            }
            data.push(block);
            error_correction_data.push(codes);
            index += size;
            b += 1;
        }
        proof {
            assert(rows(data@) =~= data_blocks(codewords, level, version as int));
            assert(rows(error_correction_data@) =~= ec_blocks(codewords, level, version as int));
        }
        (data, error_correction_data)
    }

    /// The bits of the symbol in the order of their placement: the data
    /// blocks interleaved, the error-correction blocks interleaved, and the
    /// remainder bits of the version.
    pub fn structure_codewords(&self, data: (Vec<Vec<u8>>, Vec<Vec<u8>>)) -> (stream: BitString)
        requires
            self.wf(),
            8 * (total_len(rows(data.0@), data.0@.len()) + total_len(rows(data.1@), data.1@.len()))
                + 8 <= usize::MAX,
        ensures
            stream.wf(),
            stream@ == structured_stream(rows(data.0@), rows(data.1@), self.symbol_version()),
            stream@.len() == 8 * (total_len(rows(data.0@), data.0@.len()) + total_len(
                rows(data.1@),
                data.1@.len(),
            )) + remainder_bits(self.symbol_version()),
    {
        proof {
            self.lemma_wf();
            lemma_block_layout(self.level(), self.symbol_version());
            lemma_interleave_len(rows(data.0@));
            lemma_interleave_len(rows(data.1@));
        }
        let mut new_data: Vec<u8> = Vec::new();
        append_interleaved(&mut new_data, &data.0);
        append_interleaved(&mut new_data, &data.1);
        assert(new_data@ =~= interleave(rows(data.0@)) + interleave(rows(data.1@)));
        let mut new_bitstring = BitString::from_vec(new_data);
        new_bitstring.append_times(Bit::Zero, get_remainder_bits(self.version()));
        new_bitstring
    }
}

} // verus!
