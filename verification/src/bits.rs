//! Fields of a register word: groups of one, two or four bits, one group for
//! every pin, counted from the lowest bit.

use vstd::prelude::*;

verus! {

/// The `width` lowest bits set.
pub open spec fn low_ones(width: u32) -> u32 {
    ((1u32 << width) - 1) as u32
}

/// Position of the lowest bit of field number `index`.
pub open spec fn field_shift(width: u32, index: u32) -> u32 {
    (width * index) as u32
}

/// The word has a field number `index` of `width` bits.
pub open spec fn field_fits(width: u32, index: u32) -> bool {
    (width == 1 && index < 32) || (width == 2 && index < 16) || (width == 4 && index < 8)
}

/// The bits of field number `index`.
pub open spec fn spec_field_mask(width: u32, index: u32) -> u32 {
    low_ones(width) << field_shift(width, index)
}

/// `value` moved to the place of field number `index`; what of it does not
/// fit the field is dropped.
pub open spec fn spec_field_value(value: u32, width: u32, index: u32) -> u32 {
    (value << field_shift(width, index)) & spec_field_mask(width, index)
}

/// The content of field number `index` of `word`.
pub open spec fn field_of(word: u32, width: u32, index: u32) -> u32 {
    (word >> field_shift(width, index)) & low_ones(width)
}

/// `word` with field number `index` replaced by `value`.
pub open spec fn with_field(word: u32, width: u32, index: u32, value: u32) -> u32 {
    (word & !spec_field_mask(width, index)) | spec_field_value(value, width, index)
}

/// The bits of field number `index`.
#[verifier::when_used_as_spec(spec_field_mask)]
pub fn field_mask(width: u32, index: u32) -> (mask: u32)
    requires
        field_fits(width, index),
    ensures
        mask == spec_field_mask(width, index),
{
    assert((1u32 << width) >= 1 && width * index < 32) by (bit_vector)
        requires
            field_fits(width, index),
    ;
    let ones: u32 = (1u32 << width) - 1;
    ones << (width * index)
}

/// `value` moved to the place of field number `index`.
#[verifier::when_used_as_spec(spec_field_value)]
pub fn field_value(value: u32, width: u32, index: u32) -> (bits: u32)
    requires
        field_fits(width, index),
    ensures
        bits == spec_field_value(value, width, index),
{
    assert(width * index < 32) by (bit_vector)
        requires
            field_fits(width, index),
    ;
    (value << (width * index)) & field_mask(width, index)
}

/// The largest value that fits a field of one, two and four bits.
pub proof fn lemma_low_ones()
    by (bit_vector)
    ensures
        low_ones(1) == 1,
        low_ones(2) == 3,
        low_ones(4) == 15,
{
}

/// A field holds what was written to it.
pub proof fn lemma_field_readback(word: u32, width: u32, index: u32, value: u32)
    by (bit_vector)
    requires
        field_fits(width, index),
    ensures
        field_of(with_field(word, width, index, value), width, index) == value & low_ones(width),
        value <= low_ones(width) ==> field_of(with_field(word, width, index, value), width, index)
            == value,
{
}

/// Writing a field leaves every other field of the word as it was.
pub proof fn lemma_field_frame(word: u32, width: u32, index: u32, value: u32, other: u32)
    by (bit_vector)
    requires
        field_fits(width, index),
        field_fits(width, other),
        other != index,
    ensures
        field_of(with_field(word, width, index, value), width, other) == field_of(
            word,
            width,
            other,
        ),
{
}

/// Writing a field changes no bit outside the field.
pub proof fn lemma_field_outside(word: u32, width: u32, index: u32, value: u32)
    by (bit_vector)
    requires
        field_fits(width, index),
    ensures
        with_field(word, width, index, value) & !spec_field_mask(width, index) == word
            & !spec_field_mask(width, index),
{
}

/// Two fields of one width share no bit.
pub proof fn lemma_field_masks_disjoint(width: u32, index: u32, other: u32)
    by (bit_vector)
    requires
        field_fits(width, index),
        field_fits(width, other),
        other != index,
    ensures
        spec_field_mask(width, index) & spec_field_mask(width, other) == 0,
{
}

/// Writes to two fields of one word give the same word in either order: an
/// update of one pin's field cannot undo an update of another's.
pub proof fn lemma_field_writes_commute(
    word: u32,
    width: u32,
    index: u32,
    value: u32,
    other: u32,
    other_value: u32,
)
    by (bit_vector)
    requires
        field_fits(width, index),
        field_fits(width, other),
        other != index,
    ensures
        with_field(with_field(word, width, index, value), width, other, other_value) == with_field(
            with_field(word, width, other, other_value),
            width,
            index,
            value,
        ),
{
}

} // verus!
