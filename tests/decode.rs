use khemu::arm64::facility::{bitfield_replicate, logic_imm_decode_wmask};
use khemu::bits::{extract, sextract};

#[test]
fn extract_reads_fields() {
    assert_eq!(extract(0x91000400, 10, 12), 1);
    assert_eq!(extract(0x91000400, 31, 1), 1);
    assert_eq!(extract(0xD2BBD5A0, 5, 16), 0xdead);
    assert_eq!(extract(0xD2BBD5A0, 21, 2), 1);
}

#[test]
fn sextract_sign_extends() {
    assert_eq!(sextract(0x17ffffff, 0, 26), -1);
    assert_eq!(sextract(0x14000004, 0, 26), 4);
    assert_eq!(sextract(0x54ffffe0, 5, 19), -1);
    assert_eq!(sextract(0x003f8000, 15, 7), -1);
    assert_eq!(sextract(0x00010000, 15, 7), 2);
}

#[test]
fn wmask_of_64_bit_elements() {
    // N = 1, imms = 0, immr = 0: a single one.
    assert_eq!(logic_imm_decode_wmask(1, 0, 0), Some(1));
    // N = 1, imms = 7, immr = 0: the low byte.
    assert_eq!(logic_imm_decode_wmask(1, 7, 0), Some(0xff));
    // N = 1, imms = 0, immr = 1: one bit rotated right to the top.
    assert_eq!(logic_imm_decode_wmask(1, 0, 1), Some(0x8000_0000_0000_0000));
    // N = 1, imms = 62, immr = 0: all but the top bit.
    assert_eq!(logic_imm_decode_wmask(1, 62, 0), Some(0x7fff_ffff_ffff_ffff));
}

#[test]
fn wmask_of_small_elements_is_replicated() {
    // 2-bit elements `01`.
    assert_eq!(logic_imm_decode_wmask(0, 0b111100, 0), Some(0x5555_5555_5555_5555));
    // 2-bit elements rotated by one: `10`.
    assert_eq!(logic_imm_decode_wmask(0, 0b111100, 1), Some(0xaaaa_aaaa_aaaa_aaaa));
    // 8-bit elements, run of 4: `0x0f`.
    assert_eq!(logic_imm_decode_wmask(0, 0b110011, 0), Some(0x0f0f_0f0f_0f0f_0f0f));
    // 32-bit elements, run of 16 rotated by 8.
    assert_eq!(logic_imm_decode_wmask(0, 15, 8), Some(0xff0000ff_ff0000ff));
    // 16-bit elements, run of 1.
    assert_eq!(logic_imm_decode_wmask(0, 0b100000, 0), Some(0x0001_0001_0001_0001));
}

#[test]
fn wmask_reserved_encodings_are_none() {
    // A run of all ones in its element.
    assert_eq!(logic_imm_decode_wmask(1, 63, 0), None);
    assert_eq!(logic_imm_decode_wmask(0, 31, 0), None);
    assert_eq!(logic_imm_decode_wmask(0, 0b111101, 0), None);
    // No element size.
    assert_eq!(logic_imm_decode_wmask(0, 0b111110, 0), None);
    assert_eq!(logic_imm_decode_wmask(0, 0b111111, 0), None);
}

#[test]
fn replicate_repeats_the_element() {
    assert_eq!(bitfield_replicate(0b01, 2), 0x5555_5555_5555_5555);
    assert_eq!(bitfield_replicate(0x3, 8), 0x0303_0303_0303_0303);
    assert_eq!(bitfield_replicate(0x1234, 64), 0x1234);
}
