use kitties::dna::crossover;
use kitties::randomness::{random_value, Randomness};

#[test]
fn crossover_takes_first_parent_where_selector_is_one() {
    let selector = [0xF0u8; 16];
    let dna_1 = [0xAAu8; 16];
    let dna_2 = [0x55u8; 16];
    assert_eq!(crossover(&selector, &dna_1, &dna_2), [0xA5u8; 16]);
}

#[test]
fn crossover_with_all_ones_is_first_parent() {
    let dna_1 = [1, 2, 3, 4, 5, 6, 7, 8, 9, 10, 11, 12, 13, 14, 15, 16];
    let dna_2 = [255, 254, 253, 252, 251, 250, 249, 248, 247, 246, 245, 244, 243, 242, 241, 240];
    assert_eq!(crossover(&[0xFFu8; 16], &dna_1, &dna_2), dna_1);
}

#[test]
fn crossover_with_all_zeros_is_second_parent() {
    let dna_1 = [1, 2, 3, 4, 5, 6, 7, 8, 9, 10, 11, 12, 13, 14, 15, 16];
    let dna_2 = [255, 254, 253, 252, 251, 250, 249, 248, 247, 246, 245, 244, 243, 242, 241, 240];
    assert_eq!(crossover(&[0u8; 16], &dna_1, &dna_2), dna_2);
}

#[test]
fn crossover_is_bitwise_in_every_byte() {
    let selector = [244, 40, 156, 86, 37, 138, 70, 18, 20, 48, 39, 135, 212, 166, 211, 233];
    let dna_1 = [215, 75, 66, 60, 234, 156, 146, 62, 247, 65, 230, 205, 192, 2, 31, 70];
    let dna_2 = [13, 191, 43, 48, 183, 130, 44, 57, 218, 76, 239, 149, 196, 179, 180, 211];
    let child = crossover(&selector, &dna_1, &dna_2);
    for i in 0..16 {
        assert_eq!(child[i], (selector[i] & dna_1[i]) | (!selector[i] & dna_2[i]));
    }
    assert_eq!(child, [221, 159, 35, 52, 178, 136, 42, 59, 222, 76, 238, 149, 192, 19, 55, 82]);
}

#[test]
fn crossover_of_a_kitty_with_itself_is_that_kitty() {
    let selector = [0x3Cu8; 16];
    let dna = [9, 8, 7, 6, 5, 4, 3, 2, 1, 0, 1, 2, 3, 4, 5, 6];
    assert_eq!(crossover(&selector, &dna, &dna), dna);
}

#[test]
fn crossover_mixes_single_bits() {
    let mut selector = [0u8; 16];
    selector[0] = 0b0000_0001;
    selector[15] = 0b1000_0000;
    let child = crossover(&selector, &[0xFFu8; 16], &[0u8; 16]);
    let mut expected = [0u8; 16];
    expected[0] = 1;
    expected[15] = 128;
    assert_eq!(child, expected);
}

#[test]
fn random_value_of_the_first_accounts() {
    let randomness = Randomness { seed: [0u8; 32], block_number: 0 };
    assert_eq!(
        random_value(&randomness, 1, Some(0)),
        [215, 75, 66, 60, 234, 156, 146, 62, 247, 65, 230, 205, 192, 2, 31, 70]
    );
    assert_eq!(
        random_value(&randomness, 2, Some(0)),
        [13, 191, 43, 48, 183, 130, 44, 57, 218, 76, 239, 149, 196, 179, 180, 211]
    );
    assert_eq!(
        random_value(&randomness, 3, Some(0)),
        [244, 40, 156, 86, 37, 138, 70, 18, 20, 48, 39, 135, 212, 166, 211, 233]
    );
}

#[test]
fn random_value_depends_on_the_call_index() {
    let randomness = Randomness { seed: [0u8; 32], block_number: 0 };
    assert_eq!(
        random_value(&randomness, 1, None),
        [13, 230, 184, 118, 55, 106, 96, 136, 215, 112, 142, 153, 15, 242, 178, 234]
    );
    assert_eq!(
        random_value(&randomness, 1, Some(1)),
        [7, 136, 28, 57, 251, 52, 248, 145, 171, 205, 206, 44, 214, 195, 177, 37]
    );
}

#[test]
fn random_value_depends_on_the_block_number() {
    let randomness = Randomness { seed: [0u8; 32], block_number: 1 };
    assert_eq!(
        random_value(&randomness, 1, Some(0)),
        [47, 29, 77, 0, 174, 39, 210, 164, 191, 166, 69, 154, 121, 134, 56, 114]
    );
}

#[test]
fn random_value_hashes_every_field_in_little_endian() {
    let mut seed = [0u8; 32];
    for i in 0..32 {
        seed[i] = i as u8;
    }
    let randomness = Randomness { seed, block_number: 0x0102030405060708 };
    assert_eq!(
        random_value(&randomness, 0x1122334455667788, None),
        [67, 244, 204, 148, 161, 41, 129, 205, 17, 160, 112, 12, 203, 201, 129, 127]
    );
    assert_eq!(
        random_value(&randomness, 0x1122334455667788, Some(0xA1B2C3D4)),
        [83, 147, 4, 195, 64, 109, 108, 190, 115, 61, 41, 139, 217, 230, 151, 163]
    );
}

#[test]
fn random_value_is_the_same_for_the_same_input() {
    let randomness = Randomness { seed: [7u8; 32], block_number: 42 };
    assert_eq!(random_value(&randomness, 5, Some(3)), random_value(&randomness, 5, Some(3)));
    assert_ne!(random_value(&randomness, 5, Some(3)), random_value(&randomness, 6, Some(3)));
}
