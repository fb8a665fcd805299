use sen5x_rs::crc::crc;

#[test]
fn example() {
    assert_eq!(crc(&[0xbe, 0xef]), 0x92);
}

#[test]
fn checksum_of_nothing_is_the_initial_value() {
    assert_eq!(crc(&[]), 0xff);
}

#[test]
fn checksum_of_a_single_zero_byte() {
    assert_eq!(crc(&[0x00]), 0xac);
}

#[test]
fn checksum_of_zero_words() {
    assert_eq!(crc(&[0x00, 0x00]), 0x81);
    assert_eq!(crc(&[0x00, 0x01]), 0xb0);
    assert_eq!(crc(&[0xf8, 0x00]), 0xae);
}

#[test]
fn checksum_is_the_same_on_every_call() {
    let word = [0x15, 0x8a];
    assert_eq!(crc(&word), crc(&word));
    assert_eq!(crc(&word), 0x39);
}

#[test]
fn every_single_bit_flip_in_a_word_changes_the_checksum() {
    for hi in 0..=255u8 {
        for lo in 0..=255u8 {
            let sum = crc(&[hi, lo]);
            for bit in 0..8 {
                assert_ne!(crc(&[hi ^ (1 << bit), lo]), sum);
                assert_ne!(crc(&[hi, lo ^ (1 << bit)]), sum);
            }
        }
    }
}

#[test]
fn a_bit_flip_in_a_longer_input_changes_the_checksum() {
    let data = [0x00, 0x12, 0xa0, 0x00, 0x16];
    let sum = crc(&data);
    for at in 0..data.len() {
        for bit in 0..8 {
            let mut changed = data;
            changed[at] ^= 1 << bit;
            assert_ne!(crc(&changed), sum);
        }
    }
}
