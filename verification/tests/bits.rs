use qingke::bits::{join_words, lower_word, upper_word};

#[test]
fn a_64_bit_value_is_taken_apart_into_two_words() {
    assert_eq!(upper_word(0x0123_4567_89ab_cdef), 0x0123_4567);
    assert_eq!(lower_word(0x0123_4567_89ab_cdef), 0x89ab_cdef);
    assert_eq!(upper_word(0xffff_ffff), 0);
    assert_eq!(lower_word(0xffff_ffff), 0xffff_ffff);
    assert_eq!(upper_word(0x1_0000_0000), 1);
    assert_eq!(lower_word(0x1_0000_0000), 0);
    assert_eq!(upper_word(u64::MAX), u32::MAX);
    assert_eq!(lower_word(u64::MAX), u32::MAX);
    assert_eq!(upper_word(0), 0);
    assert_eq!(lower_word(0), 0);
}

#[test]
fn two_words_are_joined_into_a_64_bit_value() {
    assert_eq!(join_words(0x0123_4567, 0x89ab_cdef), 0x0123_4567_89ab_cdef);
    assert_eq!(join_words(0, 7), 7);
    assert_eq!(join_words(7, 0), 0x7_0000_0000);
    assert_eq!(join_words(u32::MAX, u32::MAX), u64::MAX);
    for value in [0u64, 1, 0xffff_ffff, 0x1_0000_0000, 0xdead_beef_0bad_f00d, u64::MAX] {
        assert_eq!(join_words(upper_word(value), lower_word(value)), value);
    }
}
