use solana_twitter::sizing::{
    record_size, BYTES_PER_CHAR, DISCRIMINATOR_LENGTH, MAX_CONTENT_CHARS, MAX_CONTENT_LENGTH,
    MAX_TOPIC_CHARS, MAX_TOPIC_LENGTH, PUBLIC_KEY_LENGTH, STRING_LENGTH_PREFIX, TIMESTAMP_LENGTH,
};
use solana_twitter::Tweet;

#[test]
fn len_is_1376() {
    assert_eq!(Tweet::LEN, 1376);
}

#[test]
fn declared_constants() {
    assert_eq!(DISCRIMINATOR_LENGTH, 8);
    assert_eq!(PUBLIC_KEY_LENGTH, 32);
    assert_eq!(TIMESTAMP_LENGTH, 8);
    assert_eq!(STRING_LENGTH_PREFIX, 4);
    assert_eq!(BYTES_PER_CHAR, 4);
    assert_eq!(MAX_TOPIC_CHARS, 50);
    assert_eq!(MAX_CONTENT_CHARS, 280);
    assert_eq!(MAX_TOPIC_LENGTH, 200);
    assert_eq!(MAX_CONTENT_LENGTH, 1120);
}

#[test]
fn record_size_at_declared_constants() {
    assert_eq!(record_size(8, 32, 8, 4, 50, 280), 1376);
}

#[test]
fn record_size_from_named_constants_is_len() {
    let size = record_size(
        DISCRIMINATOR_LENGTH,
        PUBLIC_KEY_LENGTH,
        TIMESTAMP_LENGTH,
        STRING_LENGTH_PREFIX,
        MAX_TOPIC_CHARS,
        MAX_CONTENT_CHARS,
    );
    assert_eq!(size, Tweet::LEN);
}

#[test]
fn record_size_larger_topic_bound_moves_only_topic_term() {
    assert_eq!(record_size(8, 32, 8, 4, 100, 280), 1576);
    assert_eq!(
        record_size(8, 32, 8, 4, 100, 280),
        record_size(8, 32, 8, 4, 50, 280) + 200
    );
}

#[test]
fn record_size_is_sum_of_field_widths() {
    let (d, k, t, p, tc, cc) = (3usize, 5, 7, 2, 11, 13);
    assert_eq!(
        record_size(d, k, t, p, tc, cc),
        d + k + t + (p + tc * 4) + (p + cc * 4)
    );
}
