//! Fixed-layout record sizing.
//!
//! A record is stored as a discriminator, a fixed-size author key, a
//! fixed-size timestamp, and two length-prefixed text fields. Storage for a
//! record must be allocated before the record is written, so the layout
//! reserves, for each text field, the worst case: its maximum character
//! count times the worst-case bytes per character of the encoding.

use vstd::prelude::*;

verus! {

/// Width in bytes of the record-type discriminator that prefixes every
/// serialized record.
pub const DISCRIMINATOR_LENGTH: usize = 8;

/// Width in bytes of the author's public-key identity field.
pub const PUBLIC_KEY_LENGTH: usize = 32;

/// Width in bytes of the timestamp field (a 64-bit signed integer).
pub const TIMESTAMP_LENGTH: usize = 8;

/// Width in bytes of the length prefix stored before each text field.
pub const STRING_LENGTH_PREFIX: usize = 4;

/// Worst-case bytes per character of the text encoding (UTF-8 never takes
/// more than 4 bytes for one character).
pub const BYTES_PER_CHAR: usize = 4;

/// Maximum number of characters allowed in a topic.
pub const MAX_TOPIC_CHARS: usize = 50;

/// Maximum number of characters allowed in a content string.
pub const MAX_CONTENT_CHARS: usize = 280;

/// Bytes reserved for the topic's text: its character bound at the
/// worst-case encoding width.
pub const MAX_TOPIC_LENGTH: usize = MAX_TOPIC_CHARS * BYTES_PER_CHAR;

/// Bytes reserved for the content's text: its character bound at the
/// worst-case encoding width.
pub const MAX_CONTENT_LENGTH: usize = MAX_CONTENT_CHARS * BYTES_PER_CHAR;

/// Worst-case serialized size of a record laid out from the given widths:
/// the three fixed fields, then one length-prefixed slot per text field,
/// each sized for `chars * BYTES_PER_CHAR` bytes of text.
pub open spec fn spec_record_size(
    discriminator: int,
    public_key: int,
    timestamp: int,
    prefix: int,
    topic_chars: int,
    content_chars: int,
) -> int {
    discriminator + public_key + timestamp + (prefix + topic_chars * (BYTES_PER_CHAR as int)) + (
    prefix + content_chars * (BYTES_PER_CHAR as int))
}

/// Computes the worst-case serialized record size from the given field
/// widths and character bounds.
pub fn record_size(
    discriminator: usize,
    public_key: usize,
    timestamp: usize,
    prefix: usize,
    topic_chars: usize,
    content_chars: usize,
) -> (size: usize)
    requires
        spec_record_size(
            discriminator as int,
            public_key as int,
            timestamp as int,
            prefix as int,
            topic_chars as int,
            content_chars as int,
        ) <= usize::MAX,
    ensures
        size == spec_record_size(
            discriminator as int,
            public_key as int,
            timestamp as int,
            prefix as int,
            topic_chars as int,
            content_chars as int,
        ),
{
    discriminator + public_key + timestamp + prefix + topic_chars * BYTES_PER_CHAR + prefix
        + content_chars * BYTES_PER_CHAR
}

/// The computed size is exactly the sum of the five serialized field
/// widths: discriminator, identity, timestamp, topic slot (prefix plus
/// text bytes), and content slot (prefix plus text bytes), for any
/// substitution of the named widths and character bounds.
pub proof fn lemma_record_size_is_field_sum(
    discriminator: int,
    public_key: int,
    timestamp: int,
    prefix: int,
    topic_chars: int,
    content_chars: int,
)
    ensures
        spec_record_size(discriminator, public_key, timestamp, prefix, topic_chars, content_chars)
            == discriminator + public_key + timestamp + (prefix + topic_chars * (
        BYTES_PER_CHAR as int)) + (prefix + content_chars * (BYTES_PER_CHAR as int)),
{
}

} // verus!
