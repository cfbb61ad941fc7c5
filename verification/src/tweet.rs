//! The record type ("Tweet") and the proof that every record within its
//! declared character limits serializes into the statically reserved size.

use vstd::prelude::*;
use vstd::string::StrSliceExecFns;
use vstd::utf8::{encode_scalar, encode_utf8};

use crate::sizing::{
    spec_record_size, DISCRIMINATOR_LENGTH, PUBLIC_KEY_LENGTH, TIMESTAMP_LENGTH,
    STRING_LENGTH_PREFIX, BYTES_PER_CHAR, MAX_TOPIC_CHARS, MAX_CONTENT_CHARS, MAX_TOPIC_LENGTH,
    MAX_CONTENT_LENGTH,
};

verus! {

/// Number of bytes in the UTF-8 encoding of the character sequence `s`.
/// This is what `str::len` returns on a string viewed as `s`.
pub open spec fn utf8_len(s: Seq<char>) -> int {
    encode_utf8(s).len() as int
}

/// The UTF-8 encoding of one Unicode scalar takes between 1 and
/// `BYTES_PER_CHAR` bytes.
pub proof fn lemma_encode_scalar_len(v: u32)
    ensures
        1 <= encode_scalar(v).len() <= BYTES_PER_CHAR,
{
}

/// The UTF-8 encoding of a character sequence never takes more than
/// `BYTES_PER_CHAR` bytes per character: the worst case the layout
/// reserves for.
pub proof fn lemma_utf8_len_bound(s: Seq<char>)
    ensures
        0 <= utf8_len(s) <= s.len() * (BYTES_PER_CHAR as int),
    decreases s.len(),
{
    if s.len() > 0 {
        lemma_encode_scalar_len(s[0] as u32);
        lemma_utf8_len_bound(s.drop_first());
    }
}

/// One unit of on-chain storage: an author identity, a timestamp, a topic,
/// and a content string.
pub struct Tweet {
    /// The author's 32-byte public-key identity, immutable once set.
    pub author: [u8; PUBLIC_KEY_LENGTH],
    /// Seconds (or a similar epoch unit) since the epoch.
    pub timestamp: i64,
    /// UTF-8 topic text, at most `MAX_TOPIC_CHARS` characters.
    pub topic: String,
    /// UTF-8 content text, at most `MAX_CONTENT_CHARS` characters.
    pub content: String,
}

impl Tweet {
    /// Worst-case serialized size of one record: the storage the host
    /// platform must pre-allocate before a record can be written.
    pub const LEN: usize = DISCRIMINATOR_LENGTH + PUBLIC_KEY_LENGTH + TIMESTAMP_LENGTH
        + STRING_LENGTH_PREFIX + MAX_TOPIC_LENGTH + STRING_LENGTH_PREFIX + MAX_CONTENT_LENGTH;

    /// Both text fields respect their declared character-count bounds.
    pub open spec fn within_limits(self) -> bool {
        self.topic@.len() <= MAX_TOPIC_CHARS && self.content@.len() <= MAX_CONTENT_CHARS
    }

    /// Exact serialized size of this record: discriminator, author key and
    /// timestamp, then each text field as a length prefix followed by its
    /// UTF-8 bytes.
    pub open spec fn spec_serialized_size(self) -> int {
        DISCRIMINATOR_LENGTH + PUBLIC_KEY_LENGTH + TIMESTAMP_LENGTH + (
        STRING_LENGTH_PREFIX as int) + utf8_len(self.topic@) + (STRING_LENGTH_PREFIX as int)
            + utf8_len(self.content@)
    }

    /// Builds a record after checking the character-count bounds of both
    /// text fields: `Some` exactly when topic and content are within their
    /// declared limits.
    pub fn try_new(
        author: [u8; PUBLIC_KEY_LENGTH],
        timestamp: i64,
        topic: String,
        content: String,
    ) -> (result: Option<Tweet>)
        ensures
            result is Some <==> topic@.len() <= MAX_TOPIC_CHARS && content@.len()
                <= MAX_CONTENT_CHARS,
            match result {
                Some(t) => t.author == author && t.timestamp == timestamp && t.topic@ == topic@
                    && t.content@ == content@ && t.within_limits(),
                None => true,
            },
    {
        let topic_chars = topic.as_str().unicode_len();
        let content_chars = content.as_str().unicode_len();
        if topic_chars <= MAX_TOPIC_CHARS && content_chars <= MAX_CONTENT_CHARS {
            Some(Tweet { author, timestamp, topic, content })
        } else {
            None
        }
    }

    /// Exact serialized size of this record in bytes. Never larger than
    /// `Tweet::LEN` when the record is within its character limits.
    pub fn serialized_len(&self) -> (size: usize)
        requires
            self.spec_serialized_size() <= usize::MAX,
        ensures
            size == self.spec_serialized_size(),
            self.within_limits() ==> size <= Tweet::LEN,
    {
        proof {
            lemma_utf8_len_bound(self.topic@);
            lemma_utf8_len_bound(self.content@);
        }
        let topic_bytes = self.topic.as_str().len();
        let content_bytes = self.content.as_str().len();
        DISCRIMINATOR_LENGTH + PUBLIC_KEY_LENGTH + TIMESTAMP_LENGTH + STRING_LENGTH_PREFIX
            + topic_bytes + STRING_LENGTH_PREFIX + content_bytes
    }
}

/// Every topic of at most `MAX_TOPIC_CHARS` characters serializes (length
/// prefix plus UTF-8 bytes) into at most the slot the layout reserves for
/// it: `STRING_LENGTH_PREFIX + MAX_TOPIC_LENGTH` (204) bytes.
pub proof fn lemma_topic_field_fits(topic: Seq<char>)
    requires
        topic.len() <= MAX_TOPIC_CHARS,
    ensures
        (STRING_LENGTH_PREFIX as int) + utf8_len(topic) <= (STRING_LENGTH_PREFIX
            + MAX_TOPIC_LENGTH) as int,
{
    lemma_utf8_len_bound(topic);
}

/// Every content string of at most `MAX_CONTENT_CHARS` characters
/// serializes (length prefix plus UTF-8 bytes) into at most the slot the
/// layout reserves for it: `STRING_LENGTH_PREFIX + MAX_CONTENT_LENGTH`
/// (1124) bytes.
pub proof fn lemma_content_field_fits(content: Seq<char>)
    requires
        content.len() <= MAX_CONTENT_CHARS,
    ensures
        (STRING_LENGTH_PREFIX as int) + utf8_len(content) <= (STRING_LENGTH_PREFIX
            + MAX_CONTENT_LENGTH) as int,
{
    lemma_utf8_len_bound(content);
}

/// The storage guarantee: a record whose text fields respect their
/// character-count bounds serializes to at most `Tweet::LEN` bytes.
pub proof fn lemma_serialized_size_at_most_len(t: Tweet)
    requires
        t.within_limits(),
    ensures
        t.spec_serialized_size() <= Tweet::LEN as int,
{
    lemma_topic_field_fits(t.topic@);
    lemma_content_field_fits(t.content@);
}

/// The reserved size equals 1376 bytes for the declared constants.
pub proof fn lemma_len_value()
    ensures
        Tweet::LEN == 1376,
{
}

/// `Tweet::LEN` is the parametric record size evaluated at the declared
/// widths and character bounds: only those constants feed it.
pub proof fn lemma_len_from_constants()
    ensures
        Tweet::LEN as int == spec_record_size(
            DISCRIMINATOR_LENGTH as int,
            PUBLIC_KEY_LENGTH as int,
            TIMESTAMP_LENGTH as int,
            STRING_LENGTH_PREFIX as int,
            MAX_TOPIC_CHARS as int,
            MAX_CONTENT_CHARS as int,
        ),
{
}

} // verus!
