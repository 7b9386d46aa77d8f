//! The listing of the streams that a container holds: which properties of
//! the player tell about them, and how one stream is described in text.

use vstd::prelude::*;
use vstd::string::StringExecFns;
use crate::types::copy_text;

verus! {

/// The kinds of stream a player tells apart.
#[derive(Clone, Copy, Debug, PartialEq, Eq, Structural)]
pub enum StreamKind {
    Video,
    Audio,
    Text,
}

/// What is known of one stream from its tags.
#[derive(Debug, PartialEq, Eq)]
pub struct StreamTags {
    pub codec: Option<String>,
    pub language: Option<String>,
    pub bitrate: Option<u32>,
}

impl Clone for StreamTags {
    fn clone(&self) -> (copy: StreamTags)
        ensures
            copy == *self,
    {
        StreamTags {
            codec: copy_text(&self.codec),
            language: copy_text(&self.language),
            bitrate: self.bitrate,
        }
    }
}

/// The name of a kind of stream, as the player spells it.
pub open spec fn kind_name(kind: StreamKind) -> Seq<char> {
    match kind {
        StreamKind::Video => "video"@,
        StreamKind::Audio => "audio"@,
        StreamKind::Text => "text"@,
    }
}

/// The character of the decimal digit `d`.
pub open spec fn digit(d: nat) -> char {
    if d == 0 {
        '0'
    } else if d == 1 {
        '1'
    } else if d == 2 {
        '2'
    } else if d == 3 {
        '3'
    } else if d == 4 {
        '4'
    } else if d == 5 {
        '5'
    } else if d == 6 {
        '6'
    } else if d == 7 {
        '7'
    } else if d == 8 {
        '8'
    } else {
        '9'
    }
}

/// The decimal digits of `n`, most significant first, without leading zeros.
pub open spec fn decimal_digits(n: nat) -> Seq<char>
    decreases n,
{
    if n < 10 {
        seq![digit(n)]
    } else {
        decimal_digits(n / 10).push(digit(n % 10))
    }
}

/// `i` in decimal, with a minus sign if it is negative.
pub open spec fn decimal(i: int) -> Seq<char> {
    if i < 0 {
        seq!['-'] + decimal_digits((-i) as nat)
    } else {
        decimal_digits(i as nat)
    }
}

/// One line of a description: a label, a value, a blank and a line break.
pub open spec fn tag_line(label: Seq<char>, value: Seq<char>) -> Seq<char> {
    label + value + " \n"@
}

/// The line for a tag that holds text, empty if the tag is absent.
pub open spec fn text_tag(label: Seq<char>, value: Option<String>) -> Seq<char> {
    match value {
        Some(text) => tag_line(label, text@),
        None => Seq::empty(),
    }
}

/// The line for a tag that holds a number, empty if the tag is absent.
pub open spec fn number_tag(label: Seq<char>, value: Option<u32>) -> Seq<char> {
    match value {
        Some(number) => tag_line(label, decimal(number as int)),
        None => Seq::empty(),
    }
}

/// The description of stream number `index` of kind `kind`: a heading, then
/// a line each for the codec, the language and the bitrate, as far as the
/// tags hold them.
pub open spec fn stream_description(kind: StreamKind, index: i32, tags: StreamTags) -> Seq<char> {
    kind_name(kind) + " stream "@ + decimal(index as int) + ":\n "@ + text_tag(
        "    codec: "@,
        tags.codec,
    ) + text_tag("    language: "@, tags.language) + number_tag("    bitrate: "@, tags.bitrate)
}

fn kind_text(kind: StreamKind) -> (name: &'static str)
    ensures
        name@ == kind_name(kind),
{
    match kind {
        StreamKind::Video => "video",
        StreamKind::Audio => "audio",
        StreamKind::Text => "text",
    }
}

fn digit_text(d: u64) -> (text: &'static str)
    requires
        d < 10,
    ensures
        text@ == seq![digit(d as nat)],
{
    proof {
        reveal_strlit("0");
        reveal_strlit("1");
        reveal_strlit("2");
        reveal_strlit("3");
        reveal_strlit("4");
        reveal_strlit("5");
        reveal_strlit("6");
        reveal_strlit("7");
        reveal_strlit("8");
        reveal_strlit("9");
    }
    let text = if d == 0 {
        "0"
    } else if d == 1 {
        "1"
    } else if d == 2 {
        "2"
    } else if d == 3 {
        "3"
    } else if d == 4 {
        "4"
    } else if d == 5 {
        "5"
    } else if d == 6 {
        "6"
    } else if d == 7 {
        "7"
    } else if d == 8 {
        "8"
    } else {
        "9"
    };
    assert(text@ =~= seq![digit(d as nat)]);
    text
}

fn append_digits(text: &mut String, n: u64)
    ensures
        final(text)@ == old(text)@ + decimal_digits(n as nat),
    decreases n,
{
    if n >= 10 {
        append_digits(text, n / 10);
    }
    text.append(digit_text(n % 10));
    assert(text@ =~= old(text)@ + decimal_digits(n as nat));
}

/// Appends `i` in decimal to `text`.
pub fn append_decimal(text: &mut String, i: i64)
    ensures
        final(text)@ == old(text)@ + decimal(i as int),
{
    if i < 0 {
        text.append("-");
        let magnitude: u64 = ((-(i + 1)) as u64) + 1;
        append_digits(text, magnitude);
        proof {
            reveal_strlit("-");
            assert("-"@ =~= seq!['-']);
            assert(text@ =~= old(text)@ + (seq!['-'] + decimal_digits((-i) as nat)));
        }
    } else {
        append_digits(text, i as u64);
    }
}

fn append_text_tag(text: &mut String, label: &str, value: &Option<String>)
    ensures
        final(text)@ == old(text)@ + text_tag(label@, *value),
{
    match value {
        Some(content) => {
            text.append(label);
            text.append(content.as_str());
            text.append(" \n");
            assert(text@ =~= old(text)@ + tag_line(label@, content@));
        },
        None => {
            assert(text@ =~= old(text)@ + Seq::<char>::empty());
        },
    }
}

fn append_number_tag(text: &mut String, label: &str, value: Option<u32>)
    ensures
        final(text)@ == old(text)@ + number_tag(label@, value),
{
    match value {
        Some(number) => {
            text.append(label);
            append_decimal(text, number as i64);
            text.append(" \n");
            assert(text@ =~= old(text)@ + tag_line(label@, decimal(number as int)));
        },
        None => {
            assert(text@ =~= old(text)@ + Seq::<char>::empty());
        },
    }
}

/// The property of the player that counts the streams of kind `kind`:
/// `n-video`, `n-audio` or `n-text`.
pub fn count_property(kind: StreamKind) -> (name: String)
    ensures
        name@ == "n-"@ + kind_name(kind),
{
    let mut name = String::from_str("n-");
    name.append(kind_text(kind));
    name
}

/// The signal of the player that hands out the tags of one stream of kind
/// `kind`: `get-video-tags`, `get-audio-tags` or `get-text-tags`.
pub fn tags_signal(kind: StreamKind) -> (name: String)
    ensures
        name@ == "get-"@ + kind_name(kind) + "-tags"@,
{
    let mut name = String::from_str("get-");
    name.append(kind_text(kind));
    name.append("-tags");
    name
}

/// The kinds of stream in the order in which a listing shows them.
pub fn listing_order() -> (kinds: Vec<StreamKind>)
    ensures
        kinds@ == seq![StreamKind::Video, StreamKind::Audio, StreamKind::Text],
{
    let mut kinds: Vec<StreamKind> = Vec::new();
    kinds.push(StreamKind::Video);
    kinds.push(StreamKind::Audio);
    kinds.push(StreamKind::Text);
    kinds
}

/// Describes stream number `index` of kind `kind` from its tags.
pub fn describe_stream(kind: StreamKind, index: i32, tags: &StreamTags) -> (text: String)
    ensures
        text@ == stream_description(kind, index, *tags),
{
    let mut text = String::from_str(kind_text(kind));
    text.append(" stream ");
    append_decimal(&mut text, index as i64);
    text.append(":\n ");
    append_text_tag(&mut text, "    codec: ", &tags.codec);
    append_text_tag(&mut text, "    language: ", &tags.language);
    append_number_tag(&mut text, "    bitrate: ", tags.bitrate);
    text
}

} // verus!
