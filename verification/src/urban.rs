//! Urban Dictionary definitions and the embed that presents one.
use vstd::prelude::*;
use crate::embed::{EmbedPlan, fields_view};
use crate::text::{decimal, u64_to_decimal};

verus! {

/// `itoa::Buffer::format` on a `u64`: its decimal digits.
#[verifier::external_body]
fn itoa_decimal(value: u64) -> (r: String)
    ensures
        r@ == decimal(value as nat),
{
    let mut buffer = itoa::Buffer::new();
    buffer.format(value).to_string()
}

/// What `serenity::model::Timestamp::parse` makes of a text: `None` where it
/// is not an RFC 3339 date and time, else that instant in UTC as whole
/// seconds since the Unix epoch and the nanoseconds past that second.
pub uninterp spec fn parsed_rfc3339(text: Seq<char>) -> Option<(i64, u32)>;

/// `serenity::model::Timestamp::parse` (chrono's `DateTime::parse_from_rfc3339`,
/// taken to UTC), with the instant it yields read as seconds and
/// nanoseconds. The contract only names the result: which texts parse, and to
/// what, is left to the outside crate.
#[verifier::external_body]
fn parse_timestamp(text: &str) -> (r: Option<(i64, u32)>)
    ensures
        r == parsed_rfc3339(text@),
{
    match serenity::model::Timestamp::parse(text) {
        Ok(t) => Some((t.timestamp(), t.timestamp_subsec_nanos())),
        Err(_) => None,
    }
}

/// A definition, with its text and example in plain form (without the
/// brackets that mark links).
#[derive(Debug)]
pub struct UrbanDefinition {
    pub word: String,
    pub permalink: String,
    pub raw_definition: String,
    pub raw_example: String,
    pub thumbs_up: u64,
    pub thumbs_down: u64,
    pub written_on: String,
}

/// Whether `r` is `embed` presenting `entry`: the word as title linking to
/// the definition, then the definition, the example and the two vote counts,
/// and the time the definition was written where `written` holds one (else the
/// time of `embed`).
pub open spec fn presents(embed: EmbedPlan, entry: UrbanDefinition, written: Option<(i64, u32)>, r: EmbedPlan) -> bool {
    &&& r.title matches Some(t) && t@ == entry.word@
    &&& r.url matches Some(u) && u@ == entry.permalink@
    &&& r.image == embed.image
    &&& r.thumbnail == embed.thumbnail
    &&& r.color == embed.color
    &&& r.timestamp == match written {
        Some(t) => Some(t),
        None => embed.timestamp,
    }
    &&& fields_view(r.fields@) == fields_view(embed.fields@) + seq![
        ("Definition"@, entry.raw_definition@, false),
        ("Example"@, entry.raw_example@, false),
        ("👍"@, decimal(entry.thumbs_up as nat), true),
        ("👎"@, decimal(entry.thumbs_down as nat), true),
    ]
}

/// Presents a definition (see [`presents`]), with the writing time that
/// parsing `written_on` gives.
pub fn populate_embed(embed: EmbedPlan, entry: &UrbanDefinition) -> (r: EmbedPlan)
    ensures
        presents(embed, *entry, parsed_rfc3339(entry.written_on@), r),
{
    let written = parse_timestamp(entry.written_on.as_str());
    populate_embed_with_time(embed, entry, written)
}

/// Presents a definition (see [`presents`]) with `written` as what parsing its
/// writing time gave.
pub fn populate_embed_with_time(embed: EmbedPlan, entry: &UrbanDefinition, written: Option<(i64, u32)>) -> (r: EmbedPlan)
    ensures
        presents(embed, *entry, written, r),
{
    let ghost start = fields_view(embed.fields@);
    let mut e = embed.title(String::from_str(entry.word.as_str()));
    e = e.url(String::from_str(entry.permalink.as_str()));
    e = e.field(String::from_str("Definition"), String::from_str(entry.raw_definition.as_str()), false);
    e = e.field(String::from_str("Example"), String::from_str(entry.raw_example.as_str()), false);
    e = e.field(String::from_str("👍"), u64_to_decimal(entry.thumbs_up), true);
    e = e.field(String::from_str("👎"), itoa_decimal(entry.thumbs_down), true);
    if let Some(t) = written {
        e = e.timestamp(t);
    }
    assert(fields_view(e.fields@) =~= start + seq![
        ("Definition"@, entry.raw_definition@, false),
        ("Example"@, entry.raw_example@, false),
        ("👍"@, decimal(entry.thumbs_up as nat), true),
        ("👎"@, decimal(entry.thumbs_down as nat), true),
    ]);
    e
}

/// The definition a lookup presents: the first one, if any.
pub fn top_definition(list: &Vec<UrbanDefinition>) -> (r: Option<&UrbanDefinition>)
    ensures
        list@.len() == 0 ==> r is None,
        list@.len() > 0 ==> (r matches Some(d) && *d == list@[0]),
{
    if list.len() > 0 {
        Some(&list[0])
    } else {
        None
    }
}

} // verus!
