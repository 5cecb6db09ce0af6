//! What an embed message is made of: title, links, colour and fields.
use vstd::prelude::*;

verus! {

/// One field of an embed.
#[derive(Debug)]
pub struct EmbedField {
    pub name: String,
    pub value: String,
    pub inline: bool,
}

/// The content of a field: name, value and whether it is inline.
pub type FieldView = (Seq<char>, Seq<char>, bool);

/// The content of a field.
pub open spec fn field_view(f: EmbedField) -> FieldView {
    (f.name@, f.value@, f.inline)
}

/// The contents of a list of fields.
pub open spec fn fields_view(fields: Seq<EmbedField>) -> Seq<FieldView> {
    fields.map_values(|f: EmbedField| field_view(f))
}

/// An embed under construction. Each setter replaces what was set before;
/// fields are appended in order.
#[derive(Debug)]
pub struct EmbedPlan {
    pub title: Option<String>,
    pub url: Option<String>,
    pub image: Option<String>,
    pub thumbnail: Option<String>,
    pub color: Option<u32>,
    /// The time the embed shows, as whole seconds since the Unix epoch (UTC)
    /// and the nanoseconds past that second.
    pub timestamp: Option<(i64, u32)>,
    pub fields: Vec<EmbedField>,
}

impl EmbedPlan {
    /// An embed with nothing set.
    pub fn new() -> (r: EmbedPlan)
        ensures
            r.title is None,
            r.url is None,
            r.image is None,
            r.thumbnail is None,
            r.color is None,
            r.timestamp is None,
            r.fields@.len() == 0,
    {
        EmbedPlan {
            title: None,
            url: None,
            image: None,
            thumbnail: None,
            color: None,
            timestamp: None,
            fields: Vec::new(),
        }
    }

    /// Sets the title.
    pub fn title(self, title: String) -> (r: EmbedPlan)
        ensures
            r == (EmbedPlan { title: Some(title), ..self }),
    {
        EmbedPlan { title: Some(title), ..self }
    }

    /// Sets the link of the title.
    pub fn url(self, url: String) -> (r: EmbedPlan)
        ensures
            r == (EmbedPlan { url: Some(url), ..self }),
    {
        EmbedPlan { url: Some(url), ..self }
    }

    /// Sets the image.
    pub fn image(self, image: String) -> (r: EmbedPlan)
        ensures
            r == (EmbedPlan { image: Some(image), ..self }),
    {
        EmbedPlan { image: Some(image), ..self }
    }

    /// Sets the thumbnail.
    pub fn thumbnail(self, thumbnail: String) -> (r: EmbedPlan)
        ensures
            r == (EmbedPlan { thumbnail: Some(thumbnail), ..self }),
    {
        EmbedPlan { thumbnail: Some(thumbnail), ..self }
    }

    /// Sets the colour.
    pub fn color(self, color: u32) -> (r: EmbedPlan)
        ensures
            r == (EmbedPlan { color: Some(color), ..self }),
    {
        EmbedPlan { color: Some(color), ..self }
    }

    /// Sets the time the embed shows.
    pub fn timestamp(self, timestamp: (i64, u32)) -> (r: EmbedPlan)
        ensures
            r == (EmbedPlan { timestamp: Some(timestamp), ..self }),
    {
        EmbedPlan { timestamp: Some(timestamp), ..self }
    }

    /// Appends a field.
    pub fn field(self, name: String, value: String, inline: bool) -> (r: EmbedPlan)
        ensures
            r.title == self.title,
            r.url == self.url,
            r.image == self.image,
            r.thumbnail == self.thumbnail,
            r.color == self.color,
            r.timestamp == self.timestamp,
            fields_view(r.fields@) == fields_view(self.fields@).push((name@, value@, inline)),
    {
        let mut s = self;
        let ghost old_fields = s.fields@;
        s.fields.push(EmbedField { name, value, inline });
        assert(fields_view(s.fields@) =~= fields_view(old_fields).push((name@, value@, inline)));
        s
    }
}

} // verus!
