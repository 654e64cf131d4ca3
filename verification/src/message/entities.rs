//! The entities of a Tweet: hashtags, symbols, URLs, user mentions and the sizes of media.
//!
//! Each is a record (see [`crate::message::record`]); `indices` is the pair of offsets in the
//! Tweet's text where the entity begins and ends.

use vstd::prelude::*;

use crate::json::{str_eq, DecodeError, JsonValue};
use crate::message::record::{
    decode_record, value_ok, indices_value, lemma_list_ok, lemma_record_ok, nullable_str_text,
    opt_u64_value, read_indices, read_nullable_str, read_opt_u64, read_str, read_u64,
    spec_record, str_value, u64_value, FieldType,
    member_or_null, record_fields_come_from_their_members,
};

verus! {

/// How a media size was obtained from the uploaded photo or video.
#[derive(Clone, Debug)]
pub enum Resize {
    /// Resized to fit one dimension, keeping the aspect ratio.
    Fit,
    /// Cropped to a given resolution.
    Crop,
    /// Another value.
    Custom(String),
}

pub open spec fn resize_text(r: Resize) -> Seq<char> {
    match r {
        Resize::Fit => "fit"@,
        Resize::Crop => "crop"@,
        Resize::Custom(s) => s@,
    }
}

/// The value that a `resize` text stands for.
pub open spec fn spec_resize(s: String) -> Resize {
    if s@ == "fit"@ {
        Resize::Fit
    } else if s@ == "crop"@ {
        Resize::Crop
    } else {
        Resize::Custom(s)
    }
}

/// The known resizings are the API's words: a resizing's text is "fit" exactly when it is
/// `Fit` or a custom value of that text, and "crop" exactly when it is `Crop` or a custom
/// value of that text; and the resizing read from a text has that text.
pub proof fn resize_texts_are_the_api_words(x: Resize, s: String)
    ensures
        resize_text(x) == "fit"@ <==> (x is Fit || (x matches Resize::Custom(c) && c@ == "fit"@)),
        resize_text(x) == "crop"@ <==> (x is Crop || (x matches Resize::Custom(c) && c@ == "crop"@)),
        resize_text(spec_resize(s)) == s@,
{
    reveal_strlit("fit");
    reveal_strlit("crop");
    assert("fit"@.len() == 3 && "crop"@.len() == 4);
}

impl Resize {
    /// The text of the value.
    pub fn as_str(&self) -> (r: &str)
        ensures
            r@ == resize_text(*self),
    {
        match self {
            Resize::Fit => "fit",
            Resize::Crop => "crop",
            Resize::Custom(s) => s.as_str(),
        }
    }

    /// The value that a text stands for.
    pub fn from_text(s: String) -> (r: Resize)
        ensures
            r == spec_resize(s),
    {
        if str_eq(s.as_str(), "fit") {
            Resize::Fit
        } else if str_eq(s.as_str(), "crop") {
            Resize::Crop
        } else {
            Resize::Custom(s)
        }
    }
}

/// Two values are equal when their texts are: a custom value equals the known value of the
/// same text.
impl PartialEq for Resize {
    fn eq(&self, other: &Self) -> (r: bool) {
        str_eq(self.as_str(), other.as_str())
    }
}

impl vstd::std_specs::cmp::PartialEqSpecImpl for Resize {
    open spec fn obeys_eq_spec() -> bool {
        true
    }

    open spec fn eq_spec(&self, other: &Self) -> bool {
        resize_text(*self) == resize_text(*other)
    }
}

impl Eq for Resize {

}

/// A hashtag in a Tweet's text.
#[derive(Debug, PartialEq, Eq)]
pub struct Hashtag {
    pub indices: (u64, u64),
    /// The text of the hashtag, without the `#`.
    pub text: String,
}

/// A cashtag (such as `$TWTR`) in a Tweet's text.
#[derive(Debug, PartialEq, Eq)]
pub struct Symbol {
    /// The text of the symbol, without the `$`.
    pub text: String,
    pub indices: (u64, u64),
}

/// A URL in a Tweet's text.
#[derive(Debug, PartialEq, Eq)]
pub struct Url {
    /// The URL as shown; empty where it was `null` or missing.
    pub display_url: String,
    /// The URL in full; empty where it was `null` or missing.
    pub expanded_url: String,
    pub indices: (u64, u64),
    /// The wrapped URL, as it stands in the text.
    pub url: String,
}

/// [`Url`] with texts in place of strings.
pub struct UrlModel {
    pub display_url: Seq<char>,
    pub expanded_url: Seq<char>,
    pub indices: (u64, u64),
    pub url: Seq<char>,
}

pub open spec fn url_view(u: Url) -> UrlModel {
    UrlModel {
        display_url: u.display_url@,
        expanded_url: u.expanded_url@,
        indices: u.indices,
        url: u.url@,
    }
}

/// A user mentioned in a Tweet's text.
#[derive(Debug, PartialEq, Eq)]
pub struct UserMention {
    pub id: u64,
    pub indices: (u64, u64),
    pub name: String,
    pub screen_name: String,
}

/// One size of a photo or video.
#[derive(Clone, Debug, PartialEq, Eq)]
pub struct Size {
    /// The height, in pixels.
    pub h: u64,
    pub resize: Resize,
    /// The width, in pixels.
    pub w: u64,
}

// Field lists of the records.
pub open spec fn hashtag_fields() -> Seq<(&'static str, FieldType)> {
    seq![("indices", FieldType::Indices), ("text", FieldType::Str)]
}

pub open spec fn symbol_fields() -> Seq<(&'static str, FieldType)> {
    seq![("text", FieldType::Str), ("indices", FieldType::Indices)]
}

pub open spec fn url_fields() -> Seq<(&'static str, FieldType)> {
    seq![
        ("display_url", FieldType::NullableStr),
        ("expanded_url", FieldType::NullableStr),
        ("indices", FieldType::Indices),
        ("url", FieldType::Str),
    ]
}

pub open spec fn user_mention_fields() -> Seq<(&'static str, FieldType)> {
    seq![
        ("id", FieldType::U64),
        ("indices", FieldType::Indices),
        ("name", FieldType::Str),
        ("screen_name", FieldType::Str),
    ]
}

pub open spec fn size_fields() -> Seq<(&'static str, FieldType)> {
    seq![("h", FieldType::U64), ("resize", FieldType::Str), ("w", FieldType::U64)]
}

pub open spec fn sizes_fields() -> Seq<(&'static str, FieldType)> {
    seq![
        ("thumb", FieldType::SizeRec),
        ("large", FieldType::SizeRec),
        ("medium", FieldType::SizeRec),
        ("small", FieldType::SizeRec),
    ]
}

pub open spec fn media_fields() -> Seq<(&'static str, FieldType)> {
    seq![
        ("display_url", FieldType::Str),
        ("expanded_url", FieldType::Str),
        ("id", FieldType::U64),
        ("indices", FieldType::Indices),
        ("media_url", FieldType::Str),
        ("media_url_https", FieldType::Str),
        ("sizes", FieldType::SizesRec),
        ("source_status_id", FieldType::OptU64),
        ("type", FieldType::Str),
        ("url", FieldType::Str),
    ]
}

pub open spec fn entities_fields() -> Seq<(&'static str, FieldType)> {
    seq![
        ("hashtags", FieldType::HashtagList),
        ("media", FieldType::OptMediaList),
        ("urls", FieldType::UrlList),
        ("user_mentions", FieldType::MentionList),
        ("symbols", FieldType::SymbolList),
    ]
}

pub open spec fn spec_hashtag(v: JsonValue) -> Result<Hashtag, DecodeError> {
    match spec_record(v, hashtag_fields()) {
        Ok(vals) => Ok(Hashtag { indices: indices_value(vals[0]), text: str_value(vals[1]) }),
        Err(e) => Err(e),
    }
}

pub open spec fn spec_symbol(v: JsonValue) -> Result<Symbol, DecodeError> {
    match spec_record(v, symbol_fields()) {
        Ok(vals) => Ok(Symbol { text: str_value(vals[0]), indices: indices_value(vals[1]) }),
        Err(e) => Err(e),
    }
}

pub open spec fn spec_url(v: JsonValue) -> Result<UrlModel, DecodeError> {
    match spec_record(v, url_fields()) {
        Ok(vals) => Ok(
            UrlModel {
                display_url: nullable_str_text(vals[0]),
                expanded_url: nullable_str_text(vals[1]),
                indices: indices_value(vals[2]),
                url: str_value(vals[3])@,
            },
        ),
        Err(e) => Err(e),
    }
}

pub open spec fn spec_user_mention(v: JsonValue) -> Result<UserMention, DecodeError> {
    match spec_record(v, user_mention_fields()) {
        Ok(vals) => Ok(
            UserMention {
                id: u64_value(vals[0]),
                indices: indices_value(vals[1]),
                name: str_value(vals[2]),
                screen_name: str_value(vals[3]),
            },
        ),
        Err(e) => Err(e),
    }
}

pub open spec fn spec_size(v: JsonValue) -> Result<Size, DecodeError> {
    match spec_record(v, size_fields()) {
        Ok(vals) => Ok(
            Size {
                h: u64_value(vals[0]),
                resize: spec_resize(str_value(vals[1])),
                w: u64_value(vals[2]),
            },
        ),
        Err(e) => Err(e),
    }
}

pub(crate) fn hashtag_fields_vec() -> (r: Vec<(&'static str, FieldType)>)
    ensures
        r@ == hashtag_fields(),
{
    let r = vec![("indices", FieldType::Indices), ("text", FieldType::Str)];
    proof {
        assert(r@ =~= hashtag_fields());
    }
    r
}

pub(crate) fn symbol_fields_vec() -> (r: Vec<(&'static str, FieldType)>)
    ensures
        r@ == symbol_fields(),
{
    let r = vec![("text", FieldType::Str), ("indices", FieldType::Indices)];
    proof {
        assert(r@ =~= symbol_fields());
    }
    r
}

pub(crate) fn url_fields_vec() -> (r: Vec<(&'static str, FieldType)>)
    ensures
        r@ == url_fields(),
{
    let r = vec![
        ("display_url", FieldType::NullableStr),
        ("expanded_url", FieldType::NullableStr),
        ("indices", FieldType::Indices),
        ("url", FieldType::Str),
    ];
    proof {
        assert(r@ =~= url_fields());
    }
    r
}

pub(crate) fn user_mention_fields_vec() -> (r: Vec<(&'static str, FieldType)>)
    ensures
        r@ == user_mention_fields(),
{
    let r = vec![
        ("id", FieldType::U64),
        ("indices", FieldType::Indices),
        ("name", FieldType::Str),
        ("screen_name", FieldType::Str),
    ];
    proof {
        assert(r@ =~= user_mention_fields());
    }
    r
}

pub(crate) fn size_fields_vec() -> (r: Vec<(&'static str, FieldType)>)
    ensures
        r@ == size_fields(),
{
    let r = vec![("h", FieldType::U64), ("resize", FieldType::Str), ("w", FieldType::U64)];
    proof {
        assert(r@ =~= size_fields());
    }
    r
}

pub(crate) fn sizes_fields_vec() -> (r: Vec<(&'static str, FieldType)>)
    ensures
        r@ == sizes_fields(),
{
    let r = vec![
        ("thumb", FieldType::SizeRec),
        ("large", FieldType::SizeRec),
        ("medium", FieldType::SizeRec),
        ("small", FieldType::SizeRec),
    ];
    proof {
        assert(r@ =~= sizes_fields());
    }
    r
}

pub(crate) fn media_fields_vec() -> (r: Vec<(&'static str, FieldType)>)
    ensures
        r@ == media_fields(),
{
    let r = vec![
        ("display_url", FieldType::Str),
        ("expanded_url", FieldType::Str),
        ("id", FieldType::U64),
        ("indices", FieldType::Indices),
        ("media_url", FieldType::Str),
        ("media_url_https", FieldType::Str),
        ("sizes", FieldType::SizesRec),
        ("source_status_id", FieldType::OptU64),
        ("type", FieldType::Str),
        ("url", FieldType::Str),
    ];
    proof {
        assert(r@ =~= media_fields());
    }
    r
}

pub(crate) fn entities_fields_vec() -> (r: Vec<(&'static str, FieldType)>)
    ensures
        r@ == entities_fields(),
{
    let r = vec![
        ("hashtags", FieldType::HashtagList),
        ("media", FieldType::OptMediaList),
        ("urls", FieldType::UrlList),
        ("user_mentions", FieldType::MentionList),
        ("symbols", FieldType::SymbolList),
    ];
    proof {
        assert(r@ =~= entities_fields());
    }
    r
}

impl Hashtag {
    /// Decodes a hashtag entity.
    pub fn from_json(v: &JsonValue) -> (r: Result<Hashtag, DecodeError>)
        ensures
            r == spec_hashtag(*v),
    {
        let null = JsonValue::Null;
        let fields = hashtag_fields_vec();
        proof {
            lemma_record_ok(*v, hashtag_fields());
        }
        match decode_record(v, &fields, &null) {
            Ok(vals) => Ok(Hashtag { indices: read_indices(vals[0]), text: read_str(vals[1]) }),
            Err(e) => Err(e),
        }
    }
}

impl Symbol {
    /// Decodes a symbol entity.
    pub fn from_json(v: &JsonValue) -> (r: Result<Symbol, DecodeError>)
        ensures
            r == spec_symbol(*v),
    {
        let null = JsonValue::Null;
        let fields = symbol_fields_vec();
        proof {
            lemma_record_ok(*v, symbol_fields());
        }
        match decode_record(v, &fields, &null) {
            Ok(vals) => Ok(Symbol { text: read_str(vals[0]), indices: read_indices(vals[1]) }),
            Err(e) => Err(e),
        }
    }
}

impl Url {
    /// Decodes a URL entity.
    pub fn from_json(v: &JsonValue) -> (r: Result<Url, DecodeError>)
        ensures
            match spec_url(*v) {
                Ok(m) => r matches Ok(u) && url_view(u) == m,
                Err(e) => r == Err::<Url, DecodeError>(e),
            },
    {
        let null = JsonValue::Null;
        let fields = url_fields_vec();
        proof {
            lemma_record_ok(*v, url_fields());
        }
        match decode_record(v, &fields, &null) {
            Ok(vals) => Ok(
                Url {
                    display_url: read_nullable_str(vals[0]),
                    expanded_url: read_nullable_str(vals[1]),
                    indices: read_indices(vals[2]),
                    url: read_str(vals[3]),
                },
            ),
            Err(e) => Err(e),
        }
    }
}

impl UserMention {
    /// Decodes a user mention entity.
    pub fn from_json(v: &JsonValue) -> (r: Result<UserMention, DecodeError>)
        ensures
            r == spec_user_mention(*v),
    {
        let null = JsonValue::Null;
        let fields = user_mention_fields_vec();
        proof {
            lemma_record_ok(*v, user_mention_fields());
        }
        match decode_record(v, &fields, &null) {
            Ok(vals) => Ok(
                UserMention {
                    id: read_u64(vals[0]),
                    indices: read_indices(vals[1]),
                    name: read_str(vals[2]),
                    screen_name: read_str(vals[3]),
                },
            ),
            Err(e) => Err(e),
        }
    }
}

impl Size {
    /// Decodes one size of a photo or video.
    pub fn from_json(v: &JsonValue) -> (r: Result<Size, DecodeError>)
        ensures
            r == spec_size(*v),
    {
        let null = JsonValue::Null;
        let fields = size_fields_vec();
        proof {
            lemma_record_ok(*v, size_fields());
        }
        match decode_record(v, &fields, &null) {
            Ok(vals) => Ok(
                Size {
                    h: read_u64(vals[0]),
                    resize: Resize::from_text(read_str(vals[1])),
                    w: read_u64(vals[2]),
                },
            ),
            Err(e) => Err(e),
        }
    }
}

/// The sizes in which a photo or video is available.
#[derive(Clone, Debug, PartialEq, Eq)]
pub struct Sizes {
    pub thumb: Size,
    pub large: Size,
    pub medium: Size,
    pub small: Size,
}

/// A photo, video or animated GIF attached to a Tweet.
#[derive(Debug, PartialEq, Eq)]
pub struct Media {
    pub display_url: String,
    pub expanded_url: String,
    pub id: u64,
    pub indices: (u64, u64),
    pub media_url: String,
    pub media_url_https: String,
    pub sizes: Sizes,
    /// For media taken from another Tweet, the ID of that Tweet.
    pub source_status_id: Option<u64>,
    /// The `type` member: `photo`, `video` or `animated_gif`.
    pub kind: String,
    pub url: String,
}

/// The entities of a Tweet's text.
#[derive(Debug, PartialEq, Eq)]
pub struct Entities {
    pub hashtags: Vec<Hashtag>,
    pub media: Option<Vec<Media>>,
    pub urls: Vec<Url>,
    pub user_mentions: Vec<UserMention>,
    pub symbols: Vec<Symbol>,
}

/// [`Entities`] with sequences in place of vectors.
pub struct EntitiesModel {
    pub hashtags: Seq<Hashtag>,
    pub media: Option<Seq<Media>>,
    pub urls: Seq<UrlModel>,
    pub user_mentions: Seq<UserMention>,
    pub symbols: Seq<Symbol>,
}

pub open spec fn entities_view(e: Entities) -> EntitiesModel {
    EntitiesModel {
        hashtags: e.hashtags@,
        media: match e.media {
            Some(m) => Some(m@),
            None => None,
        },
        urls: e.urls@.map_values(|u: Url| url_view(u)),
        user_mentions: e.user_mentions@,
        symbols: e.symbols@,
    }
}

pub open spec fn spec_sizes(v: JsonValue) -> Result<Sizes, DecodeError> {
    match spec_record(v, sizes_fields()) {
        Ok(vals) => Ok(
            Sizes {
                thumb: spec_size(vals[0])->Ok_0,
                large: spec_size(vals[1])->Ok_0,
                medium: spec_size(vals[2])->Ok_0,
                small: spec_size(vals[3])->Ok_0,
            },
        ),
        Err(e) => Err(e),
    }
}

pub open spec fn spec_media(v: JsonValue) -> Result<Media, DecodeError> {
    match spec_record(v, media_fields()) {
        Ok(vals) => Ok(
            Media {
                display_url: str_value(vals[0]),
                expanded_url: str_value(vals[1]),
                id: u64_value(vals[2]),
                indices: indices_value(vals[3]),
                media_url: str_value(vals[4]),
                media_url_https: str_value(vals[5]),
                sizes: spec_sizes(vals[6])->Ok_0,
                source_status_id: opt_u64_value(vals[7]),
                kind: str_value(vals[8]),
                url: str_value(vals[9]),
            },
        ),
        Err(e) => Err(e),
    }
}

pub open spec fn spec_entities(v: JsonValue) -> Result<EntitiesModel, DecodeError> {
    match spec_record(v, entities_fields()) {
        Ok(vals) => Ok(
            EntitiesModel {
                hashtags: vals[0]->Array_0@.map_values(|x: JsonValue| spec_hashtag(x)->Ok_0),
                media: match vals[1] {
                    JsonValue::Array(a) => Some(
                        a@.map_values(|x: JsonValue| spec_media(x)->Ok_0),
                    ),
                    _ => None,
                },
                urls: vals[2]->Array_0@.map_values(|x: JsonValue| spec_url(x)->Ok_0),
                user_mentions: vals[3]->Array_0@.map_values(
                    |x: JsonValue| spec_user_mention(x)->Ok_0,
                ),
                symbols: vals[4]->Array_0@.map_values(|x: JsonValue| spec_symbol(x)->Ok_0),
            },
        ),
        Err(e) => Err(e),
    }
}

fn read_size(v: &JsonValue) -> (r: Size)
    requires
        value_ok(FieldType::SizeRec, *v),
    ensures
        r == spec_size(*v)->Ok_0,
{
    match Size::from_json(v) {
        Ok(s) => s,
        Err(_) => Size { h: 0, resize: Resize::Fit, w: 0 },
    }
}

impl Sizes {
    /// Decodes the sizes of a photo or video.
    pub fn from_json(v: &JsonValue) -> (r: Result<Sizes, DecodeError>)
        ensures
            r == spec_sizes(*v),
    {
        let null = JsonValue::Null;
        let fields = sizes_fields_vec();
        proof {
            lemma_record_ok(*v, sizes_fields());
        }
        match decode_record(v, &fields, &null) {
            Ok(vals) => Ok(
                Sizes {
                    thumb: read_size(vals[0]),
                    large: read_size(vals[1]),
                    medium: read_size(vals[2]),
                    small: read_size(vals[3]),
                },
            ),
            Err(e) => Err(e),
        }
    }
}

fn read_sizes(v: &JsonValue) -> (r: Sizes)
    requires
        value_ok(FieldType::SizesRec, *v),
    ensures
        r == spec_sizes(*v)->Ok_0,
{
    match Sizes::from_json(v) {
        Ok(s) => s,
        Err(_) => {
            let z = Size { h: 0, resize: Resize::Fit, w: 0 };
            Sizes { thumb: z.clone(), large: z.clone(), medium: z.clone(), small: z }
        },
    }
}

impl Media {
    /// Decodes a media entity.
    pub fn from_json(v: &JsonValue) -> (r: Result<Media, DecodeError>)
        ensures
            r == spec_media(*v),
    {
        let null = JsonValue::Null;
        let fields = media_fields_vec();
        proof {
            lemma_record_ok(*v, media_fields());
        }
        match decode_record(v, &fields, &null) {
            Ok(vals) => Ok(
                Media {
                    display_url: read_str(vals[0]),
                    expanded_url: read_str(vals[1]),
                    id: read_u64(vals[2]),
                    indices: read_indices(vals[3]),
                    media_url: read_str(vals[4]),
                    media_url_https: read_str(vals[5]),
                    sizes: read_sizes(vals[6]),
                    source_status_id: read_opt_u64(vals[7]),
                    kind: read_str(vals[8]),
                    url: read_str(vals[9]),
                },
            ),
            Err(e) => Err(e),
        }
    }
}

fn read_hashtags(v: &JsonValue) -> (r: Vec<Hashtag>)
    requires
        value_ok(FieldType::HashtagList, *v),
    ensures
        r@ == v->Array_0@.map_values(|x: JsonValue| spec_hashtag(x)->Ok_0),
{
    let mut out: Vec<Hashtag> = Vec::new();
    match v {
        JsonValue::Array(a) => {
            proof {
                lemma_list_ok(a@, hashtag_fields());
            }
            let mut i: usize = 0;
            while i < a.len()
                invariant
                    *v == JsonValue::Array(*a),
                    i <= a@.len(),
                    forall|j: int| 0 <= j < a@.len() ==> #[trigger] spec_record(a@[j], hashtag_fields()) is Ok,
                    out@ == a@.take(i as int).map_values(|x: JsonValue| spec_hashtag(x)->Ok_0),
                decreases a@.len() - i,
            {
                proof {
                    assert(spec_record(a@[i as int], hashtag_fields()) is Ok);
                    assert(a@.take(i + 1) =~= a@.take(i as int).push(a@[i as int]));
                }
                if let Ok(h) = Hashtag::from_json(&a[i]) {
                    out.push(h);
                }
                i = i + 1;
                proof {
                    assert(out@ =~= a@.take(i as int).map_values(|x: JsonValue| spec_hashtag(x)->Ok_0));
                }
            }
            proof {
                assert(a@.take(i as int) =~= a@);
            }
        },
        _ => {},
    }
    out
}

fn read_symbols(v: &JsonValue) -> (r: Vec<Symbol>)
    requires
        value_ok(FieldType::SymbolList, *v),
        v is Array,
    ensures
        r@ == v->Array_0@.map_values(|x: JsonValue| spec_symbol(x)->Ok_0),
{
    let mut out: Vec<Symbol> = Vec::new();
    match v {
        JsonValue::Array(a) => {
            proof {
                lemma_list_ok(a@, symbol_fields());
            }
            let mut i: usize = 0;
            while i < a.len()
                invariant
                    *v == JsonValue::Array(*a),
                    i <= a@.len(),
                    forall|j: int| 0 <= j < a@.len() ==> #[trigger] spec_record(a@[j], symbol_fields()) is Ok,
                    out@ == a@.take(i as int).map_values(|x: JsonValue| spec_symbol(x)->Ok_0),
                decreases a@.len() - i,
            {
                proof {
                    assert(spec_record(a@[i as int], symbol_fields()) is Ok);
                    assert(a@.take(i + 1) =~= a@.take(i as int).push(a@[i as int]));
                }
                let ghost before = out@;
                if let Ok(h) = Symbol::from_json(&a[i]) {
                    out.push(h);
                }
                i = i + 1;
                proof {
                    assert(out@ =~= before.push(out@.last()));
                    assert(out@ =~= a@.take(i as int).map_values(|x: JsonValue| spec_symbol(x)->Ok_0));
                }
            }
            proof {
                assert(a@.take(i as int) =~= a@);
            }
        },
        _ => {},
    }
    out
}

fn read_urls(v: &JsonValue) -> (r: Vec<Url>)
    requires
        value_ok(FieldType::UrlList, *v),
        v is Array,
    ensures
        r@.map_values(|u: Url| url_view(u)) == v->Array_0@.map_values(|x: JsonValue| spec_url(x)->Ok_0),
{
    let mut out: Vec<Url> = Vec::new();
    match v {
        JsonValue::Array(a) => {
            proof {
                lemma_list_ok(a@, url_fields());
            }
            let mut i: usize = 0;
            while i < a.len()
                invariant
                    *v == JsonValue::Array(*a),
                    i <= a@.len(),
                    forall|j: int| 0 <= j < a@.len() ==> #[trigger] spec_record(a@[j], url_fields()) is Ok,
                    out@.map_values(|u: Url| url_view(u)) == a@.take(i as int).map_values(|x: JsonValue| spec_url(x)->Ok_0),
                decreases a@.len() - i,
            {
                proof {
                    assert(spec_record(a@[i as int], url_fields()) is Ok);
                    assert(a@.take(i + 1) =~= a@.take(i as int).push(a@[i as int]));
                }
                let ghost before = out@;
                proof {
                    assert(spec_url(a@[i as int]) is Ok);
                    assert(before.map_values(|u: Url| url_view(u)).len() == before.len());
                }
                if let Ok(h) = Url::from_json(&a[i]) {
                    out.push(h);
                }
                proof {
                    let m = a@.take(i + 1).map_values(|x: JsonValue| spec_url(x)->Ok_0);
                    assert(out@.len() == i + 1);
                    assert forall|j: int| 0 <= j < out@.len() implies #[trigger] url_view(out@[j])
                        == m[j] by {
                        if j < i {
                            assert(out@[j] == before[j]);
                            assert(url_view(before[j]) == before.map_values(|u: Url| url_view(u))[j]);
                        }
                    }
                    assert(out@.map_values(|u: Url| url_view(u)) =~= m);
                }
                i = i + 1;
            }
            proof {
                assert(a@.take(i as int) =~= a@);
            }
        },
        _ => {},
    }
    out
}

fn read_user_mentions(v: &JsonValue) -> (r: Vec<UserMention>)
    requires
        value_ok(FieldType::MentionList, *v),
        v is Array,
    ensures
        r@ == v->Array_0@.map_values(|x: JsonValue| spec_user_mention(x)->Ok_0),
{
    let mut out: Vec<UserMention> = Vec::new();
    match v {
        JsonValue::Array(a) => {
            proof {
                lemma_list_ok(a@, user_mention_fields());
            }
            let mut i: usize = 0;
            while i < a.len()
                invariant
                    *v == JsonValue::Array(*a),
                    i <= a@.len(),
                    forall|j: int| 0 <= j < a@.len() ==> #[trigger] spec_record(a@[j], user_mention_fields()) is Ok,
                    out@ == a@.take(i as int).map_values(|x: JsonValue| spec_user_mention(x)->Ok_0),
                decreases a@.len() - i,
            {
                proof {
                    assert(spec_record(a@[i as int], user_mention_fields()) is Ok);
                    assert(a@.take(i + 1) =~= a@.take(i as int).push(a@[i as int]));
                }
                let ghost before = out@;
                if let Ok(h) = UserMention::from_json(&a[i]) {
                    out.push(h);
                }
                i = i + 1;
                proof {
                    assert(out@ =~= before.push(out@.last()));
                    assert(out@ =~= a@.take(i as int).map_values(|x: JsonValue| spec_user_mention(x)->Ok_0));
                }
            }
            proof {
                assert(a@.take(i as int) =~= a@);
            }
        },
        _ => {},
    }
    out
}

fn read_media(v: &JsonValue) -> (r: Vec<Media>)
    requires
        value_ok(FieldType::OptMediaList, *v),
        v is Array,
    ensures
        r@ == v->Array_0@.map_values(|x: JsonValue| spec_media(x)->Ok_0),
{
    let mut out: Vec<Media> = Vec::new();
    match v {
        JsonValue::Array(a) => {
            proof {
                lemma_list_ok(a@, media_fields());
            }
            let mut i: usize = 0;
            while i < a.len()
                invariant
                    *v == JsonValue::Array(*a),
                    i <= a@.len(),
                    forall|j: int| 0 <= j < a@.len() ==> #[trigger] spec_record(a@[j], media_fields()) is Ok,
                    out@ == a@.take(i as int).map_values(|x: JsonValue| spec_media(x)->Ok_0),
                decreases a@.len() - i,
            {
                proof {
                    assert(spec_record(a@[i as int], media_fields()) is Ok);
                    assert(a@.take(i + 1) =~= a@.take(i as int).push(a@[i as int]));
                }
                let ghost before = out@;
                if let Ok(h) = Media::from_json(&a[i]) {
                    out.push(h);
                }
                i = i + 1;
                proof {
                    assert(out@ =~= before.push(out@.last()));
                    assert(out@ =~= a@.take(i as int).map_values(|x: JsonValue| spec_media(x)->Ok_0));
                }
            }
            proof {
                assert(a@.take(i as int) =~= a@);
            }
        },
        _ => {},
    }
    out
}

impl Entities {
    /// Decodes the entities of a Tweet.
    pub fn from_json(v: &JsonValue) -> (r: Result<Entities, DecodeError>)
        ensures
            match spec_entities(*v) {
                Ok(m) => r matches Ok(e) && entities_view(e) == m,
                Err(e) => r == Err::<Entities, DecodeError>(e),
            },
    {
        let null = JsonValue::Null;
        let fields = entities_fields_vec();
        proof {
            lemma_record_ok(*v, entities_fields());
        }
        match decode_record(v, &fields, &null) {
            Ok(vals) => {
                let media = match vals[1] {
                    JsonValue::Array(_) => Some(read_media(vals[1])),
                    _ => None,
                };
                let e = Entities {
                    hashtags: read_hashtags(vals[0]),
                    media,
                    urls: read_urls(vals[2]),
                    user_mentions: read_user_mentions(vals[3]),
                    symbols: read_symbols(vals[4]),
                };
                proof {
                    assert(entities_view(e).media == spec_entities(*v)->Ok_0.media);
                }
                Ok(e)
            },
            Err(e) => Err(e),
        }
    }
}

pub(crate) fn read_entities(v: &JsonValue) -> (r: Entities)
    requires
        value_ok(FieldType::EntitiesRec, *v),
    ensures
        entities_view(r) == spec_entities(*v)->Ok_0,
{
    match Entities::from_json(v) {
        Ok(e) => e,
        Err(_) => Entities {
            hashtags: Vec::new(),
            media: None,
            urls: Vec::new(),
            user_mentions: Vec::new(),
            symbols: Vec::new(),
        },
    }
}

/// A hashtag read from an object takes each of its fields from the member of that field's name,
/// whatever the order of the members (and `null` for an optional member that is missing).
pub proof fn hashtag_reads_members_by_name(v: JsonValue)
    requires
        v is Object,
    ensures
        spec_hashtag(v) matches Ok(m) ==> m == (Hashtag { indices: indices_value(member_or_null(v, "indices"@)), text: str_value(member_or_null(v, "text"@)) }),
{
    reveal_strlit("indices");
    reveal_strlit("text");
    assert("indices"@.len() == 7);
    assert("text"@.len() == 4);
    record_fields_come_from_their_members(v, hashtag_fields());
}

/// A symbol read from an object takes each of its fields from the member of that field's name,
/// whatever the order of the members (and `null` for an optional member that is missing).
pub proof fn symbol_reads_members_by_name(v: JsonValue)
    requires
        v is Object,
    ensures
        spec_symbol(v) matches Ok(m) ==> m == (Symbol { text: str_value(member_or_null(v, "text"@)), indices: indices_value(member_or_null(v, "indices"@)) }),
{
    reveal_strlit("text");
    reveal_strlit("indices");
    assert("text"@.len() == 4);
    assert("indices"@.len() == 7);
    record_fields_come_from_their_members(v, symbol_fields());
}

/// A URL read from an object takes each of its fields from the member of that field's name,
/// whatever the order of the members (and `null` for an optional member that is missing).
pub proof fn url_reads_members_by_name(v: JsonValue)
    requires
        v is Object,
    ensures
        spec_url(v) matches Ok(m) ==> m == (UrlModel {
            display_url: nullable_str_text(member_or_null(v, "display_url"@)),
            expanded_url: nullable_str_text(member_or_null(v, "expanded_url"@)),
            indices: indices_value(member_or_null(v, "indices"@)),
            url: str_value(member_or_null(v, "url"@))@,
        }),
{
    reveal_strlit("display_url");
    reveal_strlit("expanded_url");
    reveal_strlit("indices");
    reveal_strlit("url");
    assert("display_url"@.len() == 11);
    assert("expanded_url"@.len() == 12);
    assert("indices"@.len() == 7);
    assert("url"@.len() == 3);
    record_fields_come_from_their_members(v, url_fields());
}

/// A user mention read from an object takes each of its fields from the member of that field's name,
/// whatever the order of the members (and `null` for an optional member that is missing).
pub proof fn user_mention_reads_members_by_name(v: JsonValue)
    requires
        v is Object,
    ensures
        spec_user_mention(v) matches Ok(m) ==> m == (UserMention {
            id: u64_value(member_or_null(v, "id"@)),
            indices: indices_value(member_or_null(v, "indices"@)),
            name: str_value(member_or_null(v, "name"@)),
            screen_name: str_value(member_or_null(v, "screen_name"@)),
        }),
{
    reveal_strlit("id");
    reveal_strlit("indices");
    reveal_strlit("name");
    reveal_strlit("screen_name");
    assert("id"@.len() == 2);
    assert("indices"@.len() == 7);
    assert("name"@.len() == 4);
    assert("screen_name"@.len() == 11);
    record_fields_come_from_their_members(v, user_mention_fields());
}

/// A size read from an object takes each of its fields from the member of that field's name,
/// whatever the order of the members (and `null` for an optional member that is missing).
pub proof fn size_reads_members_by_name(v: JsonValue)
    requires
        v is Object,
    ensures
        spec_size(v) matches Ok(m) ==> m == (Size {
            h: u64_value(member_or_null(v, "h"@)),
            resize: spec_resize(str_value(member_or_null(v, "resize"@))),
            w: u64_value(member_or_null(v, "w"@)),
        }),
{
    reveal_strlit("h");
    reveal_strlit("resize");
    reveal_strlit("w");
    assert("h"@.len() == 1 && "h"@[0] == 'h');
    assert("resize"@.len() == 6);
    assert("w"@.len() == 1 && "w"@[0] == 'w');
    record_fields_come_from_their_members(v, size_fields());
}

/// The sizes of a medium read from an object takes each of its fields from the member of that field's name,
/// whatever the order of the members (and `null` for an optional member that is missing).
pub proof fn sizes_reads_members_by_name(v: JsonValue)
    requires
        v is Object,
    ensures
        spec_sizes(v) matches Ok(m) ==> m == (Sizes {
            thumb: spec_size(member_or_null(v, "thumb"@))->Ok_0,
            large: spec_size(member_or_null(v, "large"@))->Ok_0,
            medium: spec_size(member_or_null(v, "medium"@))->Ok_0,
            small: spec_size(member_or_null(v, "small"@))->Ok_0,
        }),
{
    reveal_strlit("thumb");
    reveal_strlit("large");
    reveal_strlit("medium");
    reveal_strlit("small");
    assert("thumb"@.len() == 5 && "thumb"@[0] == 't');
    assert("large"@.len() == 5 && "large"@[0] == 'l');
    assert("medium"@.len() == 6);
    assert("small"@.len() == 5 && "small"@[0] == 's');
    record_fields_come_from_their_members(v, sizes_fields());
}

/// A medium read from an object takes each of its fields from the member of that field's name,
/// whatever the order of the members (and `null` for an optional member that is missing).
pub proof fn media_reads_members_by_name(v: JsonValue)
    requires
        v is Object,
    ensures
        spec_media(v) matches Ok(m) ==> m == (Media {
            display_url: str_value(member_or_null(v, "display_url"@)),
            expanded_url: str_value(member_or_null(v, "expanded_url"@)),
            id: u64_value(member_or_null(v, "id"@)),
            indices: indices_value(member_or_null(v, "indices"@)),
            media_url: str_value(member_or_null(v, "media_url"@)),
            media_url_https: str_value(member_or_null(v, "media_url_https"@)),
            sizes: spec_sizes(member_or_null(v, "sizes"@))->Ok_0,
            source_status_id: opt_u64_value(member_or_null(v, "source_status_id"@)),
            kind: str_value(member_or_null(v, "type"@)),
            url: str_value(member_or_null(v, "url"@)),
        }),
{
    reveal_strlit("display_url");
    reveal_strlit("expanded_url");
    reveal_strlit("id");
    reveal_strlit("indices");
    reveal_strlit("media_url");
    reveal_strlit("media_url_https");
    reveal_strlit("sizes");
    reveal_strlit("source_status_id");
    reveal_strlit("type");
    reveal_strlit("url");
    assert("display_url"@.len() == 11);
    assert("expanded_url"@.len() == 12);
    assert("id"@.len() == 2);
    assert("indices"@.len() == 7);
    assert("media_url"@.len() == 9);
    assert("media_url_https"@.len() == 15);
    assert("sizes"@.len() == 5);
    assert("source_status_id"@.len() == 16);
    assert("type"@.len() == 4);
    assert("url"@.len() == 3);
    record_fields_come_from_their_members(v, media_fields());
}

/// The entities read from an object takes each of its fields from the member of that field's name,
/// whatever the order of the members (and `null` for an optional member that is missing).
pub proof fn entities_reads_members_by_name(v: JsonValue)
    requires
        v is Object,
    ensures
        spec_entities(v) matches Ok(m) ==> m == (EntitiesModel {
            hashtags: member_or_null(v, "hashtags"@)->Array_0@.map_values(|x: JsonValue| spec_hashtag(x)->Ok_0),
            media: match member_or_null(v, "media"@) {
                JsonValue::Array(a) => Some(
                    a@.map_values(|x: JsonValue| spec_media(x)->Ok_0),
                ),
                _ => None,
            },
            urls: member_or_null(v, "urls"@)->Array_0@.map_values(|x: JsonValue| spec_url(x)->Ok_0),
            user_mentions: member_or_null(v, "user_mentions"@)->Array_0@.map_values(
                |x: JsonValue| spec_user_mention(x)->Ok_0,
            ),
            symbols: member_or_null(v, "symbols"@)->Array_0@.map_values(|x: JsonValue| spec_symbol(x)->Ok_0),
        }),
{
    reveal_strlit("hashtags");
    reveal_strlit("media");
    reveal_strlit("urls");
    reveal_strlit("user_mentions");
    reveal_strlit("symbols");
    assert("hashtags"@.len() == 8);
    assert("media"@.len() == 5);
    assert("urls"@.len() == 4);
    assert("user_mentions"@.len() == 13);
    assert("symbols"@.len() == 7);
    record_fields_come_from_their_members(v, entities_fields());
}

} // verus!
