//! The image-generation endpoint: request and response schema.

use vstd::prelude::*;
use crate::json::{Json, JsonValue, ObjBuilder, str_eq, spec_obj_get, seq_views};
use crate::error::{BuildError, BuildErrorV, DecodeError, DecodeErrorV};

verus! {

broadcast use crate::json::lemma_json_view_arr, crate::json::lemma_json_view_obj,
    crate::json::lemma_seq_views_push, crate::json::lemma_entries_view_push;

// ---------------------------------------------------------------------------
// Wire enum codec.
// ---------------------------------------------------------------------------

/// The model used for image generation.
#[derive(Debug, Clone, Copy, PartialEq, Eq, Structural)]
pub enum ImageModel {
    DallE3,
}

pub open spec fn spec_image_model_wire(m: ImageModel) -> Seq<char> {
    match m {
        ImageModel::DallE3 => "dall-e-3"@,
    }
}

pub open spec fn spec_image_model_of(t: Seq<char>) -> Option<ImageModel> {
    if t == "dall-e-3"@ {
        Some(ImageModel::DallE3)
    } else {
        None
    }
}

impl ImageModel {
    pub fn wire_name(&self) -> (r: &'static str)
        ensures
            r@ == spec_image_model_wire(*self),
    {
        "dall-e-3"
    }

    pub fn from_wire(t: &str) -> (r: Option<ImageModel>)
        ensures
            r == spec_image_model_of(t@),
    {
        if str_eq(t, "dall-e-3") {
            Some(ImageModel::DallE3)
        } else {
            None
        }
    }
}

impl Default for ImageModel {
    fn default() -> (r: Self)
        ensures
            r == ImageModel::DallE3,
    {
        ImageModel::DallE3
    }
}

pub proof fn lemma_image_model_roundtrip(m: ImageModel)
    ensures
        spec_image_model_of(spec_image_model_wire(m)) == Some(m),
{
}

/// The rendering quality; `Standard` appears on the wire as
/// `"default"`, not as its internal name.
#[derive(Debug, Clone, Copy, PartialEq, Eq, Structural)]
pub enum ImageQuality {
    Standard,
    Hd,
}

pub open spec fn spec_image_quality_wire(q: ImageQuality) -> Seq<char> {
    match q {
        ImageQuality::Standard => "default"@,
        ImageQuality::Hd => "hd"@,
    }
}

pub open spec fn spec_image_quality_of(t: Seq<char>) -> Option<ImageQuality> {
    if t == "default"@ {
        Some(ImageQuality::Standard)
    } else if t == "hd"@ {
        Some(ImageQuality::Hd)
    } else {
        None
    }
}

impl ImageQuality {
    pub fn wire_name(&self) -> (r: &'static str)
        ensures
            r@ == spec_image_quality_wire(*self),
    {
        match self {
            ImageQuality::Standard => "default",
            ImageQuality::Hd => "hd",
        }
    }

    pub fn from_wire(t: &str) -> (r: Option<ImageQuality>)
        ensures
            r == spec_image_quality_of(t@),
    {
        if str_eq(t, "default") {
            Some(ImageQuality::Standard)
        } else if str_eq(t, "hd") {
            Some(ImageQuality::Hd)
        } else {
            None
        }
    }
}

impl Default for ImageQuality {
    fn default() -> (r: Self)
        ensures
            r == ImageQuality::Standard,
    {
        ImageQuality::Standard
    }
}

pub proof fn lemma_image_quality_roundtrip(q: ImageQuality)
    ensures
        spec_image_quality_of(spec_image_quality_wire(q)) == Some(q),
{
    reveal_strlit("default");
    reveal_strlit("hd");
    assert("default"@.len() == 7);
    assert("hd"@.len() == 2);
    assert("hd"@ != "default"@);
}

/// How generated images come back: a URL or inline base64 JSON.
#[derive(Debug, Clone, Copy, PartialEq, Eq, Structural)]
pub enum ImageResponseFormat {
    Url,
    B64Json,
}

pub open spec fn spec_image_format_wire(f: ImageResponseFormat) -> Seq<char> {
    match f {
        ImageResponseFormat::Url => "url"@,
        ImageResponseFormat::B64Json => "b64_json"@,
    }
}

pub open spec fn spec_image_format_of(t: Seq<char>) -> Option<ImageResponseFormat> {
    if t == "url"@ {
        Some(ImageResponseFormat::Url)
    } else if t == "b64_json"@ {
        Some(ImageResponseFormat::B64Json)
    } else {
        None
    }
}

impl ImageResponseFormat {
    pub fn wire_name(&self) -> (r: &'static str)
        ensures
            r@ == spec_image_format_wire(*self),
    {
        match self {
            ImageResponseFormat::Url => "url",
            ImageResponseFormat::B64Json => "b64_json",
        }
    }

    pub fn from_wire(t: &str) -> (r: Option<ImageResponseFormat>)
        ensures
            r == spec_image_format_of(t@),
    {
        if str_eq(t, "url") {
            Some(ImageResponseFormat::Url)
        } else if str_eq(t, "b64_json") {
            Some(ImageResponseFormat::B64Json)
        } else {
            None
        }
    }
}

impl Default for ImageResponseFormat {
    fn default() -> (r: Self)
        ensures
            r == ImageResponseFormat::Url,
    {
        ImageResponseFormat::Url
    }
}

pub proof fn lemma_image_format_roundtrip(f: ImageResponseFormat)
    ensures
        spec_image_format_of(spec_image_format_wire(f)) == Some(f),
{
    reveal_strlit("url");
    reveal_strlit("b64_json");
    assert("url"@.len() == 3);
    assert("b64_json"@.len() == 8);
    assert("b64_json"@ != "url"@);
}

/// The pixel dimensions of the generated images.
#[derive(Debug, Clone, Copy, PartialEq, Eq, Structural)]
pub enum ImageSize {
    Large,
    LargeWide,
    LargeTall,
}

pub open spec fn spec_image_size_wire(s: ImageSize) -> Seq<char> {
    match s {
        ImageSize::Large => "1024x1024"@,
        ImageSize::LargeWide => "1792x1024"@,
        ImageSize::LargeTall => "1024x1792"@,
    }
}

pub open spec fn spec_image_size_of(t: Seq<char>) -> Option<ImageSize> {
    if t == "1024x1024"@ {
        Some(ImageSize::Large)
    } else if t == "1792x1024"@ {
        Some(ImageSize::LargeWide)
    } else if t == "1024x1792"@ {
        Some(ImageSize::LargeTall)
    } else {
        None
    }
}

impl ImageSize {
    pub fn wire_name(&self) -> (r: &'static str)
        ensures
            r@ == spec_image_size_wire(*self),
    {
        match self {
            ImageSize::Large => "1024x1024",
            ImageSize::LargeWide => "1792x1024",
            ImageSize::LargeTall => "1024x1792",
        }
    }

    pub fn from_wire(t: &str) -> (r: Option<ImageSize>)
        ensures
            r == spec_image_size_of(t@),
    {
        if str_eq(t, "1024x1024") {
            Some(ImageSize::Large)
        } else if str_eq(t, "1792x1024") {
            Some(ImageSize::LargeWide)
        } else if str_eq(t, "1024x1792") {
            Some(ImageSize::LargeTall)
        } else {
            None
        }
    }
}

impl Default for ImageSize {
    fn default() -> (r: Self)
        ensures
            r == ImageSize::Large,
    {
        ImageSize::Large
    }
}

pub proof fn lemma_image_size_roundtrip(s: ImageSize)
    ensures
        spec_image_size_of(spec_image_size_wire(s)) == Some(s),
{
    reveal_strlit("1024x1024");
    reveal_strlit("1792x1024");
    reveal_strlit("1024x1792");
    assert("1792x1024"@[1] != "1024x1024"@[1]);
    assert("1792x1024"@ != "1024x1024"@);
    assert("1024x1792"@[6] != "1024x1024"@[6]);
    assert("1024x1792"@ != "1024x1024"@);
    assert("1024x1792"@[1] != "1792x1024"@[1]);
    assert("1024x1792"@ != "1792x1024"@);
}

/// The visual style of the generated images.
#[derive(Debug, Clone, Copy, PartialEq, Eq, Structural)]
pub enum ImageStyle {
    Vivid,
    Natural,
}

pub open spec fn spec_image_style_wire(s: ImageStyle) -> Seq<char> {
    match s {
        ImageStyle::Vivid => "vivid"@,
        ImageStyle::Natural => "natural"@,
    }
}

pub open spec fn spec_image_style_of(t: Seq<char>) -> Option<ImageStyle> {
    if t == "vivid"@ {
        Some(ImageStyle::Vivid)
    } else if t == "natural"@ {
        Some(ImageStyle::Natural)
    } else {
        None
    }
}

impl ImageStyle {
    pub fn wire_name(&self) -> (r: &'static str)
        ensures
            r@ == spec_image_style_wire(*self),
    {
        match self {
            ImageStyle::Vivid => "vivid",
            ImageStyle::Natural => "natural",
        }
    }

    pub fn from_wire(t: &str) -> (r: Option<ImageStyle>)
        ensures
            r == spec_image_style_of(t@),
    {
        if str_eq(t, "vivid") {
            Some(ImageStyle::Vivid)
        } else if str_eq(t, "natural") {
            Some(ImageStyle::Natural)
        } else {
            None
        }
    }
}

impl Default for ImageStyle {
    fn default() -> (r: Self)
        ensures
            r == ImageStyle::Vivid,
    {
        ImageStyle::Vivid
    }
}

pub proof fn lemma_image_style_roundtrip(s: ImageStyle)
    ensures
        spec_image_style_of(spec_image_style_wire(s)) == Some(s),
{
    reveal_strlit("vivid");
    reveal_strlit("natural");
    assert("vivid"@.len() == 5);
    assert("natural"@.len() == 7);
    assert("natural"@ != "vivid"@);
}

// ---------------------------------------------------------------------------
// The image-generation request and its validating builder.
// ---------------------------------------------------------------------------

/// A finalized image-generation request. `model` always reaches the
/// wire (it has a default); every other optional field is omitted
/// entirely when unset.
#[derive(Debug, Clone)]
pub struct CreateImageRequest {
    pub prompt: String,
    pub model: ImageModel,
    pub n: Option<usize>,
    pub quality: Option<ImageQuality>,
    pub response_format: Option<ImageResponseFormat>,
    pub size: Option<ImageSize>,
    pub style: Option<ImageStyle>,
    pub user: Option<String>,
}

pub open spec fn spec_quality_member(v: Option<ImageQuality>) -> Seq<(Seq<char>, Json)> {
    match v {
        Some(q) => seq![("quality"@, Json::Str(spec_image_quality_wire(q)))],
        None => Seq::empty(),
    }
}

pub open spec fn spec_image_format_member(v: Option<ImageResponseFormat>) -> Seq<
    (Seq<char>, Json),
> {
    match v {
        Some(f) => seq![("response_format"@, Json::Str(spec_image_format_wire(f)))],
        None => Seq::empty(),
    }
}

pub open spec fn spec_size_member(v: Option<ImageSize>) -> Seq<(Seq<char>, Json)> {
    match v {
        Some(s) => seq![("size"@, Json::Str(spec_image_size_wire(s)))],
        None => Seq::empty(),
    }
}

pub open spec fn spec_style_member(v: Option<ImageStyle>) -> Seq<(Seq<char>, Json)> {
    match v {
        Some(s) => seq![("style"@, Json::Str(spec_image_style_wire(s)))],
        None => Seq::empty(),
    }
}

/// The exact JSON object of an image request.
pub open spec fn spec_image_request_json(req: CreateImageRequest) -> Json {
    Json::Obj(
        seq![
            ("prompt"@, Json::Str(req.prompt@)),
            ("model"@, Json::Str(spec_image_model_wire(req.model))),
        ] + crate::chat::opt_num_member("n"@, req.n) + spec_quality_member(req.quality)
            + spec_image_format_member(req.response_format) + spec_size_member(req.size)
            + spec_style_member(req.style) + crate::chat::opt_str_member("user"@, req.user),
    )
}

impl CreateImageRequest {
    /// The convenience constructor: only the required `prompt` is
    /// supplied, everything else keeps its default. It serializes
    /// exactly as the builder does with only `prompt` set.
    pub fn new(prompt: &str) -> (r: CreateImageRequest)
        ensures
            r.prompt@ == prompt@,
            r.model == ImageModel::DallE3,
            r.n is None,
            r.quality is None,
            r.response_format is None,
            r.size is None,
            r.style is None,
            r.user is None,
    {
        CreateImageRequest {
            prompt: String::from_str(prompt),
            model: ImageModel::DallE3,
            n: None,
            quality: None,
            response_format: None,
            size: None,
            style: None,
            user: None,
        }
    }

    /// The JSON object this request puts on the wire.
    #[verifier::rlimit(60)]
    pub fn to_json(&self) -> (r: JsonValue)
        ensures
            r@ == spec_image_request_json(*self),
    {
        let b2 = ObjBuilder::new().field("prompt", JsonValue::Str(self.prompt.clone())).field(
            "model",
            JsonValue::Str(String::from_str(self.model.wire_name())),
        );
        let b3 = match &self.n {
            Some(x) => b2.field("n", JsonValue::Num(crate::chat::usize_to_u64(*x))),
            None => b2,
        };
        proof {
            assert(b3@ =~= seq![
                ("prompt"@, Json::Str(self.prompt@)),
                ("model"@, Json::Str(spec_image_model_wire(self.model))),
            ] + crate::chat::opt_num_member("n"@, self.n));
        }
        let b4 = match &self.quality {
            Some(q) => b3.field("quality", JsonValue::Str(String::from_str(q.wire_name()))),
            None => b3,
        };
        proof {
            assert(b4@ =~= b3@ + spec_quality_member(self.quality));
        }
        let b5 = match &self.response_format {
            Some(f) => b4.field(
                "response_format",
                JsonValue::Str(String::from_str(f.wire_name())),
            ),
            None => b4,
        };
        proof {
            assert(b5@ =~= b4@ + spec_image_format_member(self.response_format));
        }
        let b6 = match &self.size {
            Some(s) => b5.field("size", JsonValue::Str(String::from_str(s.wire_name()))),
            None => b5,
        };
        proof {
            assert(b6@ =~= b5@ + spec_size_member(self.size));
        }
        let b7 = match &self.style {
            Some(s) => b6.field("style", JsonValue::Str(String::from_str(s.wire_name()))),
            None => b6,
        };
        proof {
            assert(b7@ =~= b6@ + spec_style_member(self.style));
        }
        let b8 = match &self.user {
            Some(u) => b7.field("user", JsonValue::Str(u.clone())),
            None => b7,
        };
        proof {
            assert(b8@ =~= b7@ + crate::chat::opt_str_member("user"@, self.user));
        }
        let r = b8.finish();
        proof {
            assert(r@ == spec_image_request_json(*self));
        }
        r
    }

    /// The compact JSON text of this request, as the emitter sends it.
    pub fn to_body(&self) -> (r: String)
        ensures
            r@ == crate::json::json_text(spec_image_request_json(*self)),
    {
        self.to_json().render()
    }

    /// The fixed endpoint this request is bound to; the method is POST.
    pub fn endpoint_url() -> (r: &'static str)
        ensures
            r@ == "https://api.openai.com/v1/images/generations"@,
    {
        "https://api.openai.com/v1/images/generations"
    }
}

/// Accumulates the fields of an image request; `build` demands
/// `prompt` and defaults `model`.
#[derive(Debug)]
pub struct CreateImageRequestBuilder {
    pub prompt: Option<String>,
    pub model: Option<ImageModel>,
    pub n: Option<usize>,
    pub quality: Option<ImageQuality>,
    pub response_format: Option<ImageResponseFormat>,
    pub size: Option<ImageSize>,
    pub style: Option<ImageStyle>,
    pub user: Option<String>,
}

impl Default for CreateImageRequestBuilder {
    fn default() -> (r: Self)
        ensures
            r.prompt is None,
            r.model is None,
            r.n is None,
            r.quality is None,
            r.response_format is None,
            r.size is None,
            r.style is None,
            r.user is None,
    {
        CreateImageRequestBuilder {
            prompt: None,
            model: None,
            n: None,
            quality: None,
            response_format: None,
            size: None,
            style: None,
            user: None,
        }
    }
}

impl CreateImageRequestBuilder {
    pub fn prompt(self, prompt: &str) -> (r: Self)
        ensures
            r.prompt matches Some(p) && p@ == prompt@,
            r.model == self.model,
            r.n == self.n,
            r.quality == self.quality,
            r.response_format == self.response_format,
            r.size == self.size,
            r.style == self.style,
            r.user == self.user,
    {
        Self { prompt: Some(String::from_str(prompt)), ..self }
    }

    pub fn model(self, model: ImageModel) -> (r: Self)
        ensures
            r == (Self { model: Some(model), ..self }),
    {
        Self { model: Some(model), ..self }
    }

    pub fn n(self, n: usize) -> (r: Self)
        ensures
            r == (Self { n: Some(n), ..self }),
    {
        Self { n: Some(n), ..self }
    }

    pub fn quality(self, quality: ImageQuality) -> (r: Self)
        ensures
            r == (Self { quality: Some(quality), ..self }),
    {
        Self { quality: Some(quality), ..self }
    }

    pub fn response_format(self, response_format: ImageResponseFormat) -> (r: Self)
        ensures
            r == (Self { response_format: Some(response_format), ..self }),
    {
        Self { response_format: Some(response_format), ..self }
    }

    pub fn size(self, size: ImageSize) -> (r: Self)
        ensures
            r == (Self { size: Some(size), ..self }),
    {
        Self { size: Some(size), ..self }
    }

    pub fn style(self, style: ImageStyle) -> (r: Self)
        ensures
            r == (Self { style: Some(style), ..self }),
    {
        Self { style: Some(style), ..self }
    }

    pub fn user(self, user: String) -> (r: Self)
        ensures
            r == (Self { user: Some(user), ..self }),
    {
        Self { user: Some(user), ..self }
    }

    /// Finalizes the request. Fails, naming the field, exactly when
    /// `prompt` was never supplied; an unset `model` takes its default.
    pub fn build(self) -> (r: Result<CreateImageRequest, BuildError>)
        ensures
            self.prompt matches Some(p) ==> (r matches Ok(req) && req == (CreateImageRequest {
                prompt: p,
                model: (match self.model {
                    Some(m) => m,
                    None => ImageModel::DallE3,
                }),
                n: self.n,
                quality: self.quality,
                response_format: self.response_format,
                size: self.size,
                style: self.style,
                user: self.user,
            })),
            self.prompt is None ==> (r matches Err(e) && e@ == BuildErrorV::UninitializedField(
                "prompt"@,
            )),
    {
        match self.prompt {
            Some(prompt) => Ok(
                CreateImageRequest {
                    prompt,
                    model: match self.model {
                        Some(m) => m,
                        None => ImageModel::DallE3,
                    },
                    n: self.n,
                    quality: self.quality,
                    response_format: self.response_format,
                    size: self.size,
                    style: self.style,
                    user: self.user,
                },
            ),
            None => Err(BuildError::UninitializedField(String::from_str("prompt"))),
        }
    }
}

// ---------------------------------------------------------------------------
// The image-generation response and its parser.
// ---------------------------------------------------------------------------

/// One generated image: a URL or inline data, and the prompt as the
/// model revised it.
#[derive(Debug, Clone)]
pub struct ImageObject {
    pub b64_json: Option<String>,
    pub url: Option<String>,
    pub revised_prompt: String,
}

/// A decoded image-generation response; never built by hand.
#[derive(Debug, Clone)]
pub struct CreateImageResponse {
    pub created: u64,
    pub data: Vec<ImageObject>,
}

pub struct ImageObjectV {
    pub b64_json: Option<Seq<char>>,
    pub url: Option<Seq<char>>,
    pub revised_prompt: Seq<char>,
}

pub struct CreateImageResponseV {
    pub created: u64,
    pub data: Seq<ImageObjectV>,
}

impl View for ImageObject {
    type V = ImageObjectV;

    open spec fn view(&self) -> ImageObjectV {
        ImageObjectV {
            b64_json: crate::chat::name_view(self.b64_json),
            url: crate::chat::name_view(self.url),
            revised_prompt: self.revised_prompt@,
        }
    }
}

pub open spec fn images_view(s: Seq<ImageObject>) -> Seq<ImageObjectV> {
    Seq::new(s.len(), |i: int| s[i]@)
}

impl View for CreateImageResponse {
    type V = CreateImageResponseV;

    open spec fn view(&self) -> CreateImageResponseV {
        CreateImageResponseV { created: self.created, data: images_view(self.data@) }
    }
}

/// An optional string member: absent and null both mean none.
pub open spec fn spec_opt_str(es: Seq<(Seq<char>, Json)>, key: Seq<char>) -> Result<
    Option<Seq<char>>,
    DecodeErrorV,
> {
    match spec_obj_get(es, key) {
        None => Ok(None),
        Some(j) => match j {
            Json::Str(s) => Ok(Some(s)),
            Json::Null => Ok(None),
            _ => Err(DecodeErrorV::Malformed(key)),
        },
    }
}

pub open spec fn spec_decode_image_object(j: Json) -> Result<ImageObjectV, DecodeErrorV> {
    match j {
        Json::Obj(es) => match spec_opt_str(es, "b64_json"@) {
            Err(e) => Err(e),
            Ok(b64_json) => match spec_opt_str(es, "url"@) {
                Err(e) => Err(e),
                Ok(url) => match crate::chat::spec_decode_str(es, "revised_prompt"@) {
                    Err(e) => Err(e),
                    Ok(revised_prompt) => Ok(ImageObjectV { b64_json, url, revised_prompt }),
                },
            },
        },
        _ => Err(DecodeErrorV::Malformed("data"@)),
    }
}

pub open spec fn spec_decode_image_objects(items: Seq<Json>) -> Result<
    Seq<ImageObjectV>,
    DecodeErrorV,
>
    decreases items.len(),
{
    if items.len() == 0 {
        Ok(Seq::empty())
    } else {
        match spec_decode_image_object(items[0]) {
            Err(e) => Err(e),
            Ok(o) => match spec_decode_image_objects(items.drop_first()) {
                Err(e) => Err(e),
                Ok(rest) => Ok(seq![o] + rest),
            },
        }
    }
}

pub open spec fn prepend_images(
    pre: Seq<ImageObjectV>,
    r: Result<Seq<ImageObjectV>, DecodeErrorV>,
) -> Result<Seq<ImageObjectV>, DecodeErrorV> {
    match r {
        Ok(cs) => Ok(pre + cs),
        Err(e) => Err(e),
    }
}

/// A required numeric member decoded as `u64`.
pub open spec fn spec_decode_u64(es: Seq<(Seq<char>, Json)>, key: Seq<char>) -> Result<
    u64,
    DecodeErrorV,
> {
    match spec_obj_get(es, key) {
        None => Err(DecodeErrorV::MissingField(key)),
        Some(j) => match j {
            Json::Num(n) => Ok(n),
            _ => Err(DecodeErrorV::Malformed(key)),
        },
    }
}

/// The whole response; an empty `data` list is structurally valid.
pub open spec fn spec_decode_image_response(j: Json) -> Result<
    CreateImageResponseV,
    DecodeErrorV,
> {
    match j {
        Json::Obj(es) => match spec_decode_u64(es, "created"@) {
            Err(e) => Err(e),
            Ok(created) => match spec_obj_get(es, "data"@) {
                None => Err(DecodeErrorV::MissingField("data"@)),
                Some(dj) => match dj {
                    Json::Arr(items) => match spec_decode_image_objects(items) {
                        Err(e) => Err(e),
                        Ok(data) => Ok(CreateImageResponseV { created, data }),
                    },
                    _ => Err(DecodeErrorV::Malformed("data"@)),
                },
            },
        },
        _ => Err(DecodeErrorV::Malformed("response"@)),
    }
}

fn get_opt_str_field(v: &JsonValue, key: &str) -> (r: Result<Option<String>, DecodeError>)
    requires
        v@ is Obj,
    ensures
        (match r {
            Ok(s) => spec_opt_str(v@->Obj_0, key@) == Ok::<Option<Seq<char>>, DecodeErrorV>(
                crate::chat::name_view(s),
            ),
            Err(e) => spec_opt_str(v@->Obj_0, key@) == Err::<Option<Seq<char>>, DecodeErrorV>(e@),
        }),
{
    match v.get(key) {
        None => Ok(None),
        Some(w) => match w {
            JsonValue::Str(s) => Ok(Some(s.clone())),
            JsonValue::Null => Ok(None),
            _ => Err(DecodeError::Malformed(String::from_str(key))),
        },
    }
}

fn get_u64_field(v: &JsonValue, key: &str) -> (r: Result<u64, DecodeError>)
    requires
        v@ is Obj,
    ensures
        (match r {
            Ok(x) => spec_decode_u64(v@->Obj_0, key@) == Ok::<u64, DecodeErrorV>(x),
            Err(e) => spec_decode_u64(v@->Obj_0, key@) == Err::<u64, DecodeErrorV>(e@),
        }),
{
    match v.get(key) {
        None => Err(DecodeError::MissingField(String::from_str(key))),
        Some(w) => match w {
            JsonValue::Num(n) => Ok(*n),
            _ => Err(DecodeError::Malformed(String::from_str(key))),
        },
    }
}

fn get_req_str_field(v: &JsonValue, key: &str) -> (r: Result<String, DecodeError>)
    requires
        v@ is Obj,
    ensures
        (match r {
            Ok(s) => crate::chat::spec_decode_str(v@->Obj_0, key@) == Ok::<
                Seq<char>,
                DecodeErrorV,
            >(s@),
            Err(e) => crate::chat::spec_decode_str(v@->Obj_0, key@) == Err::<
                Seq<char>,
                DecodeErrorV,
            >(e@),
        }),
{
    match v.get(key) {
        None => Err(DecodeError::MissingField(String::from_str(key))),
        Some(w) => match w {
            JsonValue::Str(s) => Ok(s.clone()),
            _ => Err(DecodeError::Malformed(String::from_str(key))),
        },
    }
}

impl ImageObject {
    pub fn from_json(v: &JsonValue) -> (r: Result<ImageObject, DecodeError>)
        ensures
            (match r {
                Ok(o) => spec_decode_image_object(v@) == Ok::<ImageObjectV, DecodeErrorV>(o@),
                Err(e) => spec_decode_image_object(v@) == Err::<ImageObjectV, DecodeErrorV>(e@),
            }),
    {
        match v {
            JsonValue::Obj(entries) => {
                let b64_json = match get_opt_str_field(v, "b64_json") {
                    Ok(s) => s,
                    Err(e) => {
                        return Err(e);
                    },
                };
                let url = match get_opt_str_field(v, "url") {
                    Ok(s) => s,
                    Err(e) => {
                        return Err(e);
                    },
                };
                let revised_prompt = match get_req_str_field(v, "revised_prompt") {
                    Ok(s) => s,
                    Err(e) => {
                        return Err(e);
                    },
                };
                Ok(ImageObject { b64_json, url, revised_prompt })
            },
            _ => Err(DecodeError::Malformed(String::from_str("data"))),
        }
    }
}

fn decode_image_objects(items: &Vec<JsonValue>) -> (r: Result<Vec<ImageObject>, DecodeError>)
    ensures
        (match r {
            Ok(v) => spec_decode_image_objects(seq_views(items@)) == Ok::<_, DecodeErrorV>(
                images_view(v@),
            ),
            Err(e) => spec_decode_image_objects(seq_views(items@)) == Err::<
                Seq<ImageObjectV>,
                _,
            >(e@),
        }),
{
    let ghost vs = seq_views(items@);
    let mut acc: Vec<ImageObject> = Vec::new();
    let n = items.len();
    let mut i: usize = 0;
    proof {
        assert(vs.skip(0) =~= vs);
        assert(images_view(acc@) =~= Seq::<ImageObjectV>::empty());
    }
    while i < n
        invariant
            n == items@.len(),
            0 <= i <= n,
            vs == seq_views(items@),
            spec_decode_image_objects(vs) == prepend_images(
                images_view(acc@),
                spec_decode_image_objects(vs.skip(i as int)),
            ),
        decreases n - i,
    {
        proof {
            assert(vs.skip(i as int)[0] == vs[i as int]);
            assert(vs.skip(i as int).drop_first() =~= vs.skip(i + 1 as int));
        }
        let c = match ImageObject::from_json(&items[i]) {
            Ok(c) => c,
            Err(e) => {
                return Err(e);
            },
        };
        let ghost prior = acc@;
        acc.push(c);
        proof {
            let ghost tail = spec_decode_image_objects(vs.skip(i + 1 as int));
            assert(images_view(acc@) =~= images_view(prior).push(c@));
            if tail is Ok {
                assert(images_view(prior) + (seq![c@] + tail->Ok_0) =~= images_view(acc@)
                    + tail->Ok_0);
            }
        }
        i += 1;
    }
    proof {
        assert(vs.skip(n as int) =~= Seq::<Json>::empty());
        assert(images_view(acc@) + Seq::<ImageObjectV>::empty() =~= images_view(acc@));
    }
    Ok(acc)
}

impl CreateImageResponse {
    /// Decodes a whole response body, already parsed into a JSON tree.
    pub fn from_json(v: &JsonValue) -> (r: Result<CreateImageResponse, DecodeError>)
        ensures
            (match r {
                Ok(resp) => spec_decode_image_response(v@) == Ok::<
                    CreateImageResponseV,
                    DecodeErrorV,
                >(resp@),
                Err(e) => spec_decode_image_response(v@) == Err::<
                    CreateImageResponseV,
                    DecodeErrorV,
                >(e@),
            }),
    {
        match v {
            JsonValue::Obj(entries) => {
                let created = match get_u64_field(v, "created") {
                    Ok(x) => x,
                    Err(e) => {
                        return Err(e);
                    },
                };
                let data = match v.get("data") {
                    None => {
                        return Err(DecodeError::MissingField(String::from_str("data")));
                    },
                    Some(w) => match w {
                        JsonValue::Arr(items) => match decode_image_objects(items) {
                            Ok(os) => os,
                            Err(e) => {
                                return Err(e);
                            },
                        },
                        _ => {
                            return Err(DecodeError::Malformed(String::from_str("data")));
                        },
                    },
                };
                Ok(CreateImageResponse { created, data })
            },
            _ => Err(DecodeError::Malformed(String::from_str("response"))),
        }
    }
}

/// An image request with only the required field set serializes to an
/// object holding exactly the `prompt` member and the defaulted
/// `model` member, and no other key.
pub proof fn lemma_required_only_image_request(req: CreateImageRequest)
    requires
        req.n is None,
        req.quality is None,
        req.response_format is None,
        req.size is None,
        req.style is None,
        req.user is None,
    ensures
        spec_image_request_json(req) matches Json::Obj(es) && es =~= seq![
            ("prompt"@, Json::Str(req.prompt@)),
            ("model"@, Json::Str(spec_image_model_wire(req.model))),
        ],
{
    assert(spec_image_request_json(req)->Obj_0 =~= seq![
        ("prompt"@, Json::Str(req.prompt@)),
        ("model"@, Json::Str(spec_image_model_wire(req.model))),
    ]);
}

} // verus!
