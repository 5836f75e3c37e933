//! Artifact generation: from a derived identifier, produce in order a
//! raster (PNG) image, a vector (SVG) image, and a composed printable label
//! embedding the raster image and descriptive text. Byte production is
//! deterministic in the identifier and metadata, which keeps re-uploads of
//! the artifacts idempotent at the file-storage layer.

use vstd::prelude::*;
use vstd::string::{StrSliceExecFns, StringExecFns};
use vstd::utf8::encode_utf8;

use crate::entity::NewAssetItem;
use crate::errors::SyncError;
use crate::text::chars_of;

verus! {

/// Pixel height of the raster identifier image.
pub const PNG_HEIGHT: u32 = 45;

/// Pixel height of the vector identifier image.
pub const SVG_HEIGHT: u32 = 200;

/// The binary bar pattern that the barcode encoder derives from a code-39
/// payload. Named rather than spelled out: it is a pure function of the
/// payload, defined by the encoder's symbol table.
pub uninterp spec fn code39_bars(data: Seq<char>) -> Seq<u8>;

/// The PNG encoding of a bar pattern at a given pixel height; a pure
/// function of both.
pub uninterp spec fn png_of(bars: Seq<u8>, height: u32) -> Seq<u8>;

/// Whether the image encoder accepts a bar pattern at a given pixel height;
/// like the encoding itself, a pure function of both.
pub uninterp spec fn png_renderable(bars: Seq<u8>, height: u32) -> bool;

/// The SVG document for a bar pattern at a given pixel height; a pure
/// function of both.
pub uninterp spec fn svg_of(bars: Seq<u8>, height: u32) -> Seq<char>;

/// A character the code-39 symbology can encode.
pub open spec fn is_code39_char(c: char) -> bool {
    ('0' <= c && c <= '9') || ('A' <= c && c <= 'Z') || c == '-' || c == '.' || c == ' '
        || c == '$' || c == '/' || c == '+' || c == '%'
}

/// A payload the code-39 encoder accepts: one to 256 characters, all from
/// the code-39 alphabet.
pub open spec fn code39_accepts(data: Seq<char>) -> bool {
    1 <= data.len() <= 256 && forall|i: int| 0 <= i < data.len() ==> is_code39_char(#[trigger] data[i])
}

/// Law: the identifier derived from a natural key of plain key characters
/// (letters, digits, and the stripped punctuation) and bounded length is
/// always encodable, so artifact generation is never refused for such a key.
pub proof fn lemma_plain_key_identifier_encodable(name: Seq<char>)
    requires
        forall|i: int| 0 <= i < name.len() ==> crate::barcode::is_plain_key_char(name[i]),
        name.len() <= 256,
    ensures
        code39_accepts(crate::barcode::identifier_spec(name)),
{
    crate::barcode::lemma_identifier_well_formed(name);
    crate::barcode::lemma_strip_upper_len(name);
    crate::barcode::lemma_trim_len(crate::barcode::strip_upper(name));
    let id = crate::barcode::identifier_spec(name);
    assert forall|i: int| 0 <= i < id.len() implies is_code39_char(#[trigger] id[i]) by {
        assert(crate::barcode::is_identifier_char(id[i]));
    }
}

/// Relies on barcoders' `Code39::new` and `Code39::encode`: construction
/// succeeds exactly for payloads of 1 to 256 characters drawn from the
/// code-39 alphabet, and encoding yields the barcode's binary bar pattern,
/// a pure function of the payload — one guard of 12 bars on each side of a
/// 13-bar group per character (12 bars and a separator).
#[verifier::external_body]
fn code39_encode(data: &str) -> (r: Option<Vec<u8>>)
    ensures
        r is Some <==> code39_accepts(data@),
        r is Some ==> r.unwrap()@ == code39_bars(data@) && r.unwrap()@.len() == 25 + 13
            * data@.len(),
{
    match barcoders::sym::code39::Code39::new(data) {
        Ok(code) => Some(code.encode()),
        Err(_) => None,
    }
}

/// Relies on barcoders' `Image::png` generator: rendering is deterministic
/// in the bar pattern and pixel height, and so is whether the underlying
/// image encoder accepts the pattern (it may refuse one, for example an
/// empty one). The generator allocates a pixel buffer of four bytes per bar
/// per row, so the bar-height product is bounded to keep that allocation
/// (and the 32-bit width) well inside address space.
#[verifier::external_body]
fn render_png(bars: &Vec<u8>, height: u32) -> (r: Option<Vec<u8>>)
    requires
        bars@.len() * height <= 0x0fff_ffff,
    ensures
        r is Some <==> png_renderable(bars@, height),
        r is Some ==> r.unwrap()@ == png_of(bars@, height),
{
    barcoders::generators::image::Image::png(height).generate(&bars[..]).ok()
}

/// Relies on barcoders' `SVG` generator: it always succeeds, and the
/// document is deterministic in the bar pattern and pixel height.
#[verifier::external_body]
fn render_svg(bars: &Vec<u8>, height: u32) -> (r: String)
    ensures
        r@ == svg_of(bars@, height),
{
    match barcoders::generators::svg::SVG::new(height).generate(&bars[..]) {
        Ok(doc) => doc,
        Err(_) => String::new(),
    }
}

/// `s` with every `'/'` removed, as used inside artifact file names.
pub open spec fn slashless(s: Seq<char>) -> Seq<char>
    decreases s.len(),
{
    if s.len() == 0 {
        Seq::empty()
    } else {
        let rest = slashless(s.drop_last());
        if s.last() == '/' {
            rest
        } else {
            rest.push(s.last())
        }
    }
}

/// Removes every `'/'` from a string.
pub fn remove_slashes(s: &str) -> (r: String)
    ensures
        r@ == slashless(s@),
{
    let cs = chars_of(s);
    let mut v: Vec<char> = Vec::new();
    let mut i: usize = 0;
    while i < cs.len()
        invariant
            i <= cs.len(),
            cs@ == s@,
            v@ == slashless(s@.subrange(0, i as int)),
        decreases cs.len() - i,
    {
        proof {
            let pre = s@.subrange(0, i as int);
            let ext = s@.subrange(0, i as int + 1);
            assert(ext.drop_last() =~= pre);
            assert(ext.last() == s@[i as int]);
        }
        if cs[i] != '/' {
            v.push(cs[i]);
        }
        i += 1;
    }
    proof {
        assert(s@.subrange(0, s@.len() as int) =~= s@);
    }
    crate::text::string_from_chars(&v)
}

/// The name under which an artifact is created or replaced in file storage:
/// the category, a space, and the slash-free natural key, with the given
/// suffix.
pub open spec fn artifact_name_spec(category: Seq<char>, name: Seq<char>, suffix: Seq<char>) -> Seq<char> {
    category + " "@ + slashless(name) + suffix
}

/// The descriptive line composed onto the printable label: manufacturer,
/// category, and model number separated by spaces.
pub open spec fn description_spec(manufacturer: Seq<char>, category: Seq<char>, model: Seq<char>) -> Seq<char> {
    manufacturer + " "@ + category + " "@ + model
}

/// The composed printable label: a fixed header, then the identifier, the
/// natural key, and the descriptive line (each `'\n'`-terminated, UTF-8
/// encoded), then the embedded raster image bytes.
pub open spec fn label_of(png: Seq<u8>, code: Seq<u8>, name: Seq<u8>, desc: Seq<u8>) -> Seq<u8> {
    seq![76u8, 66u8, 76u8, 10u8] + code + seq![10u8] + name + seq![10u8] + desc + seq![10u8] + png
}

/// Composes the printable label document from the raster image and the
/// descriptive text.
pub fn compose_label(png: &Vec<u8>, code: &str, name: &str, desc: &str) -> (r: Vec<u8>)
    ensures
        r@ == label_of(png@, encode_utf8(code@), encode_utf8(name@), encode_utf8(desc@)),
{
    let mut out: Vec<u8> = Vec::new();
    out.push(76u8);
    out.push(66u8);
    out.push(76u8);
    out.push(10u8);
    let mut part = code.as_bytes_vec();
    out.append(&mut part);
    out.push(10u8);
    let mut part = name.as_bytes_vec();
    out.append(&mut part);
    out.push(10u8);
    let mut part = desc.as_bytes_vec();
    out.append(&mut part);
    out.push(10u8);
    let mut tail: Vec<u8> = Vec::new();
    let mut i: usize = 0;
    while i < png.len()
        invariant
            i <= png.len(),
            tail@ == png@.subrange(0, i as int),
        decreases png.len() - i,
    {
        tail.push(png[i]);
        proof {
            assert(png@.subrange(0, i as int).push(png@[i as int]) =~= png@.subrange(
                0,
                i as int + 1,
            ));
        }
        i += 1;
    }
    proof {
        assert(png@.subrange(0, png@.len() as int) =~= png@);
    }
    out.append(&mut tail);
    proof {
        assert(out@ =~= label_of(png@, encode_utf8(code@), encode_utf8(name@), encode_utf8(desc@)));
    }
    out
}

/// One artifact to create or replace by name in external file storage.
#[derive(Debug, Clone, PartialEq)]
pub struct Artifact {
    /// The storage name; re-uploads under the same name replace the file.
    pub file_name: String,
    /// The MIME content type handed to storage.
    pub content_type: String,
    /// The artifact bytes.
    pub bytes: Vec<u8>,
}

/// The three artifacts derived from one entity's identifier, in production
/// order: raster image, vector image, printable label.
#[derive(Debug, Clone, PartialEq)]
pub struct ArtifactPlan {
    /// The raster identifier image.
    pub png: Artifact,
    /// The vector identifier image.
    pub svg: Artifact,
    /// The composed printable label.
    pub label: Artifact,
}

/// The planned artifacts for an entity with the given category, natural
/// key, manufacturer, model, and identifier: every file name, content type,
/// and byte sequence, all deterministic in these five inputs.
pub open spec fn plan_for(
    plan: ArtifactPlan,
    category: Seq<char>,
    name: Seq<char>,
    manufacturer: Seq<char>,
    model: Seq<char>,
    barcode: Seq<char>,
) -> bool {
    let bars = code39_bars(barcode);
    &&& plan.png.file_name@ == artifact_name_spec(category, name, ".png"@)
    &&& plan.png.content_type@ == "image/png"@
    &&& plan.png.bytes@ == png_of(bars, PNG_HEIGHT)
    &&& plan.svg.file_name@ == artifact_name_spec(category, name, ".svg"@)
    &&& plan.svg.content_type@ == "image/svg+xml"@
    &&& plan.svg.bytes@ == encode_utf8(svg_of(bars, SVG_HEIGHT))
    &&& plan.label.file_name@ == artifact_name_spec(category, name, " - Barcode Label.pdf"@)
    &&& plan.label.content_type@ == "application/pdf"@
    &&& plan.label.bytes@ == label_of(
        png_of(bars, PNG_HEIGHT),
        encode_utf8(barcode),
        encode_utf8(name),
        encode_utf8(description_spec(manufacturer, category, model)),
    )
}

/// The condition under which artifact generation succeeds for a named
/// entity: an encodable identifier whose bar pattern the image encoder
/// accepts.
pub open spec fn artifacts_producible(barcode: Seq<char>) -> bool {
    code39_accepts(barcode) && png_renderable(code39_bars(barcode), PNG_HEIGHT)
}

impl NewAssetItem {
    /// Produces the derived artifacts for this entity's identifier. Yields
    /// nothing for an entity without a natural key; succeeds exactly when
    /// the identifier is encodable and its bar pattern renders, and fails
    /// with an artifact error otherwise. Artifact bytes and names are
    /// deterministic in the entity's fields.
    pub fn generate_barcode_images(&self) -> (r: Result<Option<ArtifactPlan>, SyncError>)
        ensures
            self.name@.len() == 0 ==> r == Result::<Option<ArtifactPlan>, SyncError>::Ok(
                None::<ArtifactPlan>,
            ),
            self.name@.len() > 0 ==> (r is Ok <==> artifacts_producible(self.barcode@)),
            r is Err ==> r->Err_0 is Artifact && self.name@.len() > 0,
            self.name@.len() > 0 && r is Ok ==> r->Ok_0 is Some && plan_for(
                r->Ok_0.unwrap(),
                self.type_@,
                self.name@,
                self.manufacturer@,
                self.model_number@,
                self.barcode@,
            ),
    {
        if self.name.as_str().is_empty() {
            return Ok(None);
        }
        let bars = match code39_encode(self.barcode.as_str()) {
            Some(b) => b,
            None => {
                return Err(
                    SyncError::Artifact(String::from_str("identifier is not code-39 encodable")),
                );
            },
        };
        let png_bytes = match render_png(&bars, PNG_HEIGHT) {
            Some(b) => b,
            None => {
                return Err(
                    SyncError::Artifact(String::from_str("raster image rendering failed")),
                );
            },
        };
        let cleaned = remove_slashes(self.name.as_str());
        let base = self.type_.clone().concat(" ").concat(cleaned.as_str());

        let svg_doc = render_svg(&bars, SVG_HEIGHT);
        let svg_bytes = svg_doc.as_str().as_bytes_vec();

        let desc = self.manufacturer.clone().concat(" ").concat(self.type_.as_str()).concat(
            " ",
        ).concat(self.model_number.as_str());
        let label_bytes = compose_label(
            &png_bytes,
            self.barcode.as_str(),
            self.name.as_str(),
            desc.as_str(),
        );
        proof {
            assert(desc@ =~= description_spec(self.manufacturer@, self.type_@, self.model_number@));
            assert(base@ + ".png"@ =~= artifact_name_spec(self.type_@, self.name@, ".png"@));
            assert(base@ + ".svg"@ =~= artifact_name_spec(self.type_@, self.name@, ".svg"@));
            assert(base@ + " - Barcode Label.pdf"@ =~= artifact_name_spec(
                self.type_@,
                self.name@,
                " - Barcode Label.pdf"@,
            ));
        }
        Ok(
            Some(
                ArtifactPlan {
                    png: Artifact {
                        file_name: base.clone().concat(".png"),
                        content_type: String::from_str("image/png"),
                        bytes: png_bytes,
                    },
                    svg: Artifact {
                        file_name: base.clone().concat(".svg"),
                        content_type: String::from_str("image/svg+xml"),
                        bytes: svg_bytes,
                    },
                    label: Artifact {
                        file_name: base.concat(" - Barcode Label.pdf"),
                        content_type: String::from_str("application/pdf"),
                        bytes: label_bytes,
                    },
                },
            ),
        )
    }
}

} // verus!
