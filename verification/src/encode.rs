//! The encoder: the multi-valued fields of the canonical record written as
//! JSON text, in one shape whatever was read.

use vstd::prelude::*;
use vstd::string::*;

use crate::record::GpsView;
use crate::record::Metadata;
use crate::record::MetadataView;
use crate::record::Record;
use crate::record::RecordView;
use crate::record::RegionShape;
use crate::record::ResolutionView;
use crate::record::SubjectArea;
use crate::record::Thumbnail;
use crate::record::ThumbnailView;
use crate::record::Gps;
use crate::record::Resolution;
use crate::text::decimal;
use crate::text::render_u32;

verus! {

/// The JSON string literal that `serde_json` writes for `text`: the text
/// between double quotes, with the characters escaped that JSON requires.
pub uninterp spec fn json_string(text: Seq<char>) -> Seq<char>;

/// Wraps the `Display` of `serde_json::Value` (`to_string`), applied to a
/// `Value::String`.
///
/// Trusted: what comes back depends on the text alone.
#[verifier::external_body]
pub(crate) fn quote(text: &str) -> (r: String)
    ensures
        r@ == json_string(text@),
{
    serde_json::Value::String(text.to_owned()).to_string()
}

/// The views of a list of strings, in order.
pub open spec fn texts(list: Seq<String>) -> Seq<Seq<char>> {
    Seq::new(list.len(), |i: int| list[i]@)
}

/// The first `n` of `parts`, with a comma between each two.
pub open spec fn joined(parts: Seq<Seq<char>>, n: nat) -> Seq<char>
    decreases n,
{
    if n == 0 {
        Seq::empty()
    } else if n == 1 {
        parts[0]
    } else {
        joined(parts, (n - 1) as nat) + ","@ + parts[n - 1]
    }
}

/// A JSON object with the given members, each already written as
/// `"key":value`.
pub open spec fn object(members: Seq<Seq<char>>) -> Seq<char> {
    "{"@ + joined(members, members.len()) + "}"@
}

/// A JSON array with the given items, each already written.
pub open spec fn array(items: Seq<Seq<char>>) -> Seq<char> {
    "["@ + joined(items, items.len()) + "]"@
}

/// The member for a text value, where there is one: `key` stands for the
/// quoted key with its colon.
pub open spec fn text_member(key: Seq<char>, value: Option<Seq<char>>) -> Seq<Seq<char>> {
    match value {
        Some(text) => seq![key + json_string(text)],
        None => Seq::empty(),
    }
}

/// The member for a number: `key` stands for the quoted key with its colon.
pub open spec fn number_member(key: Seq<char>, value: u32) -> Seq<char> {
    key + decimal(value as nat)
}

/// The members of the resolution object: `x`, then `y`, each only where it
/// was read.
pub open spec fn resolution_members(resolution: ResolutionView) -> Seq<Seq<char>> {
    text_member("\"x\":"@, resolution.x) + text_member("\"y\":"@, resolution.y)
}

/// Resolution: always an array of one object.
pub open spec fn resolution_json(resolution: ResolutionView) -> Seq<char> {
    array(seq![object(resolution_members(resolution))])
}

/// The members of the GPS object: `latitude`, then `longitude`, each only
/// where it was read.
pub open spec fn gps_members(gps: GpsView) -> Seq<Seq<char>> {
    text_member("\"latitude\":"@, gps.latitude) + text_member("\"longitude\":"@, gps.longitude)
}

/// GPS: an empty array where neither axis was read, else an array of one
/// object.
pub open spec fn gps_json(gps: GpsView) -> Seq<char> {
    if gps.latitude is None && gps.longitude is None {
        array(Seq::empty())
    } else {
        array(seq![object(gps_members(gps))])
    }
}

/// The members that say how far a region extends.
pub open spec fn shape_members(shape: RegionShape) -> Seq<Seq<char>> {
    match shape {
        RegionShape::Point => Seq::empty(),
        RegionShape::Circle { diameter } => seq![number_member("\"diameter\":"@, diameter)],
        RegionShape::Rectangle { width, height } => seq![
            number_member("\"width\":"@, width),
            number_member("\"height\":"@, height),
        ],
    }
}

/// The members of the subject area object: `x`, `y`, then the extent.
pub open spec fn subject_area_members(area: SubjectArea) -> Seq<Seq<char>> {
    seq![number_member("\"x\":"@, area.x), number_member("\"y\":"@, area.y)] + shape_members(
        area.shape,
    )
}

/// Subject area: one flat object, empty where no region was read.
pub open spec fn subject_area_json(area: Option<SubjectArea>) -> Seq<char> {
    match area {
        Some(region) => object(subject_area_members(region)),
        None => object(Seq::empty()),
    }
}

/// One thumbnail: an object with `format`, `width`, `height` and `image`.
pub open spec fn thumbnail_json(thumbnail: ThumbnailView) -> Seq<char> {
    object(
        seq![
            "\"format\":"@ + json_string(thumbnail.format),
            "\"width\":"@ + json_string(thumbnail.width),
            "\"height\":"@ + json_string(thumbnail.height),
            "\"image\":"@ + json_string(thumbnail.image),
        ],
    )
}

/// Thumbnails: an array of one object each, in order.
pub open spec fn thumbnails_json(thumbnails: Seq<ThumbnailView>) -> Seq<char> {
    array(Seq::new(thumbnails.len(), |i: int| thumbnail_json(thumbnails[i])))
}

/// The encoded record: the scalar fields as they are, the multi-valued
/// fields as JSON text.
pub open spec fn encoded(rec: RecordView) -> MetadataView {
    MetadataView {
        title: rec.title,
        author: rec.author,
        width: rec.width,
        height: rec.height,
        resolution: resolution_json(rec.resolution),
        make: rec.make,
        model: rec.model,
        flash_found: rec.flash_found,
        copyright: rec.copyright,
        description: rec.description,
        gps: gps_json(rec.gps),
        xmp: rec.xmp,
        iptc: rec.iptc,
        subject_area: subject_area_json(rec.subject_area),
        thumbnails: thumbnails_json(rec.thumbnails),
        original_document_id: rec.original_document_id,
    }
}

/// Resolution is encoded as an array of exactly one object, whatever was
/// read: the empty object where no axis was read, and else an object with
/// the axes that were read, `x` before `y`.
pub proof fn lemma_resolution_is_one_object(resolution: ResolutionView)
    ensures
        resolution_json(resolution) == "["@ + object(resolution_members(resolution)) + "]"@,
        resolution_json(resolution) == match (resolution.x, resolution.y) {
            (None, None) => "[{}]"@,
            (Some(x), None) => "[{\"x\":"@ + json_string(x) + "}]"@,
            (None, Some(y)) => "[{\"y\":"@ + json_string(y) + "}]"@,
            (Some(x), Some(y)) => "[{\"x\":"@ + json_string(x) + ",\"y\":"@ + json_string(y)
                + "}]"@,
        },
{
    reveal_strlit("[");
    reveal_strlit("]");
    reveal_strlit("{");
    reveal_strlit("}");
    reveal_strlit(",");
    reveal_strlit("[{}]");
    reveal_strlit("}]");
    reveal_strlit("\"x\":");
    reveal_strlit("\"y\":");
    reveal_strlit("[{\"x\":");
    reveal_strlit("[{\"y\":");
    reveal_strlit(",\"y\":");
    let members = resolution_members(resolution);
    let items = seq![object(members)];
    assert(joined(items, 1) == items[0]);
    assert(resolution_json(resolution) =~= "["@ + object(members) + "]"@);
    reveal_with_fuel(joined, 3);
    match (resolution.x, resolution.y) {
        (None, None) => {
            assert(members =~= Seq::<Seq<char>>::empty());
            assert(resolution_json(resolution) =~= "[{}]"@);
        },
        (Some(x), None) => {
            assert(members =~= seq!["\"x\":"@ + json_string(x)]);
            assert(resolution_json(resolution) =~= "[{\"x\":"@ + json_string(x) + "}]"@);
        },
        (None, Some(y)) => {
            assert(members =~= seq!["\"y\":"@ + json_string(y)]);
            assert(resolution_json(resolution) =~= "[{\"y\":"@ + json_string(y) + "}]"@);
        },
        (Some(x), Some(y)) => {
            assert(members =~= seq!["\"x\":"@ + json_string(x), "\"y\":"@ + json_string(y)]);
            assert(resolution_json(resolution) =~= "[{\"x\":"@ + json_string(x) + ",\"y\":"@
                + json_string(y) + "}]"@);
        },
    }
}

/// GPS is encoded as the empty array where neither axis was read, and else
/// as an array of exactly one object that holds the axes that were read and
/// no other, `latitude` before `longitude`.
pub proof fn lemma_gps_is_absent_or_one_object(gps: GpsView)
    ensures
        gps.latitude is Some || gps.longitude is Some ==> gps_json(gps) == "["@ + object(
            gps_members(gps),
        ) + "]"@,
        gps_json(gps) == match (gps.latitude, gps.longitude) {
            (None, None) => "[]"@,
            (Some(latitude), None) => "[{\"latitude\":"@ + json_string(latitude) + "}]"@,
            (None, Some(longitude)) => "[{\"longitude\":"@ + json_string(longitude) + "}]"@,
            (Some(latitude), Some(longitude)) => "[{\"latitude\":"@ + json_string(latitude)
                + ",\"longitude\":"@ + json_string(longitude) + "}]"@,
        },
{
    reveal_strlit("[");
    reveal_strlit("]");
    reveal_strlit("{");
    reveal_strlit("}");
    reveal_strlit(",");
    reveal_strlit("[]");
    reveal_strlit("}]");
    reveal_strlit("\"latitude\":");
    reveal_strlit("\"longitude\":");
    reveal_strlit("[{\"latitude\":");
    reveal_strlit("[{\"longitude\":");
    reveal_strlit(",\"longitude\":");
    let members = gps_members(gps);
    let items = seq![object(members)];
    assert(joined(items, 1) == items[0]);
    reveal_with_fuel(joined, 3);
    match (gps.latitude, gps.longitude) {
        (None, None) => {
            assert(gps_json(gps) =~= "[]"@);
        },
        (Some(latitude), None) => {
            assert(gps_json(gps) =~= "["@ + object(members) + "]"@);
            assert(members =~= seq!["\"latitude\":"@ + json_string(latitude)]);
            assert(gps_json(gps) =~= "[{\"latitude\":"@ + json_string(latitude) + "}]"@);
        },
        (None, Some(longitude)) => {
            assert(gps_json(gps) =~= "["@ + object(members) + "]"@);
            assert(members =~= seq!["\"longitude\":"@ + json_string(longitude)]);
            assert(gps_json(gps) =~= "[{\"longitude\":"@ + json_string(longitude) + "}]"@);
        },
        (Some(latitude), Some(longitude)) => {
            assert(gps_json(gps) =~= "["@ + object(members) + "]"@);
            assert(members =~= seq![
                "\"latitude\":"@ + json_string(latitude),
                "\"longitude\":"@ + json_string(longitude),
            ]);
            assert(gps_json(gps) =~= "[{\"latitude\":"@ + json_string(latitude)
                + ",\"longitude\":"@ + json_string(longitude) + "}]"@);
        },
    }
}

/// A subject area is encoded as one flat object that always has `x` and
/// `y` and, after them, either nothing more, `diameter` alone, or `width`
/// and `height`.
pub proof fn lemma_subject_area_is_flat_object(area: SubjectArea)
    ensures
        subject_area_json(Some(area)) == match area.shape {
            RegionShape::Point => "{\"x\":"@ + decimal(area.x as nat) + ",\"y\":"@ + decimal(
                area.y as nat,
            ) + "}"@,
            RegionShape::Circle { diameter } => "{\"x\":"@ + decimal(area.x as nat) + ",\"y\":"@
                + decimal(area.y as nat) + ",\"diameter\":"@ + decimal(diameter as nat) + "}"@,
            RegionShape::Rectangle { width, height } => "{\"x\":"@ + decimal(area.x as nat)
                + ",\"y\":"@ + decimal(area.y as nat) + ",\"width\":"@ + decimal(width as nat)
                + ",\"height\":"@ + decimal(height as nat) + "}"@,
        },
{
    reveal_strlit("{");
    reveal_strlit("}");
    reveal_strlit(",");
    reveal_strlit("\"x\":");
    reveal_strlit("\"y\":");
    reveal_strlit("\"diameter\":");
    reveal_strlit("\"width\":");
    reveal_strlit("\"height\":");
    reveal_strlit("{\"x\":");
    reveal_strlit(",\"y\":");
    reveal_strlit(",\"diameter\":");
    reveal_strlit(",\"width\":");
    reveal_strlit(",\"height\":");
    reveal_with_fuel(joined, 5);
    let members = subject_area_members(area);
    let x = decimal(area.x as nat);
    let y = decimal(area.y as nat);
    match area.shape {
        RegionShape::Point => {
            assert(members =~= seq!["\"x\":"@ + x, "\"y\":"@ + y]);
            assert(subject_area_json(Some(area)) =~= "{\"x\":"@ + x + ",\"y\":"@ + y + "}"@);
        },
        RegionShape::Circle { diameter } => {
            let d = decimal(diameter as nat);
            assert(members =~= seq!["\"x\":"@ + x, "\"y\":"@ + y, "\"diameter\":"@ + d]);
            assert(subject_area_json(Some(area)) =~= "{\"x\":"@ + x + ",\"y\":"@ + y
                + ",\"diameter\":"@ + d + "}"@);
        },
        RegionShape::Rectangle { width, height } => {
            let w = decimal(width as nat);
            let h = decimal(height as nat);
            assert(members =~= seq![
                "\"x\":"@ + x,
                "\"y\":"@ + y,
                "\"width\":"@ + w,
                "\"height\":"@ + h,
            ]);
            assert(subject_area_json(Some(area)) =~= "{\"x\":"@ + x + ",\"y\":"@ + y
                + ",\"width\":"@ + w + ",\"height\":"@ + h + "}"@);
        },
    }
}

/// Writes `parts` between `open` and `close`, with a comma between each
/// two.
fn enclose(open: &str, parts: &Vec<String>, close: &str) -> (r: String)
    ensures
        r@ == open@ + joined(texts(parts@), parts@.len()) + close@,
{
    let mut out = open.to_owned();
    let mut i: usize = 0;
    assert(out@ =~= open@ + joined(texts(parts@), 0));
    while i < parts.len()
        invariant
            i <= parts.len(),
            out@ == open@ + joined(texts(parts@), i as nat),
        decreases parts.len() - i,
    {
        let ghost before = out@;
        if i > 0 {
            out.append(",");
        }
        out.append(parts[i].as_str());
        assert(out@ =~= open@ + joined(texts(parts@), (i + 1) as nat)) by {
            assert(texts(parts@)[i as int] == parts@[i as int]@);
            if i == 0 {
                assert(before =~= open@);
            }
        }
        i = i + 1;
    }
    out.append(close);
    out
}

/// Writes a JSON object from its members.
pub fn write_object(members: &Vec<String>) -> (r: String)
    ensures
        r@ == object(texts(members@)),
{
    enclose("{", members, "}")
}

/// Writes a JSON array from its items.
pub fn write_array(items: &Vec<String>) -> (r: String)
    ensures
        r@ == array(texts(items@)),
{
    enclose("[", items, "]")
}

/// Adds the member for a text value to `members`, where there is a value.
fn push_text_member(members: &mut Vec<String>, key: &str, value: &Option<String>)
    ensures
        texts(final(members)@) == texts(old(members)@) + text_member(
            key@,
            crate::record::text_view(*value),
        ),
{
    let ghost before = members@;
    if let Some(text) = value {
        let mut member = key.to_owned();
        let quoted = quote(text.as_str());
        member.append(quoted.as_str());
        members.push(member);
        assert(texts(members@) =~= texts(before) + seq![key@ + json_string(text@)]);
    } else {
        assert(texts(members@) =~= texts(before) + Seq::<Seq<char>>::empty());
    }
}

/// Adds the member for a number to `members`.
fn push_number_member(members: &mut Vec<String>, key: &str, value: u32)
    ensures
        texts(final(members)@) == texts(old(members)@).push(number_member(key@, value)),
{
    let ghost before = members@;
    let mut member = key.to_owned();
    let digits = render_u32(value);
    member.append(digits.as_str());
    members.push(member);
    assert(texts(members@) =~= texts(before).push(number_member(key@, value)));
}

/// Adds the member for a text value that is always there.
fn push_quoted_member(members: &mut Vec<String>, key: &str, value: &String)
    ensures
        texts(final(members)@) == texts(old(members)@).push(key@ + json_string(value@)),
{
    let ghost before = members@;
    let mut member = key.to_owned();
    let quoted = quote(value.as_str());
    member.append(quoted.as_str());
    members.push(member);
    assert(texts(members@) =~= texts(before).push(key@ + json_string(value@)));
}

/// Encodes the resolution: an array of one object, with a key for each
/// axis that was read.
pub fn encode_resolution(resolution: &Resolution) -> (r: String)
    ensures
        r@ == resolution_json(resolution@),
{
    let mut members: Vec<String> = Vec::new();
    assert(texts(members@) =~= Seq::empty());
    push_text_member(&mut members, "\"x\":", &resolution.x);
    push_text_member(&mut members, "\"y\":", &resolution.y);
    assert(texts(members@) =~= resolution_members(resolution@));
    let mut items: Vec<String> = Vec::new();
    items.push(write_object(&members));
    assert(texts(items@) =~= seq![object(resolution_members(resolution@))]);
    write_array(&items)
}

/// Encodes the GPS position: an empty array where neither axis was read,
/// else an array of one object, with a key for each axis that was read.
pub fn encode_gps(gps: &Gps) -> (r: String)
    ensures
        r@ == gps_json(gps@),
{
    let mut items: Vec<String> = Vec::new();
    assert(texts(items@) =~= Seq::empty());
    if gps.latitude.is_some() || gps.longitude.is_some() {
        let mut members: Vec<String> = Vec::new();
        assert(texts(members@) =~= Seq::empty());
        push_text_member(&mut members, "\"latitude\":", &gps.latitude);
        push_text_member(&mut members, "\"longitude\":", &gps.longitude);
        assert(texts(members@) =~= gps_members(gps@));
        items.push(write_object(&members));
        assert(texts(items@) =~= seq![object(gps_members(gps@))]);
    }
    write_array(&items)
}

/// Encodes the subject area: one flat object with `x` and `y` and, with
/// them, either nothing, `diameter`, or `width` and `height`; the empty
/// object where no region was read.
pub fn encode_subject_area(area: &Option<SubjectArea>) -> (r: String)
    ensures
        r@ == subject_area_json(*area),
{
    let mut members: Vec<String> = Vec::new();
    assert(texts(members@) =~= Seq::empty());
    if let Some(region) = area {
        push_number_member(&mut members, "\"x\":", region.x);
        push_number_member(&mut members, "\"y\":", region.y);
        match region.shape {
            RegionShape::Point => {},
            RegionShape::Circle { diameter } => {
                push_number_member(&mut members, "\"diameter\":", diameter);
            },
            RegionShape::Rectangle { width, height } => {
                push_number_member(&mut members, "\"width\":", width);
                push_number_member(&mut members, "\"height\":", height);
            },
        }
        assert(texts(members@) =~= subject_area_members(*region));
    }
    write_object(&members)
}

/// Encodes one thumbnail.
pub fn encode_thumbnail(thumbnail: &Thumbnail) -> (r: String)
    ensures
        r@ == thumbnail_json(thumbnail@),
{
    let mut members: Vec<String> = Vec::new();
    assert(texts(members@) =~= Seq::empty());
    push_quoted_member(&mut members, "\"format\":", &thumbnail.format);
    push_quoted_member(&mut members, "\"width\":", &thumbnail.width);
    push_quoted_member(&mut members, "\"height\":", &thumbnail.height);
    push_quoted_member(&mut members, "\"image\":", &thumbnail.image);
    assert(texts(members@) =~= seq![
        "\"format\":"@ + json_string(thumbnail@.format),
        "\"width\":"@ + json_string(thumbnail@.width),
        "\"height\":"@ + json_string(thumbnail@.height),
        "\"image\":"@ + json_string(thumbnail@.image),
    ]);
    write_object(&members)
}

/// Encodes the thumbnails: an array of one object each, in order.
pub fn encode_thumbnails(thumbnails: &Vec<Thumbnail>) -> (r: String)
    ensures
        r@ == thumbnails_json(crate::record::thumbnail_views(thumbnails@)),
{
    let mut items: Vec<String> = Vec::new();
    let mut i: usize = 0;
    while i < thumbnails.len()
        invariant
            i <= thumbnails.len(),
            items@.len() == i,
            forall|j: int| 0 <= j < i ==> (#[trigger] items@[j])@ == thumbnail_json(thumbnails@[j]@),
        decreases thumbnails.len() - i,
    {
        items.push(encode_thumbnail(&thumbnails[i]));
        i = i + 1;
    }
    let ghost views = crate::record::thumbnail_views(thumbnails@);
    assert(texts(items@) =~= Seq::new(views.len(), |i: int| thumbnail_json(views[i])));
    write_array(&items)
}

/// Encodes the canonical record: the scalar fields are carried over, the
/// multi-valued fields are written as JSON text.
pub fn encode(rec: Record) -> (m: Metadata)
    ensures
        m@ == encoded(rec@),
{
    let resolution = encode_resolution(&rec.resolution);
    let gps = encode_gps(&rec.gps);
    let subject_area = encode_subject_area(&rec.subject_area);
    let thumbnails = encode_thumbnails(&rec.thumbnails);
    Metadata {
        title: rec.title,
        author: rec.author,
        width: rec.width,
        height: rec.height,
        resolution,
        make: rec.make,
        model: rec.model,
        flash_found: rec.flash_found,
        copyright: rec.copyright,
        description: rec.description,
        gps,
        xmp: rec.xmp,
        iptc: rec.iptc,
        subject_area,
        thumbnails,
        original_document_id: rec.original_document_id,
    }
}

} // verus!
