//! The tag directory of an image container: the fields as plain values,
//! and the reading of them out of the container's bytes.

use vstd::prelude::*;

use crate::record::RegionShape;
use crate::record::SubjectArea;

verus! {

/// The directory that a tag number belongs to. The same number means
/// different things in different directories.
#[derive(Clone, Copy, Debug, PartialEq, Eq)]
pub enum TagGroup {
    /// The top-level (TIFF) directory.
    Tiff,
    /// The Exif directory.
    Exif,
    /// The GPS directory.
    Gps,
    /// The interoperability directory.
    Interop,
    /// A directory that this crate does not know.
    Other,
}

/// The typed value of a field, as far as this crate reads it.
#[derive(Debug, PartialEq, Eq)]
pub enum TagValue {
    /// 8-bit unsigned integers.
    Byte(Vec<u8>),
    /// Text: one or more strings of 7-bit ASCII, without their terminators.
    Ascii(Vec<Vec<u8>>),
    /// 16-bit unsigned integers.
    Short(Vec<u16>),
    /// 32-bit unsigned integers.
    Long(Vec<u32>),
    /// Bytes of no declared type.
    Undefined(Vec<u8>),
    /// Any other type: rationals, signed integers, floating point.
    Other,
}

/// The mathematical view of a [`TagValue`]: its elements as sequences.
pub enum TagValueView {
    Byte(Seq<u8>),
    Ascii(Seq<Seq<u8>>),
    Short(Seq<u16>),
    Long(Seq<u32>),
    Undefined(Seq<u8>),
    Other,
}

/// One field of a tag directory.
#[derive(Debug, PartialEq, Eq)]
pub struct RawTagField {
    /// The directory the field stands in.
    pub group: TagGroup,
    /// The tag number.
    pub number: u16,
    /// The typed value.
    pub value: TagValue,
    /// The value formatted for display, with its unit where it has one.
    pub display: String,
}

/// The mathematical view of a [`RawTagField`].
pub struct RawTagFieldView {
    pub group: TagGroup,
    pub number: u16,
    pub value: TagValueView,
    pub display: Seq<char>,
}

impl View for TagValue {
    type V = TagValueView;

    open spec fn view(&self) -> TagValueView {
        match *self {
            TagValue::Byte(v) => TagValueView::Byte(v@),
            TagValue::Ascii(v) => TagValueView::Ascii(Seq::new(v@.len(), |i: int| v@[i]@)),
            TagValue::Short(v) => TagValueView::Short(v@),
            TagValue::Long(v) => TagValueView::Long(v@),
            TagValue::Undefined(v) => TagValueView::Undefined(v@),
            TagValue::Other => TagValueView::Other,
        }
    }
}

impl View for RawTagField {
    type V = RawTagFieldView;

    open spec fn view(&self) -> RawTagFieldView {
        RawTagFieldView {
            group: self.group,
            number: self.number,
            value: self.value@,
            display: self.display@,
        }
    }
}

/// The views of a list of fields, in order.
pub open spec fn field_views(fields: Seq<RawTagField>) -> Seq<RawTagFieldView> {
    Seq::new(fields.len(), |i: int| fields[i]@)
}

impl TagValueView {
    /// The unsigned integer at `index`, for the three unsigned integer
    /// types; `None` for another type or an index past the end.
    pub open spec fn uint_at(self, index: int) -> Option<u32> {
        match self {
            TagValueView::Byte(v) => if 0 <= index < v.len() {
                Some(v[index] as u32)
            } else {
                None
            },
            TagValueView::Short(v) => if 0 <= index < v.len() {
                Some(v[index] as u32)
            } else {
                None
            },
            TagValueView::Long(v) => if 0 <= index < v.len() {
                Some(v[index])
            } else {
                None
            },
            _ => None,
        }
    }

    /// The subject region that the value describes: the first two numbers
    /// are the centre; with a fourth number, the third and fourth are width
    /// and height; with a third alone, it is a diameter. `None` when there
    /// are fewer than two numbers.
    pub open spec fn subject_area(self) -> Option<SubjectArea> {
        match (self.uint_at(0), self.uint_at(1)) {
            (Some(x), Some(y)) => Some(
                SubjectArea {
                    x,
                    y,
                    shape: match self.uint_at(2) {
                        Some(third) => match self.uint_at(3) {
                            Some(fourth) => RegionShape::Rectangle { width: third, height: fourth },
                            None => RegionShape::Circle { diameter: third },
                        },
                        None => RegionShape::Point,
                    },
                },
            ),
            _ => None,
        }
    }
}

impl TagValue {
    /// The unsigned integer at `index`, if the value is of an unsigned
    /// integer type and has that many elements.
    pub fn get_uint(&self, index: usize) -> (r: Option<u32>)
        ensures
            r == self@.uint_at(index as int),
    {
        match self {
            TagValue::Byte(v) => if index < v.len() {
                Some(v[index] as u32)
            } else {
                None
            },
            TagValue::Short(v) => if index < v.len() {
                Some(v[index] as u32)
            } else {
                None
            },
            TagValue::Long(v) => if index < v.len() {
                Some(v[index])
            } else {
                None
            },
            _ => None,
        }
    }

    /// Decodes a subject area or subject location value.
    pub fn decode_subject_area(&self) -> (r: Option<SubjectArea>)
        ensures
            r == self@.subject_area(),
    {
        let x: u32 = match self.get_uint(0) {
            Some(x) => x,
            None => return None,
        };
        let y: u32 = match self.get_uint(1) {
            Some(y) => y,
            None => return None,
        };
        let shape = match self.get_uint(2) {
            Some(third) => match self.get_uint(3) {
                Some(fourth) => RegionShape::Rectangle { width: third, height: fourth },
                None => RegionShape::Circle { diameter: third },
            },
            None => RegionShape::Point,
        };
        Some(SubjectArea { x, y, shape })
    }
}

/// Declares `exif::Field`, one field as the `exif` crate holds it, as a
/// type of which the verifier knows nothing but the name.
#[verifier::external_type_specification]
#[verifier::external_body]
pub struct ExField(exif::Field);

/// The fields that the `exif` crate finds in the container `data`, in the
/// order in which it lists them; `None` where it reports an error.
pub uninterp spec fn tag_directory(data: Seq<u8>) -> Option<Seq<RawTagFieldView>>;

/// The view of what reading a directory gave.
pub open spec fn directory_view(d: Option<Vec<RawTagField>>) -> Option<Seq<RawTagFieldView>> {
    match d {
        Some(fields) => Some(field_views(fields@)),
        None => None,
    }
}

/// Tells the variants of `exif::Context`, the directory of a field's tag,
/// apart. Trusted; nothing is claimed of the result.
#[verifier::external_body]
fn field_group(field: &exif::Field) -> TagGroup {
    match field.tag.context() {
        exif::Context::Tiff => TagGroup::Tiff,
        exif::Context::Exif => TagGroup::Exif,
        exif::Context::Gps => TagGroup::Gps,
        exif::Context::Interop => TagGroup::Interop,
        _ => TagGroup::Other,
    }
}

/// Tells the variants of `exif::Value`, the value of a field, apart and
/// copies out the elements of those that this crate reads. Trusted; nothing
/// is claimed of the result.
#[verifier::external_body]
fn field_value(field: &exif::Field) -> TagValue {
    match &field.value {
        exif::Value::Byte(v) => TagValue::Byte(v.clone()),
        exif::Value::Ascii(v) => TagValue::Ascii(v.clone()),
        exif::Value::Short(v) => TagValue::Short(v.clone()),
        exif::Value::Long(v) => TagValue::Long(v.clone()),
        exif::Value::Undefined(v, _) => TagValue::Undefined(v.clone()),
        _ => TagValue::Other,
    }
}

/// Wraps `exif::Reader::read_from_container` on the bytes of a file and,
/// for each field of `exif::Exif::fields`, copies out `Tag::number`, the
/// directory and the value, and the text of `Field::display_value` with
/// `DisplayValue::with_unit`.
///
/// Trusted: what comes back depends on the bytes alone. Nothing is claimed
/// of which fields a container holds.
#[verifier::external_body]
pub(crate) fn read_tag_directory(data: &Vec<u8>) -> (r: Option<Vec<RawTagField>>)
    ensures
        directory_view(r) == tag_directory(data@),
{
    let parsed = match exif::Reader::new().read_from_container(&mut std::io::Cursor::new(data)) {
        Ok(parsed) => parsed,
        Err(_) => return None,
    };
    Some(parsed.fields().map(|f| RawTagField {
        group: field_group(f),
        number: f.tag.number(),
        value: field_value(f),
        display: f.display_value().with_unit(&parsed).to_string(),
    }).collect())
}

} // verus!
