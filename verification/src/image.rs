//! The reader for image containers: from the fields of the tag directory to
//! the canonical record.

use vstd::prelude::*;
use vstd::utf8::*;

use crate::record::GpsView;
use crate::record::Record;
use crate::record::RecordView;
use crate::record::ResolutionView;
use crate::tags::field_views;
use crate::tags::RawTagField;
use crate::tags::RawTagFieldView;
use crate::tags::TagGroup;
use crate::tags::TagValue;
use crate::tags::TagValueView;
use crate::text::copy_text;
use crate::text::decode_text;
use crate::text::utf8_text;

verus! {

/// Tag number under which an image carries its XMP packet.
pub const XMP_TAG: u16 = 700;

/// Tag number under which an image carries its IPTC block.
pub const IPTC_TAG: u16 = 33723;

/// Image width, in the top-level directory.
pub const IMAGE_WIDTH: u16 = 0x100;

/// Image height, in the top-level directory.
pub const IMAGE_LENGTH: u16 = 0x101;

/// Image description, in the top-level directory.
pub const IMAGE_DESCRIPTION: u16 = 0x10e;

/// Maker of the camera, in the top-level directory.
pub const MAKE: u16 = 0x10f;

/// Model of the camera, in the top-level directory.
pub const MODEL: u16 = 0x110;

/// Resolution along the width, in the top-level directory.
pub const X_RESOLUTION: u16 = 0x11a;

/// Resolution along the height, in the top-level directory.
pub const Y_RESOLUTION: u16 = 0x11b;

/// Copyright holder, in the top-level directory.
pub const COPYRIGHT: u16 = 0x8298;

/// Flash status, in the Exif directory.
pub const FLASH: u16 = 0x9209;

/// Subject area, in the Exif directory.
pub const SUBJECT_AREA: u16 = 0x9214;

/// Valid image width, in the Exif directory.
pub const PIXEL_X_DIMENSION: u16 = 0xa002;

/// Valid image height, in the Exif directory.
pub const PIXEL_Y_DIMENSION: u16 = 0xa003;

/// Subject location, in the Exif directory.
pub const SUBJECT_LOCATION: u16 = 0xa214;

/// Latitude, in the GPS directory.
pub const GPS_LATITUDE: u16 = 0x2;

/// Longitude, in the GPS directory.
pub const GPS_LONGITUDE: u16 = 0x4;

/// What a field of the tag directory sets in the record.
#[derive(Clone, Copy, Debug, PartialEq, Eq)]
pub enum FieldTarget {
    /// The raw XMP packet.
    Xmp,
    /// The raw IPTC block.
    Iptc,
    /// The copyright notice.
    Copyright,
    /// The description.
    Description,
    /// The maker of the camera.
    Make,
    /// The model of the camera.
    Model,
    /// The flash status.
    Flash,
    /// The width.
    Width,
    /// The height.
    Height,
    /// The `x` axis of the resolution.
    XResolution,
    /// The `y` axis of the resolution.
    YResolution,
    /// The latitude of the GPS position.
    GpsLatitude,
    /// The longitude of the GPS position.
    GpsLongitude,
    /// The subject area.
    SubjectArea,
    /// The tag is not one that the record has a place for.
    Ignored,
}

/// The place in the record for the tag `number` of directory `group`. The
/// two reserved numbers are recognized in any directory, ahead of the rest.
pub open spec fn target_of(group: TagGroup, number: u16) -> FieldTarget {
    if number == XMP_TAG {
        FieldTarget::Xmp
    } else if number == IPTC_TAG {
        FieldTarget::Iptc
    } else {
        match group {
            TagGroup::Tiff => if number == COPYRIGHT {
                FieldTarget::Copyright
            } else if number == IMAGE_DESCRIPTION {
                FieldTarget::Description
            } else if number == MAKE {
                FieldTarget::Make
            } else if number == MODEL {
                FieldTarget::Model
            } else if number == IMAGE_WIDTH {
                FieldTarget::Width
            } else if number == IMAGE_LENGTH {
                FieldTarget::Height
            } else if number == X_RESOLUTION {
                FieldTarget::XResolution
            } else if number == Y_RESOLUTION {
                FieldTarget::YResolution
            } else {
                FieldTarget::Ignored
            },
            TagGroup::Exif => if number == FLASH {
                FieldTarget::Flash
            } else if number == PIXEL_X_DIMENSION {
                FieldTarget::Width
            } else if number == PIXEL_Y_DIMENSION {
                FieldTarget::Height
            } else if number == SUBJECT_AREA || number == SUBJECT_LOCATION {
                FieldTarget::SubjectArea
            } else {
                FieldTarget::Ignored
            },
            TagGroup::Gps => if number == GPS_LATITUDE {
                FieldTarget::GpsLatitude
            } else if number == GPS_LONGITUDE {
                FieldTarget::GpsLongitude
            } else {
                FieldTarget::Ignored
            },
            _ => FieldTarget::Ignored,
        }
    }
}

/// Finds the place in the record for a tag.
pub fn classify_tag(group: TagGroup, number: u16) -> (t: FieldTarget)
    ensures
        t == target_of(group, number),
{
    if number == XMP_TAG {
        FieldTarget::Xmp
    } else if number == IPTC_TAG {
        FieldTarget::Iptc
    } else {
        match group {
            TagGroup::Tiff => if number == COPYRIGHT {
                FieldTarget::Copyright
            } else if number == IMAGE_DESCRIPTION {
                FieldTarget::Description
            } else if number == MAKE {
                FieldTarget::Make
            } else if number == MODEL {
                FieldTarget::Model
            } else if number == IMAGE_WIDTH {
                FieldTarget::Width
            } else if number == IMAGE_LENGTH {
                FieldTarget::Height
            } else if number == X_RESOLUTION {
                FieldTarget::XResolution
            } else if number == Y_RESOLUTION {
                FieldTarget::YResolution
            } else {
                FieldTarget::Ignored
            },
            TagGroup::Exif => if number == FLASH {
                FieldTarget::Flash
            } else if number == PIXEL_X_DIMENSION {
                FieldTarget::Width
            } else if number == PIXEL_Y_DIMENSION {
                FieldTarget::Height
            } else if number == SUBJECT_AREA || number == SUBJECT_LOCATION {
                FieldTarget::SubjectArea
            } else {
                FieldTarget::Ignored
            },
            TagGroup::Gps => if number == GPS_LATITUDE {
                FieldTarget::GpsLatitude
            } else if number == GPS_LONGITUDE {
                FieldTarget::GpsLongitude
            } else {
                FieldTarget::Ignored
            },
            _ => FieldTarget::Ignored,
        }
    }
}

/// The text that the field carries as its XMP packet: its bytes read as
/// UTF-8, for a value of byte type that is valid UTF-8.
pub open spec fn packet_text(field: RawTagFieldView) -> Option<Seq<char>> {
    match field.value {
        TagValueView::Byte(bytes) => utf8_text(bytes),
        _ => None,
    }
}

/// The text that the field carries as its IPTC block: its bytes read as
/// UTF-8, for a value of undefined type that is valid UTF-8.
pub open spec fn block_text(field: RawTagFieldView) -> Option<Seq<char>> {
    match field.value {
        TagValueView::Undefined(bytes) => utf8_text(bytes),
        _ => None,
    }
}

/// The record after one field is read into it. A field that cannot be
/// used (an unknown tag, a value of the wrong type, bytes that are not
/// UTF-8, a subject area of fewer than two numbers) leaves the record as it
/// is.
pub open spec fn with_field(rec: RecordView, field: RawTagFieldView) -> RecordView {
    match target_of(field.group, field.number) {
        FieldTarget::Xmp => match packet_text(field) {
            Some(text) => RecordView { xmp: text, ..rec },
            None => rec,
        },
        FieldTarget::Iptc => match block_text(field) {
            Some(text) => RecordView { iptc: text, ..rec },
            None => rec,
        },
        FieldTarget::Copyright => RecordView { copyright: field.display, ..rec },
        FieldTarget::Description => RecordView { description: field.display, ..rec },
        FieldTarget::Make => RecordView { make: field.display, ..rec },
        FieldTarget::Model => RecordView { model: field.display, ..rec },
        FieldTarget::Flash => RecordView { flash_found: field.display, ..rec },
        FieldTarget::Width => RecordView { width: field.display, ..rec },
        FieldTarget::Height => RecordView { height: field.display, ..rec },
        FieldTarget::XResolution => RecordView {
            resolution: ResolutionView { x: Some(field.display), ..rec.resolution },
            ..rec
        },
        FieldTarget::YResolution => RecordView {
            resolution: ResolutionView { y: Some(field.display), ..rec.resolution },
            ..rec
        },
        FieldTarget::GpsLatitude => RecordView {
            gps: GpsView { latitude: Some(field.display), ..rec.gps },
            ..rec
        },
        FieldTarget::GpsLongitude => RecordView {
            gps: GpsView { longitude: Some(field.display), ..rec.gps },
            ..rec
        },
        FieldTarget::SubjectArea => match field.value.subject_area() {
            Some(area) => RecordView { subject_area: Some(area), ..rec },
            None => rec,
        },
        FieldTarget::Ignored => rec,
    }
}

/// The record after the first `n` of `fields` are read into `rec`, in
/// order.
pub open spec fn with_fields(rec: RecordView, fields: Seq<RawTagFieldView>, n: nat) -> RecordView
    decreases n,
{
    if n == 0 {
        rec
    } else {
        with_field(with_fields(rec, fields, (n - 1) as nat), fields[n - 1])
    }
}

/// The record that a tag directory gives: all its fields read, in order,
/// into the empty record.
pub open spec fn image_record(fields: Seq<RawTagFieldView>) -> RecordView {
    with_fields(RecordView::empty(), fields, fields.len())
}

/// Only a field with the reserved XMP tag number changes the raw XMP text.
pub proof fn lemma_other_tags_keep_xmp(rec: RecordView, field: RawTagFieldView)
    requires
        field.number != XMP_TAG || packet_text(field) is None,
    ensures
        with_field(rec, field).xmp == rec.xmp,
{
}

/// A field with tag number 700 whose value is of byte type and valid UTF-8
/// becomes the raw XMP text, exactly: the text's UTF-8 encoding is the
/// field's bytes. This holds of the last such field of the directory.
pub proof fn lemma_packet_tag_becomes_xmp(fields: Seq<RawTagFieldView>, i: int, packet: Seq<u8>)
    requires
        0 <= i < fields.len(),
        fields[i].number == XMP_TAG,
        fields[i].value == TagValueView::Byte(packet),
        valid_utf8(packet),
        forall|j: int|
            i < j < fields.len() ==> (#[trigger] fields[j]).number != XMP_TAG || packet_text(
                fields[j],
            ) is None,
    ensures
        image_record(fields).xmp == decode_utf8(packet),
        encode_utf8(image_record(fields).xmp) == packet,
{
    lemma_xmp_after(fields, i, fields.len());
    decode_utf8_encode_utf8(packet);
}

proof fn lemma_xmp_after(fields: Seq<RawTagFieldView>, i: int, n: nat)
    requires
        0 <= i < n <= fields.len(),
        fields[i].number == XMP_TAG,
        packet_text(fields[i]) is Some,
        forall|j: int|
            i < j < fields.len() ==> (#[trigger] fields[j]).number != XMP_TAG || packet_text(
                fields[j],
            ) is None,
    ensures
        with_fields(RecordView::empty(), fields, n).xmp == packet_text(fields[i])->0,
    decreases n,
{
    if n > i + 1 {
        lemma_xmp_after(fields, i, (n - 1) as nat);
        lemma_other_tags_keep_xmp(
            with_fields(RecordView::empty(), fields, (n - 1) as nat),
            fields[n - 1],
        );
    }
}

/// Reads one field into the record.
pub fn apply_field(rec: &mut Record, field: &RawTagField)
    ensures
        final(rec)@ == with_field(old(rec)@, field@),
{
    match classify_tag(field.group, field.number) {
        FieldTarget::Xmp => {
            if let TagValue::Byte(bytes) = &field.value {
                if let Some(text) = decode_text(bytes) {
                    rec.xmp = text;
                }
            }
        },
        FieldTarget::Iptc => {
            if let TagValue::Undefined(bytes) = &field.value {
                if let Some(text) = decode_text(bytes) {
                    rec.iptc = text;
                }
            }
        },
        FieldTarget::Copyright => {
            rec.copyright = copy_text(&field.display);
        },
        FieldTarget::Description => {
            rec.description = copy_text(&field.display);
        },
        FieldTarget::Make => {
            rec.make = copy_text(&field.display);
        },
        FieldTarget::Model => {
            rec.model = copy_text(&field.display);
        },
        FieldTarget::Flash => {
            rec.flash_found = copy_text(&field.display);
        },
        FieldTarget::Width => {
            rec.width = copy_text(&field.display);
        },
        FieldTarget::Height => {
            rec.height = copy_text(&field.display);
        },
        FieldTarget::XResolution => {
            rec.resolution.x = Some(copy_text(&field.display));
        },
        FieldTarget::YResolution => {
            rec.resolution.y = Some(copy_text(&field.display));
        },
        FieldTarget::GpsLatitude => {
            rec.gps.latitude = Some(copy_text(&field.display));
        },
        FieldTarget::GpsLongitude => {
            rec.gps.longitude = Some(copy_text(&field.display));
        },
        FieldTarget::SubjectArea => {
            if let Some(area) = field.value.decode_subject_area() {
                rec.subject_area = Some(area);
            }
        },
        FieldTarget::Ignored => {},
    }
}

/// Reads a tag directory into a record, field by field in the order given;
/// where two fields set the same place, the later one stays.
pub fn read_image_fields(fields: &Vec<RawTagField>) -> (rec: Record)
    ensures
        rec@ == image_record(field_views(fields@)),
{
    let mut rec = Record::new();
    let mut i: usize = 0;
    while i < fields.len()
        invariant
            i <= fields.len(),
            rec@ == with_fields(RecordView::empty(), field_views(fields@), i as nat),
        decreases fields.len() - i,
    {
        apply_field(&mut rec, &fields[i]);
        i = i + 1;
    }
    rec
}

} // verus!
