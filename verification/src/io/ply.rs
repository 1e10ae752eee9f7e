//! Decoding of the point-cloud exchange format.
//!
//! A vertex record is a list of named properties. A property whose name is
//! known and whose value is a scalar of the format's `float` type is stored in
//! the splat; every other property is passed over. Scale and opacity are
//! stored as the file gives them, a log-scale and a logit: turning them into
//! a scale and an opacity is arithmetic on the numbers, which the caller does.

use vstd::prelude::*;
use ply_rs::parser::Parser;
use ply_rs::ply::{DefaultElement, Property};
use crate::gaussian::packed::{Gaussian, Splat, ONE_BITS};
use crate::io::header::{header_fits, header_numbers_fit};
use crate::material::spherical_harmonics::{interleaved, SH_CHANNELS, SH_COEFF_COUNT};

verus! {

/// The bytes of an ASCII name.
pub open spec fn ascii(name: Seq<char>) -> Seq<u8> {
    Seq::new(name.len(), |i: int| name[i] as u8)
}

/// Whether `key` spells the ASCII name `name`.
pub fn key_is(key: &[u8], name: &str) -> (same: bool)
    requires
        name.is_ascii(),
    ensures
        same <==> key@ == ascii(name@),
{
    broadcast use vstd::string::is_ascii_spec_bytes;
    broadcast use vstd::utf8::is_ascii_chars_encode_utf8;

    let name_bytes = name.as_bytes();
    if key.len() != name_bytes.len() {
        return false;
    }
    let mut i: usize = 0;
    while i < key.len()
        invariant
            i <= key@.len(),
            key@.len() == name@.len(),
            name_bytes@.len() == name@.len(),
            forall|j: int| 0 <= j < name@.len() ==> name_bytes@[j] == name@[j] as u8,
            forall|j: int| 0 <= j < i ==> key@[j] == name@[j] as u8,
        decreases key@.len() - i,
    {
        if key[i] != name_bytes[i] {
            return false;
        }
        i = i + 1;
    }
    assert(key@ =~= ascii(name@));
    true
}

/// Whether `key` begins with the ASCII name `name`.
pub fn key_starts_with(key: &[u8], name: &str) -> (starts: bool)
    requires
        name.is_ascii(),
    ensures
        starts <==> ascii(name@).is_prefix_of(key@),
{
    broadcast use vstd::string::is_ascii_spec_bytes;
    broadcast use vstd::utf8::is_ascii_chars_encode_utf8;

    let name_bytes = name.as_bytes();
    if key.len() < name_bytes.len() {
        return false;
    }
    let mut i: usize = 0;
    while i < name_bytes.len()
        invariant
            i <= name@.len(),
            name@.len() <= key@.len(),
            name_bytes@.len() == name@.len(),
            forall|j: int| 0 <= j < name@.len() ==> name_bytes@[j] == name@[j] as u8,
            forall|j: int| 0 <= j < i ==> key@[j] == name@[j] as u8,
        decreases name@.len() - i,
    {
        if key[i] != name_bytes[i] {
            assert(key@.subrange(0, name@.len() as int)[i as int] != ascii(name@)[i as int]);
            return false;
        }
        i = i + 1;
    }
    assert(key@.subrange(0, name@.len() as int) =~= ascii(name@));
    true
}

/// The number that a run of decimal digits writes, most significant digit
/// first.
pub open spec fn decimal_value(digits: Seq<u8>) -> nat
    decreases digits.len(),
{
    if digits.len() == 0 {
        0
    } else {
        10 * decimal_value(digits.drop_last()) + (digits.last() - 0x30) as nat
    }
}

/// Every byte is one of the digits `0` to `9`.
pub open spec fn all_digits(digits: Seq<u8>) -> bool {
    forall|i: int| 0 <= i < digits.len() ==> 0x30 <= #[trigger] digits[i] <= 0x39
}

/// The digits of an index text: the text itself, without a leading `+`.
pub open spec fn index_digits(text: Seq<u8>) -> Seq<u8> {
    if text.len() > 0 && text[0] == 0x2b {
        text.drop_first()
    } else {
        text
    }
}

/// The index that the text after `f_rest_` writes: one or more decimal
/// digits, which a single `+` may precede.
pub open spec fn written_index(text: Seq<u8>) -> Option<nat> {
    let digits = index_digits(text);
    if digits.len() > 0 && all_digits(digits) {
        Some(decimal_value(digits))
    } else {
        None
    }
}

/// A longer run of digits writes a number at least as large as its prefix.
proof fn lemma_decimal_value_grows(digits: Seq<u8>, n: int)
    requires
        0 <= n <= digits.len(),
        all_digits(digits),
    ensures
        decimal_value(digits.subrange(0, n)) <= decimal_value(digits),
    decreases digits.len() - n,
{
    if n < digits.len() {
        lemma_decimal_value_grows(digits, n + 1);
        let longer = digits.subrange(0, n + 1);
        assert(longer.drop_last() =~= digits.subrange(0, n));
    } else {
        assert(digits.subrange(0, n) =~= digits);
    }
}

/// Reads the index written in `text`, if it is below `limit`.
pub fn parse_index_below(text: &[u8], limit: usize) -> (index: Option<usize>)
    ensures
        match index {
            Some(i) => written_index(text@) == Some(i as nat) && i < limit,
            None => match written_index(text@) {
                Some(i) => i >= limit,
                None => true,
            },
        },
{
    let start: usize = if text.len() > 0 && text[0] == 0x2b {
        1
    } else {
        0
    };
    if text.len() == start || limit == 0 {
        return None;
    }
    let ghost digits = index_digits(text@);
    let mut value: usize = 0;
    let mut k: usize = start;
    while k < text.len()
        invariant
            start <= k <= text@.len(),
            0 < limit,
            digits == index_digits(text@),
            digits.len() == text@.len() - start,
            forall|j: int| 0 <= j < digits.len() ==> digits[j] == text@[start + j],
            all_digits(digits.subrange(0, k - start)),
            value == decimal_value(digits.subrange(0, k - start)),
            value < limit,
        decreases text@.len() - k,
    {
        let byte = text[k];
        if byte < 0x30 || byte > 0x39 {
            assert(digits[k - start] == byte);
            return None;
        }
        proof {
            let longer = digits.subrange(0, k - start + 1);
            assert(longer.drop_last() =~= digits.subrange(0, k - start));
            assert(longer.last() == byte);
            assert forall|i: int| 0 <= i < longer.len() implies 0x30 <= #[trigger] longer[i]
                <= 0x39 by {
                if i < k - start {
                    assert(longer[i] == digits.subrange(0, k - start)[i]);
                }
            }
        }
        let ghost written = 10 * value + (byte - 0x30);
        let next = match value.checked_mul(10) {
            Some(tens) => tens.checked_add((byte - 0x30) as usize),
            None => None,
        };
        k = k + 1;
        let within = match next {
            Some(more) => more < limit,
            None => false,
        };
        if within {
            value = next.unwrap();
        } else {
            assert(written >= limit);
            assert(written == decimal_value(digits.subrange(0, k - start)));
            let digits_only = rest_is_digits(text, k);
            proof {
                if digits_only {
                    assert forall|i: int| 0 <= i < digits.len() implies 0x30 <= #[trigger] digits[i]
                        <= 0x39 by {
                        if i < k - start {
                            assert(digits[i] == digits.subrange(0, k - start)[i]);
                        }
                    }
                    lemma_decimal_value_grows(digits, k - start);
                } else {
                    let bad = choose|j: int|
                        k <= j < text@.len() && !(0x30 <= #[trigger] text@[j] <= 0x39);
                    assert(digits[bad - start] == text@[bad]);
                }
            }
            return None;
        }
    }
    proof {
        assert(digits.subrange(0, k - start) =~= digits);
    }
    Some(value)
}

/// Whether every byte of `text` from `from` on is a decimal digit.
fn rest_is_digits(text: &[u8], from: usize) -> (all: bool)
    requires
        from <= text@.len(),
    ensures
        all <==> forall|j: int| from <= j < text@.len() ==> 0x30 <= #[trigger] text@[j] <= 0x39,
{
    let mut r: usize = from;
    while r < text.len()
        invariant
            from <= r <= text@.len(),
            forall|j: int| from <= j < r ==> 0x30 <= #[trigger] text@[j] <= 0x39,
        decreases text@.len() - r,
    {
        if text[r] < 0x30 || text[r] > 0x39 {
            return false;
        }
        r = r + 1;
    }
    true
}

/// What a property of a vertex record sets in a splat.
#[derive(Clone, Copy, Debug, PartialEq, Eq, Structural)]
pub enum Attribute {
    /// A position coordinate, by axis.
    Position(usize),
    /// A colour coefficient of the constant term, by channel.
    ColorBase(usize),
    /// A colour coefficient of a higher term, by its place in the file's
    /// channel-major order.
    ColorRest(usize),
    /// A stored scale, by axis.
    Scale(usize),
    /// The stored opacity.
    Opacity,
    /// A quaternion component.
    Rotation(usize),
}

/// Number of higher-term coefficients of a splat, all channels together.
pub const SH_REST_COUNT: usize = SH_COEFF_COUNT - SH_CHANNELS;

/// The attribute that the property name `key` stands for, if any. The names
/// are `x y z`, `f_dc_0..2`, `f_rest_<index>` with an index below
/// `SH_REST_COUNT`, `scale_0..2`, `opacity` and `rot_0..3`.
pub open spec fn attribute_of(key: Seq<u8>) -> Option<Attribute> {
    if key == ascii("x"@) {
        Some(Attribute::Position(0))
    } else if key == ascii("y"@) {
        Some(Attribute::Position(1))
    } else if key == ascii("z"@) {
        Some(Attribute::Position(2))
    } else if key == ascii("f_dc_0"@) {
        Some(Attribute::ColorBase(0))
    } else if key == ascii("f_dc_1"@) {
        Some(Attribute::ColorBase(1))
    } else if key == ascii("f_dc_2"@) {
        Some(Attribute::ColorBase(2))
    } else if key == ascii("scale_0"@) {
        Some(Attribute::Scale(0))
    } else if key == ascii("scale_1"@) {
        Some(Attribute::Scale(1))
    } else if key == ascii("scale_2"@) {
        Some(Attribute::Scale(2))
    } else if key == ascii("opacity"@) {
        Some(Attribute::Opacity)
    } else if key == ascii("rot_0"@) {
        Some(Attribute::Rotation(0))
    } else if key == ascii("rot_1"@) {
        Some(Attribute::Rotation(1))
    } else if key == ascii("rot_2"@) {
        Some(Attribute::Rotation(2))
    } else if key == ascii("rot_3"@) {
        Some(Attribute::Rotation(3))
    } else if ascii("f_rest_"@).is_prefix_of(key) {
        match written_index(key.subrange(7, key.len() as int)) {
            Some(i) => if i < SH_REST_COUNT {
                Some(Attribute::ColorRest(i as usize))
            } else {
                None
            },
            None => None,
        }
    } else {
        None
    }
}

/// Finds the attribute that a property name stands for.
pub fn classify(key: &[u8]) -> (attribute: Option<Attribute>)
    ensures
        attribute == attribute_of(key@),
{
    proof {
        reveal_strlit("x");
        reveal_strlit("y");
        reveal_strlit("z");
        reveal_strlit("f_dc_0");
        reveal_strlit("f_dc_1");
        reveal_strlit("f_dc_2");
        reveal_strlit("scale_0");
        reveal_strlit("scale_1");
        reveal_strlit("scale_2");
        reveal_strlit("opacity");
        reveal_strlit("rot_0");
        reveal_strlit("rot_1");
        reveal_strlit("rot_2");
        reveal_strlit("rot_3");
        reveal_strlit("f_rest_");
    }
    if key_is(key, "x") {
        Some(Attribute::Position(0))
    } else if key_is(key, "y") {
        Some(Attribute::Position(1))
    } else if key_is(key, "z") {
        Some(Attribute::Position(2))
    } else if key_is(key, "f_dc_0") {
        Some(Attribute::ColorBase(0))
    } else if key_is(key, "f_dc_1") {
        Some(Attribute::ColorBase(1))
    } else if key_is(key, "f_dc_2") {
        Some(Attribute::ColorBase(2))
    } else if key_is(key, "scale_0") {
        Some(Attribute::Scale(0))
    } else if key_is(key, "scale_1") {
        Some(Attribute::Scale(1))
    } else if key_is(key, "scale_2") {
        Some(Attribute::Scale(2))
    } else if key_is(key, "opacity") {
        Some(Attribute::Opacity)
    } else if key_is(key, "rot_0") {
        Some(Attribute::Rotation(0))
    } else if key_is(key, "rot_1") {
        Some(Attribute::Rotation(1))
    } else if key_is(key, "rot_2") {
        Some(Attribute::Rotation(2))
    } else if key_is(key, "rot_3") {
        Some(Attribute::Rotation(3))
    } else if key_starts_with(key, "f_rest_") {
        assert(key@.len() >= 7);
        let text = vstd::slice::slice_subrange(key, 7, key.len());
        match parse_index_below(text, SH_REST_COUNT) {
            Some(i) => Some(Attribute::ColorRest(i)),
            None => None,
        }
    } else {
        None
    }
}

impl Attribute {
    /// The index that the attribute carries lies within its group.
    pub open spec fn in_range(self) -> bool {
        match self {
            Attribute::Position(axis) => axis < 3,
            Attribute::ColorBase(channel) => channel < SH_CHANNELS,
            Attribute::ColorRest(index) => index < SH_REST_COUNT,
            Attribute::Scale(axis) => axis < 3,
            Attribute::Opacity => true,
            Attribute::Rotation(component) => component < 4,
        }
    }
}

impl Splat {
    /// This splat after `value` is stored under `attribute`. A higher-term
    /// colour coefficient goes to the slot behind the three constant terms
    /// that its place in the file gives it; interleaving comes later.
    pub open spec fn with_attribute(self, attribute: Attribute, value: u32) -> Splat {
        match attribute {
            Attribute::Position(axis) => Splat {
                position: self.position.update(axis as int, value),
                ..self
            },
            Attribute::ColorBase(channel) => Splat {
                coefficients: self.coefficients.update(channel as int, value),
                ..self
            },
            Attribute::ColorRest(index) => Splat {
                coefficients: self.coefficients.update(index + SH_CHANNELS, value),
                ..self
            },
            Attribute::Scale(axis) => Splat { scale: self.scale.update(axis as int, value), ..self },
            Attribute::Opacity => Splat { opacity: value, ..self },
            Attribute::Rotation(component) => Splat {
                rotation: self.rotation.update(component as int, value),
                ..self
            },
        }
    }

    /// This splat after the property `key` with `value` is read. Only a
    /// known name with a float value changes it.
    pub open spec fn with_property(self, key: Seq<u8>, value: Option<u32>) -> Splat {
        match (attribute_of(key), value) {
            (Some(attribute), Some(bits)) => self.with_attribute(attribute, bits),
            _ => self,
        }
    }
}

impl Gaussian {
    /// Stores `value` under `attribute`.
    pub fn set_attribute(&mut self, attribute: Attribute, value: u32)
        requires
            attribute.in_range(),
        ensures
            final(self)@ == old(self)@.with_attribute(attribute, value),
    {
        match attribute {
            Attribute::Position(axis) => {
                self.position_visibility.position[axis] = value;
            },
            Attribute::ColorBase(channel) => {
                self.spherical_harmonic.coefficients[channel] = value;
            },
            Attribute::ColorRest(index) => {
                self.spherical_harmonic.coefficients[index + SH_CHANNELS] = value;
            },
            Attribute::Scale(axis) => {
                self.scale_opacity.scale[axis] = value;
            },
            Attribute::Opacity => {
                self.scale_opacity.opacity = value;
            },
            Attribute::Rotation(component) => {
                self.rotation.rotation[component] = value;
            },
        }
    }

    /// Reads one property of a vertex record into the splat. `value` is the
    /// bit pattern of a float property, and `None` for a property of any
    /// other type. Every value is stored as given, scale and opacity too:
    /// the splat then holds a log-scale and a logit, and the caller has yet
    /// to take the exponential of each scale, clamped to five about their
    /// mean, and the logistic function of the opacity.
    pub fn set_property(&mut self, key: &[u8], value: Option<u32>)
        ensures
            final(self)@ == old(self)@.with_property(key@, value),
    {
        match value {
            Some(bits) => {
                match classify(key) {
                    Some(attribute) => {
                        self.set_attribute(attribute, bits);
                    },
                    None => {},
                }
            },
            None => {},
        }
    }
}

/// A vertex record as read: its properties in file order, each a name and,
/// for a float property, the bit pattern of its value.
pub open spec fn record_view(record: Seq<(Vec<u8>, Option<u32>)>) -> Seq<(Seq<u8>, Option<u32>)> {
    Seq::new(record.len(), |i: int| (record[i].0@, record[i].1))
}

/// The records of an element, each by its view.
pub open spec fn records_view(records: Seq<Vec<(Vec<u8>, Option<u32>)>>) -> Seq<
    Seq<(Seq<u8>, Option<u32>)>,
> {
    Seq::new(records.len(), |i: int| record_view(records[i]@))
}

/// Element names, each by its bytes.
pub open spec fn names_view(names: Seq<Vec<u8>>) -> Seq<Seq<u8>> {
    Seq::new(names.len(), |i: int| names[i]@)
}

impl Splat {
    /// The splat after the first `count` properties of `record` are read
    /// into the all-zero splat, one after the other.
    pub open spec fn read(record: Seq<(Seq<u8>, Option<u32>)>, count: nat) -> Splat
        decreases count,
    {
        if count == 0 {
            Splat::zero()
        } else {
            Splat::read(record, (count - 1) as nat).with_property(
                record[count - 1].0,
                record[count - 1].1,
            )
        }
    }

    /// What remains to do once all properties are read: the visibility flag
    /// is one, and the colour coefficients are interleaved.
    pub open spec fn finished(self) -> Splat {
        Splat { visibility: ONE_BITS, coefficients: interleaved(self.coefficients), ..self }
    }

    /// The splat that a vertex record decodes to.
    pub open spec fn decoded(record: Seq<(Seq<u8>, Option<u32>)>) -> Splat {
        Splat::read(record, record.len()).finished()
    }
}

/// Decodes one vertex record: reads its properties into a blank splat, sets
/// the visibility flag to one and interleaves the colour coefficients. Scale
/// and opacity stay as the record gives them, a log-scale and a logit, for
/// the caller to turn into a scale and an opacity.
pub fn decode_vertex(record: &Vec<(Vec<u8>, Option<u32>)>) -> (gaussian: Gaussian)
    ensures
        gaussian@ == Splat::decoded(record_view(record@)),
{
    let mut gaussian = Gaussian::default();
    let mut k: usize = 0;
    while k < record.len()
        invariant
            k <= record@.len(),
            gaussian@ == Splat::read(record_view(record@), k as nat),
        decreases record@.len() - k,
    {
        gaussian.set_property(record[k].0.as_slice(), record[k].1);
        k = k + 1;
    }
    gaussian.position_visibility.visibility = ONE_BITS;
    gaussian.spherical_harmonic = gaussian.spherical_harmonic.interleave();
    gaussian
}

/// Decodes the vertex records of a file, in order, each as `decode_vertex`
/// does: scale and opacity stay as the records give them.
pub fn decode_vertices(records: &Vec<Vec<(Vec<u8>, Option<u32>)>>) -> (gaussians: Vec<Gaussian>)
    ensures
        gaussians@.len() == records@.len(),
        forall|i: int|
            0 <= i < records@.len() ==> (#[trigger] gaussians@[i])@ == Splat::decoded(
                records_view(records@)[i],
            ),
{
    let mut gaussians: Vec<Gaussian> = Vec::with_capacity(records.len());
    let mut i: usize = 0;
    while i < records.len()
        invariant
            i <= records@.len(),
            gaussians@.len() == i,
            forall|j: int|
                0 <= j < i ==> (#[trigger] gaussians@[j])@ == Splat::decoded(
                    records_view(records@)[j],
                ),
        decreases records@.len() - i,
    {
        gaussians.push(decode_vertex(&records[i]));
        i = i + 1;
    }
    gaussians
}

/// Whether some property of `record` stores a value under `attribute`.
pub open spec fn record_sets(record: Seq<(Seq<u8>, Option<u32>)>, attribute: Attribute) -> bool {
    exists|i: int|
        0 <= i < record.len() && (#[trigger] record[i]).1 is Some && attribute_of(record[i].0)
            == Some(attribute)
}

/// Tells whether a vertex record stores a value under `attribute`: an
/// attribute that no property sets is left all-zero by decoding, which the
/// splat alone does not show.
pub fn sets_attribute(record: &Vec<(Vec<u8>, Option<u32>)>, attribute: Attribute) -> (sets: bool)
    ensures
        sets == record_sets(record_view(record@), attribute),
{
    let mut k: usize = 0;
    while k < record.len()
        invariant
            k <= record@.len(),
            forall|i: int|
                0 <= i < k ==> !((#[trigger] record_view(record@)[i]).1 is Some && attribute_of(
                    record_view(record@)[i].0,
                ) == Some(attribute)),
        decreases record@.len() - k,
    {
        if record[k].1.is_some() {
            match classify(record[k].0.as_slice()) {
                Some(found) => {
                    if found == attribute {
                        assert(record_view(record@)[k as int].1 is Some);
                        return true;
                    }
                },
                None => {},
            }
        }
        k = k + 1;
    }
    false
}

/// Why a file could not be decoded.
#[derive(Clone, Copy, Debug, PartialEq, Eq)]
pub enum PlyError {
    /// The header is malformed.
    MalformedHeader,
    /// The header declares no element named `vertex`.
    MissingVertexElement,
    /// The payload does not hold the vertex records that the header
    /// declares.
    MalformedPayload,
}

/// What `ply_rs` reads as the header of the file `bytes`: the names of the
/// declared elements, in the order in which the parsed header holds them; how
/// many records each of them declares, in the same order; and the place in
/// `bytes` where the header ends. `None` where the header is malformed.
pub uninterp spec fn ply_header(bytes: Seq<u8>) -> Option<(Seq<Seq<u8>>, Seq<usize>, nat)>;

/// What `ply_rs` reads from the place `offset` of the file `bytes` as the
/// payload of the element at `index` of its header: the records, and the
/// place where the payload of the element ends; `None` where header or
/// payload is malformed.
pub uninterp spec fn ply_element_records(bytes: Seq<u8>, index: nat, offset: nat) -> Option<
    (Seq<Seq<(Seq<u8>, Option<u32>)>>, nat),
>;

/// Calls `ply_rs::parser::Parser::read_header` on the bytes of a file and
/// hands out, of each declared element, the name and the number of records,
/// and the place where the reader stands afterwards. The parser unwinds on a
/// number in a header line that no unsigned number of 64 bits holds, so such
/// bytes are left out. The contract gives the outcome its name, `ply_header`,
/// and adds only that there is a number of records for each name.
#[verifier::external_body]
fn read_header_elements(bytes: &[u8]) -> (r: Result<
    (Vec<Vec<u8>>, Vec<usize>, usize),
    std::io::Error,
>)
    requires
        header_fits(bytes@),
    ensures
        match r {
            Ok(header) => {
                &&& ply_header(bytes@) == Some(
                    (names_view(header.0@), header.1@, header.2 as nat),
                )
                &&& header.1@.len() == header.0@.len()
            },
            Err(_) => ply_header(bytes@) is None,
        },
{
    let mut cursor = std::io::Cursor::new(bytes);
    let header = Parser::<DefaultElement>::new().read_header(&mut cursor)?;
    let names = header.elements.iter().map(|(_, element)| element.name.clone().into_bytes());
    let counts = header.elements.iter().map(|(_, element)| element.count);
    Ok((names.collect(), counts.collect(), cursor.position() as usize))
}

/// Whether the element at `index` of the header can be in the file in full:
/// it declares no more records than the file has bytes. A record of an
/// element with properties takes a byte at least; an element without
/// properties that declares more records than that is not read either.
pub open spec fn element_fits(bytes: Seq<u8>, index: nat) -> bool {
    ply_header(bytes) matches Some(header) && index < header.0.len() && index < header.1.len()
        && header.1[index as int] <= bytes.len()
}

/// Calls `ply_rs::parser::Parser::read_payload_for_element` for the element
/// at `index` of the header, with the reader at the place `offset`, and hands
/// out each record as its properties in file order, the name and, where the
/// property is a scalar float, the bit pattern of the value; and with them
/// the place where the reader stands afterwards. The header is read once more
/// to get at the declaration of the element, so bytes on whose header the
/// parser unwinds are left out here too; so is an element that declares more
/// records than the file has bytes, since the parser goes on for as many
/// records as are declared even where it reads nothing for them. The
/// contract gives the outcome its name, `ply_element_records`.
#[verifier::external_body]
fn read_element_records(bytes: &[u8], index: usize, offset: usize) -> (r: Result<
    (Vec<Vec<(Vec<u8>, Option<u32>)>>, usize),
    std::io::Error,
>)
    requires
        header_fits(bytes@),
        element_fits(bytes@, index as nat),
    ensures
        match r {
            Ok(read) => ply_element_records(bytes@, index as nat, offset as nat) == Some(
                (records_view(read.0@), read.1 as nat),
            ),
            Err(_) => ply_element_records(bytes@, index as nat, offset as nat) is None,
        },
{
    let mut cursor = std::io::Cursor::new(bytes);
    let parser = Parser::<DefaultElement>::new();
    let header = parser.read_header(&mut cursor)?;
    cursor.set_position(offset as u64);
    let element = header.elements.iter().nth(index).unwrap().1;
    let records = parser.read_payload_for_element(&mut cursor, element, &header)?;
    let plain = records.into_iter().map(|record| record.into_iter().map(|(key, property)| {
        (key.into_bytes(), match property { Property::Float(v) => Some(v.to_bits()), _ => None })
    }).collect()).collect();
    Ok((plain, cursor.position() as usize))
}

/// What is read from the place `offset` as the payload of the element at
/// `index`: nothing where the element cannot be in the file in full.
pub open spec fn element_read(bytes: Seq<u8>, index: nat, offset: nat) -> Option<
    (Seq<Seq<(Seq<u8>, Option<u32>)>>, nat),
> {
    if element_fits(bytes, index) {
        ply_element_records(bytes, index, offset)
    } else {
        None
    }
}

/// The first place in `names` that holds the name `vertex`.
pub open spec fn vertex_element(names: Seq<Seq<u8>>) -> Option<nat> {
    if exists|i: int| 0 <= i < names.len() && names[i] == ascii("vertex"@) {
        let first = choose|i: int|
            0 <= i < names.len() && names[i] == ascii("vertex"@) && forall|j: int|
                0 <= j < i ==> names[j] != ascii("vertex"@);
        Some(first as nat)
    } else {
        None
    }
}

/// Finds the element named `vertex` among the declared elements.
pub fn find_vertex_element(names: &Vec<Vec<u8>>) -> (found: Option<usize>)
    ensures
        match found {
            Some(i) => {
                &&& i < names@.len()
                &&& names@[i as int]@ == ascii("vertex"@)
                &&& forall|j: int| 0 <= j < i ==> names@[j]@ != ascii("vertex"@)
            },
            None => forall|j: int| 0 <= j < names@.len() ==> names@[j]@ != ascii("vertex"@),
        },
        match found {
            Some(i) => vertex_element(names_view(names@)) == Some(i as nat),
            None => vertex_element(names_view(names@)) is None,
        },
{
    proof {
        reveal_strlit("vertex");
    }
    let ghost view = names_view(names@);
    let mut i: usize = 0;
    while i < names.len()
        invariant
            i <= names@.len(),
            "vertex".is_ascii(),
            view == names_view(names@),
            forall|j: int| 0 <= j < i ==> names@[j]@ != ascii("vertex"@),
        decreases names@.len() - i,
    {
        if key_is(names[i].as_slice(), "vertex") {
            proof {
                assert(view[i as int] == ascii("vertex"@));
                let first = choose|k: int|
                    0 <= k < view.len() && view[k] == ascii("vertex"@) && forall|j: int|
                        0 <= j < k ==> view[j] != ascii("vertex"@);
                assert(forall|j: int| 0 <= j < i ==> view[j] != ascii("vertex"@));
                if first < i {
                    assert(view[first] != ascii("vertex"@));
                }
                if first > i {
                    assert(view[i as int] != ascii("vertex"@));
                }
            }
            return Some(i);
        }
        i = i + 1;
    }
    proof {
        assert forall|j: int| 0 <= j < view.len() implies view[j] != ascii("vertex"@) by {
            assert(view[j] == names@[j]@);
        }
    }
    None
}

/// The place in the file `bytes` where the payload of the element at
/// `index` begins: behind the header for the first element, and behind the
/// payload of the element before it for every other. `None` where there is no
/// such place, the header or the payload of an element before it being
/// malformed.
pub open spec fn payload_offset(bytes: Seq<u8>, index: nat) -> Option<nat>
    decreases index,
{
    if index == 0 {
        match ply_header(bytes) {
            Some(header) => Some(header.2),
            None => None,
        }
    } else {
        match payload_offset(bytes, (index - 1) as nat) {
            Some(offset) => match element_read(bytes, (index - 1) as nat, offset) {
                Some(read) => Some(read.1),
                None => None,
            },
            None => None,
        }
    }
}

/// The vertex records of a file, or the reason why there are none. A header
/// is malformed that writes, as the version of the format or as the number
/// of records of an element, a number too long to be read.
/// So is the payload where the `vertex` element, or one declared before it,
/// declares more records than the file has bytes.
pub open spec fn vertex_records(bytes: Seq<u8>) -> Result<
    Seq<Seq<(Seq<u8>, Option<u32>)>>,
    PlyError,
> {
    if !header_fits(bytes) {
        Err(PlyError::MalformedHeader)
    } else {
        match ply_header(bytes) {
            None => Err(PlyError::MalformedHeader),
            Some(header) => match vertex_element(header.0) {
                None => Err(PlyError::MissingVertexElement),
                Some(index) => match payload_offset(bytes, index) {
                    None => Err(PlyError::MalformedPayload),
                    Some(offset) => match element_read(bytes, index, offset) {
                        None => Err(PlyError::MalformedPayload),
                        Some(read) => Ok(read.0),
                    },
                },
            },
        }
    }
}

/// What a file decodes to: the splats of its `vertex` element, or the
/// reason why there are none.
pub open spec fn parsed(bytes: Seq<u8>) -> Result<Seq<Splat>, PlyError> {
    match vertex_records(bytes) {
        Ok(records) => Ok(Seq::new(records.len(), |i: int| Splat::decoded(records[i]))),
        Err(e) => Err(e),
    }
}

/// The splats of a sequence, each by its view.
pub open spec fn splats(gaussians: Seq<Gaussian>) -> Seq<Splat> {
    Seq::new(gaussians.len(), |i: int| gaussians[i]@)
}

/// Reads the records of the `vertex` element from the bytes of a file. The
/// payloads of the elements that the header declares before it are read and
/// passed over; what follows it is not looked at.
pub fn read_vertex_records(bytes: &[u8]) -> (result: Result<
    Vec<Vec<(Vec<u8>, Option<u32>)>>,
    PlyError,
>)
    ensures
        match result {
            Ok(records) => vertex_records(bytes@) == Ok::<
                Seq<Seq<(Seq<u8>, Option<u32>)>>,
                PlyError,
            >(records_view(records@)),
            Err(e) => vertex_records(bytes@) == Err::<Seq<Seq<(Seq<u8>, Option<u32>)>>, PlyError>(
                e,
            ),
        },
{
    if !header_numbers_fit(bytes) {
        return Err(PlyError::MalformedHeader);
    }
    let (names, counts, header_end) = match read_header_elements(bytes) {
        Ok(header) => header,
        Err(_) => {
            return Err(PlyError::MalformedHeader);
        },
    };
    let index = match find_vertex_element(&names) {
        Some(index) => index,
        None => {
            return Err(PlyError::MissingVertexElement);
        },
    };
    let mut offset = header_end;
    let mut before: usize = 0;
    while before < index
        invariant
            before <= index < names@.len(),
            counts@.len() == names@.len(),
            header_fits(bytes@),
            ply_header(bytes@) == Some((names_view(names@), counts@, header_end as nat)),
            vertex_element(names_view(names@)) == Some(index as nat),
            payload_offset(bytes@, before as nat) == Some(offset as nat),
        decreases index - before,
    {
        let read = if counts[before] <= bytes.len() {
            read_element_records(bytes, before, offset)
        } else {
            proof {
                lemma_payload_offset_fails(bytes@, before as nat + 1, index as nat);
            }
            return Err(PlyError::MalformedPayload);
        };
        match read {
            Ok(read) => {
                offset = read.1;
            },
            Err(_) => {
                proof {
                    lemma_payload_offset_fails(bytes@, before as nat + 1, index as nat);
                }
                return Err(PlyError::MalformedPayload);
            },
        }
        before = before + 1;
    }
    if counts[index] > bytes.len() {
        return Err(PlyError::MalformedPayload);
    }
    match read_element_records(bytes, index, offset) {
        Ok(read) => Ok(read.0),
        Err(_) => Err(PlyError::MalformedPayload),
    }
}

/// Where the payload of one element has no beginning, none has that comes
/// after it.
proof fn lemma_payload_offset_fails(bytes: Seq<u8>, from: nat, index: nat)
    requires
        from <= index,
        payload_offset(bytes, from) is None,
    ensures
        payload_offset(bytes, index) is None,
    decreases index - from,
{
    if from < index {
        lemma_payload_offset_fails(bytes, from + 1, index);
    }
}

/// Decodes the bytes of a file in the exchange format into packed splats.
/// No partial result is returned: a malformed file gives an error.
///
/// Scale and opacity come out as the file stores them, a log-scale and a
/// logit. The caller has yet to turn them into a scale and an opacity: the
/// exponential of each log-scale, clamped to five about the mean of the
/// three, and the logistic function of the logit where the record gives one,
/// which `sets_attribute` tells of a record of `read_vertex_records`.
pub fn parse_ply(bytes: &[u8]) -> (result: Result<Vec<Gaussian>, PlyError>)
    ensures
        match result {
            Ok(gaussians) => parsed(bytes@) == Ok::<Seq<Splat>, PlyError>(splats(gaussians@)),
            Err(e) => parsed(bytes@) == Err::<Seq<Splat>, PlyError>(e),
        },
{
    let records = match read_vertex_records(bytes) {
        Ok(records) => records,
        Err(e) => {
            return Err(e);
        },
    };
    let gaussians = decode_vertices(&records);
    proof {
        let decoded = records_view(records@);
        assert(splats(gaussians@) =~= Seq::new(decoded.len(), |i: int| Splat::decoded(decoded[i])));
    }
    Ok(gaussians)
}

} // verus!
