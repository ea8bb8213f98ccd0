//! Advertisement reports and the rule that picks out a HID keyboard.
//!
//! A payload is a run of elements. It is taken for a HID keyboard exactly when
//! a list of 16-bit service UUIDs in it holds the HID service, or an element of
//! service data is filed under the HID service. Nothing else in the payload
//! counts: not the 128-bit service lists, not names, flags or manufacturer
//! data. An element that cannot be decoded is passed over, and the elements
//! after it are still looked at.

use crate::address::Address;
use crate::config::HID_SERVICE;
use trouble_host::advertise::AdStructure;
use trouble_host::types::uuid::Uuid;
use vstd::prelude::*;
use vstd::string::StringSliceAdditionalSpecFns;
use vstd::utf8::valid_utf8;

verus! {

/// What kind of advertising event a report stems from.
#[derive(Clone, Copy, Debug, PartialEq, Eq, Structural)]
pub enum AdvEventKind {
    AdvInd,
    AdvDirectInd,
    AdvScanInd,
    AdvNonconnInd,
    ScanRsp,
}

/// One advertisement as the controller reports it.
#[derive(Clone, Debug, PartialEq, Eq)]
pub struct AdvertisementReport {
    pub source_address: Address,
    pub event_kind: AdvEventKind,
    pub raw_payload: Vec<u8>,
}

/// A report as a mathematical value.
pub struct AdvertisementReportView {
    pub source_address: Address,
    pub event_kind: AdvEventKind,
    pub raw_payload: Seq<u8>,
}

impl View for AdvertisementReport {
    type V = AdvertisementReportView;

    open spec fn view(&self) -> AdvertisementReportView {
        AdvertisementReportView {
            source_address: self.source_address,
            event_kind: self.event_kind,
            raw_payload: self.raw_payload@,
        }
    }
}

/// One element of an advertisement payload. UUIDs are kept as they are sent,
/// least significant byte first.
#[derive(Clone, Debug, PartialEq, Eq)]
pub enum AdElement {
    Flags(u8),
    ServiceUuids16(Vec<[u8; 2]>),
    ServiceUuids128(Vec<[u8; 16]>),
    ServiceData16 { uuid: [u8; 2], data: Vec<u8> },
    CompleteLocalName(Vec<u8>),
    ShortenedLocalName(Vec<u8>),
    ManufacturerSpecificData { company_identifier: u16, payload: Vec<u8> },
    Unknown { ty: u8, data: Vec<u8> },
}

/// An element as a mathematical value.
pub enum AdElementView {
    Flags(u8),
    ServiceUuids16(Seq<[u8; 2]>),
    ServiceUuids128(Seq<[u8; 16]>),
    ServiceData16 { uuid: [u8; 2], data: Seq<u8> },
    CompleteLocalName(Seq<u8>),
    ShortenedLocalName(Seq<u8>),
    ManufacturerSpecificData { company_identifier: u16, payload: Seq<u8> },
    Unknown { ty: u8, data: Seq<u8> },
}

impl View for AdElement {
    type V = AdElementView;

    open spec fn view(&self) -> AdElementView {
        match *self {
            AdElement::Flags(flags) => AdElementView::Flags(flags),
            AdElement::ServiceUuids16(uuids) => AdElementView::ServiceUuids16(uuids@),
            AdElement::ServiceUuids128(uuids) => AdElementView::ServiceUuids128(uuids@),
            AdElement::ServiceData16 { uuid, data } => AdElementView::ServiceData16 {
                uuid,
                data: data@,
            },
            AdElement::CompleteLocalName(name) => AdElementView::CompleteLocalName(name@),
            AdElement::ShortenedLocalName(name) => AdElementView::ShortenedLocalName(name@),
            AdElement::ManufacturerSpecificData {
                company_identifier,
                payload,
            } => AdElementView::ManufacturerSpecificData { company_identifier, payload: payload@ },
            AdElement::Unknown { ty, data } => AdElementView::Unknown { ty, data: data@ },
        }
    }
}

/// The elements of a decoded payload as mathematical values, in the order of
/// the payload. `None` stands for an element that could not be decoded.
pub open spec fn element_views(elements: Seq<Option<AdElement>>) -> Seq<Option<AdElementView>> {
    Seq::new(
        elements.len(),
        |i: int|
            match elements[i] {
                Some(element) => Some(element@),
                None => None,
            },
    )
}

/// The number that two UUID bytes stand for, least significant byte first.
pub open spec fn short_uuid(bytes: [u8; 2]) -> u16 {
    (bytes[0] + 256 * bytes[1]) as u16
}

/// Whether a list of 16-bit service UUIDs holds the HID service.
pub open spec fn holds_hid(uuids: Seq<[u8; 2]>) -> bool {
    exists|j: int| 0 <= j < uuids.len() && short_uuid(#[trigger] uuids[j]) == HID_SERVICE
}

/// Whether an element names the HID service in one of the two places that
/// count.
pub open spec fn names_hid(element: AdElementView) -> bool {
    match element {
        AdElementView::ServiceUuids16(uuids) => holds_hid(uuids),
        AdElementView::ServiceData16 { uuid, .. } => short_uuid(uuid) == HID_SERVICE,
        _ => false,
    }
}

/// Whether an entry of a decoded payload is an element that names the HID
/// service where it counts. An entry that could not be decoded never is.
pub open spec fn entry_names_hid(entry: Option<AdElementView>) -> bool {
    entry matches Some(element) && names_hid(element)
}

/// Whether a decoded payload is that of a HID keyboard.
pub open spec fn is_keyboard(elements: Seq<Option<AdElementView>>) -> bool {
    exists|i: int| 0 <= i < elements.len() && entry_names_hid(#[trigger] elements[i])
}

/// What `AdStructure::decode` yields for a payload, element by element.
pub uninterp spec fn decoded(payload: Seq<u8>) -> Seq<Option<AdElementView>>;

/// `AdStructure::decode`, run to its end: the elements of the payload in
/// order, each copied out of the payload, with `None` where the decoder
/// reported an error.
#[verifier::external_body]
fn decode_elements(payload: &[u8]) -> (elements: Vec<Option<AdElement>>)
    ensures
        element_views(elements@) == decoded(payload@),
{
    AdStructure::decode(payload).map(|r| r.ok().map(|ad| match ad {
        AdStructure::Flags(f) => AdElement::Flags(f),
        AdStructure::ServiceUuids16(u) => AdElement::ServiceUuids16(u.to_vec()),
        AdStructure::ServiceUuids128(u) => AdElement::ServiceUuids128(u.to_vec()),
        AdStructure::ServiceData16 { uuid, data } => AdElement::ServiceData16 { uuid, data: data.to_vec() },
        AdStructure::CompleteLocalName(n) => AdElement::CompleteLocalName(n.to_vec()),
        AdStructure::ShortenedLocalName(n) => AdElement::ShortenedLocalName(n.to_vec()),
        AdStructure::ManufacturerSpecificData { company_identifier, payload } => AdElement::ManufacturerSpecificData { company_identifier, payload: payload.to_vec() },
        AdStructure::Unknown { ty, data } => AdElement::Unknown { ty, data: data.to_vec() },
    })).collect()
}

/// `Uuid::as_short` of the 16-bit UUID made from two bytes: the bytes read as
/// a number, least significant first.
#[verifier::external_body]
fn uuid_as_short(bytes: [u8; 2]) -> (value: u16)
    ensures
        value == short_uuid(bytes),
{
    Uuid::from(bytes).as_short()
}

/// `core::str::from_utf8`: the bytes as text, exactly when they are valid
/// UTF-8.
#[verifier::external_body]
fn text_of(bytes: &[u8]) -> (text: Option<&str>)
    ensures
        text.is_some() == valid_utf8(bytes@),
        text matches Some(text) ==> text.spec_bytes() == bytes@,
{
    core::str::from_utf8(bytes).ok()
}

/// The text that stands for a name that is no text.
pub open spec fn unreadable_name() -> Seq<char> {
    "<non-utf8>"@
}

/// A local name as it is shown: the name itself where it is valid UTF-8, and
/// a fixed stand-in where it is not.
pub fn local_name_text(name: &[u8]) -> (text: &str)
    ensures
        valid_utf8(name@) ==> text.spec_bytes() == name@,
        !valid_utf8(name@) ==> text@ == unreadable_name(),
{
    match text_of(name) {
        Some(text) => text,
        None => "<non-utf8>",
    }
}

/// Whether an element names the HID service in one of the two places that
/// count.
pub fn element_names_hid(element: &AdElement) -> (found: bool)
    ensures
        found == names_hid(element@),
{
    match element {
        AdElement::ServiceUuids16(uuids) => {
            let mut found = false;
            let mut j: usize = 0;
            while j < uuids.len()
                invariant
                    j <= uuids.len(),
                    found == holds_hid(uuids@.take(j as int)),
                decreases uuids.len() - j,
            {
                proof {
                    lemma_holds_hid_grows(uuids@.take(j as int), uuids@[j as int]);
                    assert(uuids@.take(j as int + 1) =~= uuids@.take(j as int).push(uuids@[j as int]));
                }
                if uuid_as_short(uuids[j]) == HID_SERVICE {
                    found = true;
                }
                j += 1;
            }
            assert(uuids@.take(j as int) =~= uuids@);
            found
        },
        AdElement::ServiceData16 { uuid, .. } => uuid_as_short(*uuid) == HID_SERVICE,
        _ => false,
    }
}

proof fn lemma_holds_hid_grows(uuids: Seq<[u8; 2]>, next: [u8; 2])
    ensures
        holds_hid(uuids.push(next)) == (holds_hid(uuids) || short_uuid(next) == HID_SERVICE),
{
    let grown = uuids.push(next);
    if holds_hid(uuids) {
        let j = choose|j: int| 0 <= j < uuids.len() && short_uuid(#[trigger] uuids[j]) == HID_SERVICE;
        assert(short_uuid(grown[j]) == HID_SERVICE);
    }
    if short_uuid(next) == HID_SERVICE {
        assert(short_uuid(grown[uuids.len() as int]) == HID_SERVICE);
    }
    if holds_hid(grown) {
        let j = choose|j: int| 0 <= j < grown.len() && short_uuid(#[trigger] grown[j]) == HID_SERVICE;
        if j < uuids.len() {
            assert(short_uuid(uuids[j]) == HID_SERVICE);
        }
    }
}

/// Whether a decoded payload is that of a HID keyboard.
pub fn classify_elements(elements: &Vec<Option<AdElement>>) -> (keyboard: bool)
    ensures
        keyboard == is_keyboard(element_views(elements@)),
{
    let ghost views = element_views(elements@);
    let mut keyboard = false;
    let mut i: usize = 0;
    while i < elements.len()
        invariant
            i <= elements.len(),
            views == element_views(elements@),
            keyboard == exists|k: int| 0 <= k < i && entry_names_hid(#[trigger] views[k]),
        decreases elements.len() - i,
    {
        assert(views[i as int] == match elements@[i as int] {
            Some(element) => Some(element@),
            None => None,
        });
        match &elements[i] {
            Some(element) => {
                if element_names_hid(element) {
                    keyboard = true;
                }
            },
            None => {},
        }
        i += 1;
    }
    keyboard
}

/// A payload together with what was made of it.
#[derive(Clone, Debug, PartialEq, Eq)]
pub struct Survey {
    /// The elements of the payload, `None` for each that could not be decoded.
    pub elements: Vec<Option<AdElement>>,
    pub is_keyboard: bool,
}

/// Decodes a payload and classifies it, keeping the elements for whoever wants
/// to report them.
pub fn survey(payload: &[u8]) -> (result: Survey)
    ensures
        element_views(result.elements@) == decoded(payload@),
        result.is_keyboard == is_keyboard(decoded(payload@)),
{
    let elements = decode_elements(payload);
    let is_keyboard = classify_elements(&elements);
    Survey { elements, is_keyboard }
}

/// Whether an advertisement payload is that of a HID keyboard.
pub fn classify(payload: &[u8]) -> (keyboard: bool)
    ensures
        keyboard == is_keyboard(decoded(payload@)),
{
    let elements = decode_elements(payload);
    classify_elements(&elements)
}

/// A list of 16-bit service UUIDs that holds the HID service makes a payload
/// a keyboard's, wherever the list stands in the payload and whatever else
/// the payload holds.
pub proof fn law_hid_in_service_list_matches(
    elements: Seq<Option<AdElementView>>,
    i: int,
    j: int,
)
    requires
        0 <= i < elements.len(),
        elements[i] matches Some(AdElementView::ServiceUuids16(uuids)) && 0 <= j < uuids.len()
            && short_uuid(uuids[j]) == HID_SERVICE,
    ensures
        is_keyboard(elements),
{
    let uuids = elements[i]->0->ServiceUuids16_0;
    assert(short_uuid(uuids[j]) == HID_SERVICE);
    assert(holds_hid(uuids));
    assert(entry_names_hid(elements[i]));
}

/// Service data filed under the HID service makes a payload a keyboard's,
/// wherever the element stands and whatever data it carries.
pub proof fn law_hid_in_service_data_matches(elements: Seq<Option<AdElementView>>, i: int)
    requires
        0 <= i < elements.len(),
        elements[i] matches Some(AdElementView::ServiceData16 { uuid, .. }) && short_uuid(uuid)
            == HID_SERVICE,
    ensures
        is_keyboard(elements),
{
    assert(entry_names_hid(elements[i]));
}

/// The order of the elements does not matter: two payloads with the same
/// elements, in whatever order, are classified alike.
pub proof fn law_order_is_irrelevant(
    first: Seq<Option<AdElementView>>,
    second: Seq<Option<AdElementView>>,
)
    requires
        first.to_multiset() == second.to_multiset(),
    ensures
        is_keyboard(first) == is_keyboard(second),
{
    lemma_keyboard_survives_reordering(first, second);
    lemma_keyboard_survives_reordering(second, first);
}

proof fn lemma_keyboard_survives_reordering(
    first: Seq<Option<AdElementView>>,
    second: Seq<Option<AdElementView>>,
)
    requires
        first.to_multiset() == second.to_multiset(),
    ensures
        is_keyboard(first) ==> is_keyboard(second),
{
    if is_keyboard(first) {
        let i = choose|i: int| 0 <= i < first.len() && entry_names_hid(#[trigger] first[i]);
        first.to_multiset_ensures();
        second.to_multiset_ensures();
        assert(first.contains(first[i]));
        assert(first.to_multiset().count(first[i]) > 0);
        assert(second.to_multiset().count(first[i]) > 0);
        assert(second.contains(first[i]));
        let k = choose|k: int| 0 <= k < second.len() && second[k] == first[i];
        assert(entry_names_hid(second[k]));
    }
}

/// A payload is no keyboard's when no list of 16-bit service UUIDs in it holds
/// the HID service and no service data in it is filed under the HID service,
/// whatever its other elements say.
pub proof fn law_nothing_else_matches(elements: Seq<Option<AdElementView>>)
    requires
        forall|i: int|
            0 <= i < elements.len() ==> match #[trigger] elements[i] {
                Some(AdElementView::ServiceUuids16(uuids)) => !holds_hid(uuids),
                Some(AdElementView::ServiceData16 { uuid, .. }) => short_uuid(uuid) != HID_SERVICE,
                _ => true,
            },
    ensures
        !is_keyboard(elements),
{
    assert forall|i: int| 0 <= i < elements.len() implies !entry_names_hid(
        #[trigger] elements[i],
    ) by {}
}

/// Lists of 128-bit service UUIDs are never looked into: a payload made of
/// such lists alone is no keyboard's, whichever UUIDs they hold.
pub proof fn law_long_service_lists_never_match(elements: Seq<Option<AdElementView>>)
    requires
        forall|i: int|
            0 <= i < elements.len() ==> (#[trigger] elements[i]) matches Some(
                AdElementView::ServiceUuids128(_),
            ),
    ensures
        !is_keyboard(elements),
{
    assert forall|i: int| 0 <= i < elements.len() implies !entry_names_hid(
        #[trigger] elements[i],
    ) by {}
}

/// An element that could not be decoded is passed over: the payload is
/// classified as it would be without it.
pub proof fn law_malformed_elements_are_skipped(
    before: Seq<Option<AdElementView>>,
    after: Seq<Option<AdElementView>>,
)
    ensures
        is_keyboard(before + seq![None] + after) == is_keyboard(before + after),
{
    let with = before + seq![None::<AdElementView>] + after;
    let without = before + after;
    if is_keyboard(with) {
        let i = choose|i: int| 0 <= i < with.len() && entry_names_hid(#[trigger] with[i]);
        if i < before.len() {
            assert(without[i] == with[i]);
        } else {
            assert(i != before.len());
            assert(without[i - 1] == with[i]);
        }
    }
    if is_keyboard(without) {
        let i = choose|i: int| 0 <= i < without.len() && entry_names_hid(#[trigger] without[i]);
        if i < before.len() {
            assert(with[i] == without[i]);
        } else {
            assert(with[i + 1] == without[i]);
        }
    }
}

} // verus!
