//! Bluetooth central logic for finding, bonding with and reading an Xbox
//! Wireless Controller (a HID-over-GATT peripheral over BLE).
//!
//! The radio work (scanning, connecting, pairing, GATT) is done by the
//! application; this module holds what it decides: which advertisers are
//! controllers, what the connection loop does on each outcome, and what is
//! drawn on the status display.
use vstd::prelude::*;
use vstd::string::StringSliceAdditionalSpecFns;
use vstd::utf8::valid_utf8;
use crate::text::{hex_byte, hex_word, push_hex_byte, push_hex_word};
use crate::xbox::le_word;
use trouble_host::advertise::AdStructure;

verus! {

/// AD type for "Appearance" (Core Spec supplement), which the advertising
/// decoder reports as an unknown structure.
pub const AD_TYPE_APPEARANCE: u8 = 0x19;

/// BLE Appearance value for a HID Gamepad.
pub const APPEARANCE_GAMEPAD: u16 = 0x03c4;

/// HID-over-GATT UUIDs: the HID service and its Report characteristic.
pub const HID_SERVICE_UUID: u16 = 0x1812;

pub const HID_REPORT_UUID: u16 = 0x2a4d;

/// OLED width in 8x8 characters (128px / 8).
pub const OLED_COLS: usize = 16;

/// Number of leading report bytes drawn as hex (the stick axes).
pub const HID_BYTES_SHOWN: usize = 8;

// ---------------------------------------------------------------------------
// Recognising a controller from its advertising data
// ---------------------------------------------------------------------------

/// ASCII lowercase of a byte (`u8::to_ascii_lowercase`).
pub open spec fn ascii_lower(b: u8) -> u8 {
    if 65 <= b <= 90 {
        (b + 32) as u8
    } else {
        b
    }
}

/// The bytes of "xbox".
pub open spec fn xbox_needle() -> Seq<u8> {
    seq![0x78u8, 0x62u8, 0x6fu8, 0x78u8]
}

/// Whether the four bytes of `bytes` at `i` spell "xbox", ignoring ASCII case.
pub open spec fn xbox_at(bytes: Seq<u8>, i: int) -> bool {
    &&& 0 <= i
    &&& i + 4 <= bytes.len()
    &&& forall|k: int| 0 <= k < 4 ==> ascii_lower(#[trigger] bytes[i + k]) == xbox_needle()[k]
}

/// Whether "xbox" occurs in `bytes`, ignoring ASCII case.
pub open spec fn contains_xbox(bytes: Seq<u8>) -> bool {
    exists|i: int| #[trigger] xbox_at(bytes, i)
}

fn lower(b: u8) -> (r: u8)
    ensures
        r == ascii_lower(b),
{
    if b >= 65 && b <= 90 {
        b + 32
    } else {
        b
    }
}

/// Case-insensitive substring test for "xbox" in an advertised name.
pub fn is_xbox_name(name: &str) -> (r: bool)
    ensures
        r == contains_xbox(name.spec_bytes()),
{
    let bytes = name.as_bytes();
    let n = bytes.len();
    if n < 4 {
        assert forall|i: int| !xbox_at(bytes@, i) by {}
        return false;
    }
    let mut i: usize = 0;
    while i <= n - 4
        invariant
            bytes@ == name.spec_bytes(),
            n == bytes@.len(),
            n >= 4,
            i <= n - 3,
            forall|j: int| 0 <= j < i ==> !xbox_at(bytes@, j),
        decreases n - i,
    {
        if lower(bytes[i]) == 0x78 && lower(bytes[i + 1]) == 0x62 && lower(bytes[i + 2]) == 0x6f
            && lower(bytes[i + 3]) == 0x78 {
            assert(xbox_at(bytes@, i as int)) by {
                assert forall|k: int| 0 <= k < 4 implies ascii_lower(
                    #[trigger] bytes@[i + k],
                ) == xbox_needle()[k] by {
                    if k == 0 {
                    } else if k == 1 {
                    } else if k == 2 {
                    } else {
                    }
                }
            }
            return true;
        }
        assert(!xbox_at(bytes@, i as int)) by {
            if xbox_at(bytes@, i as int) {
                assert(ascii_lower(bytes@[i + 0]) == xbox_needle()[0]);
                assert(ascii_lower(bytes@[i + 1]) == xbox_needle()[1]);
                assert(ascii_lower(bytes@[i + 2]) == xbox_needle()[2]);
                assert(ascii_lower(bytes@[i + 3]) == xbox_needle()[3]);
            }
        }
        i = i + 1;
    }
    assert forall|j: int| !xbox_at(bytes@, j) by {
        if 0 <= j < i {
        }
    }
    false
}

/// Matching a name ignores ASCII case: a name matches exactly when its
/// lowercase form does.
pub proof fn lemma_xbox_match_ignores_case(bytes: Seq<u8>)
    ensures
        contains_xbox(bytes) == contains_xbox(bytes.map_values(|b: u8| ascii_lower(b))),
{
    let low = bytes.map_values(|b: u8| ascii_lower(b));
    if contains_xbox(bytes) {
        let i = choose|i: int| xbox_at(bytes, i);
        assert forall|k: int| 0 <= k < 4 implies ascii_lower(#[trigger] low[i + k])
            == xbox_needle()[k] by {
            assert(ascii_lower(bytes[i + k]) == xbox_needle()[k]);
        }
        assert(xbox_at(low, i));
    }
    if contains_xbox(low) {
        let i = choose|i: int| xbox_at(low, i);
        assert forall|k: int| 0 <= k < 4 implies ascii_lower(#[trigger] bytes[i + k])
            == xbox_needle()[k] by {
            assert(ascii_lower(low[i + k]) == xbox_needle()[k]);
        }
        assert(xbox_at(bytes, i));
    }
}

/// One advertising-data structure, as far as controller recognition reads it.
pub enum AdItem {
    /// AD type 0x09: the full device name.
    CompleteLocalName(Vec<u8>),
    /// AD type 0x08: a shortened device name.
    ShortenedLocalName(Vec<u8>),
    /// A structure of a type the decoder does not model (such as Appearance).
    Unknown { ty: u8, data: Vec<u8> },
    /// A structure of a type the decoder models that is none of the above.
    Other,
    /// A structure that could not be decoded.
    Malformed,
}

/// The plain value of an [`AdItem`].
pub enum AdItemView {
    CompleteLocalName(Seq<u8>),
    ShortenedLocalName(Seq<u8>),
    Unknown { ty: u8, data: Seq<u8> },
    Other,
    Malformed,
}

impl DeepView for AdItem {
    type V = AdItemView;

    open spec fn deep_view(&self) -> AdItemView {
        match self {
            AdItem::CompleteLocalName(n) => AdItemView::CompleteLocalName(n@),
            AdItem::ShortenedLocalName(n) => AdItemView::ShortenedLocalName(n@),
            AdItem::Unknown { ty, data } => AdItemView::Unknown { ty: *ty, data: data@ },
            AdItem::Other => AdItemView::Other,
            AdItem::Malformed => AdItemView::Malformed,
        }
    }
}

/// What trouble-host's `AdStructure::decode` yields for an advertising
/// payload, item by item.
pub uninterp spec fn decoded_ad_structures(data: Seq<u8>) -> Seq<AdItemView>;

/// AD types of the two local-name structures.
pub const AD_TYPE_SHORTENED_LOCAL_NAME: u8 = 0x08;

pub const AD_TYPE_COMPLETE_LOCAL_NAME: u8 = 0x09;

/// The payload begins with a whole structure: a length byte of at least 2
/// (counting the type byte), the type, and the remaining `length - 1` bytes.
pub open spec fn leads_with_structure(p: Seq<u8>) -> bool {
    &&& p.len() >= 2
    &&& p[0] >= 2
    &&& p[0] + 1 <= p.len()
}

/// Whether an AD type is one the recognition reads: a local name or the
/// Appearance.
pub open spec fn is_read_type(ty: u8) -> bool {
    ty == AD_TYPE_SHORTENED_LOCAL_NAME || ty == AD_TYPE_COMPLETE_LOCAL_NAME || ty
        == AD_TYPE_APPEARANCE
}

/// The structure a payload begins with, when it [`leads_with_structure`] of a
/// type that [`is_read_type`].
pub open spec fn first_structure(p: Seq<u8>) -> AdItemView {
    let body = p.subrange(2, p[0] + 1);
    if p[1] == AD_TYPE_SHORTENED_LOCAL_NAME {
        AdItemView::ShortenedLocalName(body)
    } else if p[1] == AD_TYPE_COMPLETE_LOCAL_NAME {
        AdItemView::CompleteLocalName(body)
    } else {
        AdItemView::Unknown { ty: p[1], data: body }
    }
}

/// An item that is neither a local name nor an Appearance structure.
pub open spec fn is_unread_item(item: AdItemView) -> bool {
    match item {
        AdItemView::CompleteLocalName(_) => false,
        AdItemView::ShortenedLocalName(_) => false,
        AdItemView::Unknown { ty, data: _ } => ty != AD_TYPE_APPEARANCE,
        _ => true,
    }
}

/// The bytes after the structure a payload begins with.
pub open spec fn after_first_structure(p: Seq<u8>) -> Seq<u8> {
    p.subrange(p[0] + 1, p.len() as int)
}

/// Whether `items` is consistent with how the decoder reads `p`: an empty
/// payload yields nothing, and a payload that begins with a whole structure
/// yields one item for it (the name or the Appearance structure for those
/// types, an item that is neither otherwise) followed by items consistent
/// with the rest of the payload. Nothing is said of a payload that begins
/// with a malformed structure.
pub open spec fn agrees_with_payload(p: Seq<u8>, items: Seq<AdItemView>) -> bool
    decreases p.len(),
{
    if p.len() == 0 {
        items.len() == 0
    } else if leads_with_structure(p) {
        &&& items.len() >= 1
        &&& is_read_type(p[1]) ==> items[0] == first_structure(p)
        &&& !is_read_type(p[1]) ==> is_unread_item(items[0])
        &&& agrees_with_payload(after_first_structure(p), items.drop_first())
    } else {
        true
    }
}

/// A payload made entirely of whole structures.
pub open spec fn well_formed_payload(p: Seq<u8>) -> bool
    decreases p.len(),
{
    if p.len() == 0 {
        true
    } else {
        leads_with_structure(p) && well_formed_payload(after_first_structure(p))
    }
}

/// Whether a payload made of whole structures marks a controller: one of its
/// name or Appearance structures does.
pub open spec fn payload_marks_xbox(p: Seq<u8>) -> bool
    decreases p.len(),
{
    if p.len() == 0 || !leads_with_structure(p) {
        false
    } else {
        (is_read_type(p[1]) && item_marks_xbox(first_structure(p))) || payload_marks_xbox(
            after_first_structure(p),
        )
    }
}

/// Decodes an advertising payload with `trouble_host`'s
/// `AdStructure::decode`, converting each item it yields, in order: the two
/// local-name structures and unknown structures keep their bytes, other
/// decoded structures become `Other`, decoding errors become `Malformed`.
/// The decoder reads length-prefixed structures one after the other from a
/// cursor until the payload is used up, so an empty payload yields nothing,
/// and a payload that begins with a whole structure yields one item for it
/// and then what the rest of the payload yields. That item is the name, or
/// the Appearance structure (a type the decoder does not model), when the
/// structure is of one of those types, and neither a name nor an Appearance
/// otherwise. How other structures and malformed bytes decode is not
/// restated here.
#[verifier::external_body]
fn decode_ad_structures(data: &[u8]) -> (items: Vec<AdItem>)
    ensures
        items.deep_view() == decoded_ad_structures(data@),
        agrees_with_payload(data@, items.deep_view()),
{
    AdStructure::decode(data).map(|ad| match ad {
        Ok(AdStructure::CompleteLocalName(n)) => AdItem::CompleteLocalName(n.to_vec()),
        Ok(AdStructure::ShortenedLocalName(n)) => AdItem::ShortenedLocalName(n.to_vec()),
        Ok(AdStructure::Unknown { ty, data }) => AdItem::Unknown { ty, data: data.to_vec() },
        Ok(_) => AdItem::Other,
        Err(_) => AdItem::Malformed,
    }).collect()
}

/// Checks that bytes are UTF-8 and views them as text:
/// `core::str::from_utf8`, which succeeds exactly on valid UTF-8.
#[verifier::external_body]
fn str_from_utf8(bytes: &[u8]) -> (r: Option<&str>)
    ensures
        r is Some <==> valid_utf8(bytes@),
        r matches Some(s) ==> s.spec_bytes() == bytes@,
{
    core::str::from_utf8(bytes).ok()
}

/// Whether one advertising structure marks a controller: a local name that is
/// UTF-8 text containing "xbox" in any case, or an Appearance of HID Gamepad.
pub open spec fn item_marks_xbox(item: AdItemView) -> bool {
    match item {
        AdItemView::CompleteLocalName(n) => valid_utf8(n) && contains_xbox(n),
        AdItemView::ShortenedLocalName(n) => valid_utf8(n) && contains_xbox(n),
        AdItemView::Unknown { ty, data } => ty == AD_TYPE_APPEARANCE && data.len() >= 2
            && le_word(data[0], data[1]) == APPEARANCE_GAMEPAD,
        _ => false,
    }
}

/// Whether any structure of an advertisement marks a controller.
pub open spec fn items_mark_xbox(items: Seq<AdItemView>) -> bool {
    exists|i: int| 0 <= i < items.len() && item_marks_xbox(#[trigger] items[i])
}

fn name_marks_xbox(n: &Vec<u8>) -> (r: bool)
    ensures
        r == (valid_utf8(n@) && contains_xbox(n@)),
{
    match str_from_utf8(n.as_slice()) {
        Some(s) => is_xbox_name(s),
        None => false,
    }
}

/// Whether decoded advertising structures mark a controller.
pub fn ad_items_mark_xbox(items: &Vec<AdItem>) -> (r: bool)
    ensures
        r == items_mark_xbox(items.deep_view()),
{
    let ghost v = items.deep_view();
    let mut i: usize = 0;
    while i < items.len()
        invariant
            v == items.deep_view(),
            v.len() == items.len(),
            0 <= i <= items.len(),
            forall|j: int| 0 <= j < i ==> !item_marks_xbox(#[trigger] v[j]),
        decreases items.len() - i,
    {
        let hit = match &items[i] {
            AdItem::CompleteLocalName(n) => name_marks_xbox(n),
            AdItem::ShortenedLocalName(n) => name_marks_xbox(n),
            AdItem::Unknown { ty, data } => {
                *ty == AD_TYPE_APPEARANCE && data.len() >= 2 && (data[0] as u16 + (data[1] as u16)
                    * 256) == APPEARANCE_GAMEPAD
            },
            _ => false,
        };
        assert(hit == item_marks_xbox(v[i as int]));
        if hit {
            return true;
        }
        i = i + 1;
    }
    false
}

/// Should we treat this advertiser as a controller to connect to? Matches
/// either a local name containing "xbox" or an advertised Gamepad appearance
/// (a bonded controller often re-advertises without its name).
pub fn adv_is_xbox(data: &[u8]) -> (r: bool)
    ensures
        r == report_marks_xbox(data@),
        data@.len() == 0 ==> !r,
        leads_with_structure(data@) && is_read_type(data@[1]) && item_marks_xbox(
            first_structure(data@),
        ) ==> r,
        well_formed_payload(data@) ==> r == payload_marks_xbox(data@),
{
    let items = decode_ad_structures(data);
    let r = ad_items_mark_xbox(&items);
    proof {
        let v = items.deep_view();
        if leads_with_structure(data@) {
            assert(v =~= seq![v[0]] + v.drop_first());
            lemma_items_mark_xbox_cons(v[0], v.drop_first());
        }
        if well_formed_payload(data@) {
            lemma_payload_marks(data@, v);
        }
    }
    r
}

/// For a payload made of whole structures, the decoded items mark a
/// controller exactly when the payload's name or Appearance structures do.
pub proof fn lemma_payload_marks(p: Seq<u8>, items: Seq<AdItemView>)
    requires
        well_formed_payload(p),
        agrees_with_payload(p, items),
    ensures
        items_mark_xbox(items) == payload_marks_xbox(p),
    decreases p.len(),
{
    if p.len() > 0 {
        let rest = items.drop_first();
        lemma_payload_marks(after_first_structure(p), rest);
        assert(items =~= seq![items[0]] + rest);
        lemma_items_mark_xbox_cons(items[0], rest);
        if !is_read_type(p[1]) {
            assert(!item_marks_xbox(items[0]));
        }
    }
}

/// An Appearance structure marks a controller exactly when its value, read
/// little endian, is 0x03C4 (HID Gamepad): keyboards (0x03C1), mice (0x03C2)
/// and every other appearance do not. A structure of any other unmodelled
/// type never does, nor does a structure the decoder models other than the
/// two names.
pub proof fn lemma_appearance_marks(ty: u8, data: Seq<u8>)
    ensures
        item_marks_xbox(AdItemView::Unknown { ty, data }) <==> (ty == 0x19 && data.len() >= 2
            && data[0] + 256 * data[1] == 0x03c4),
        !item_marks_xbox(AdItemView::Other),
        !item_marks_xbox(AdItemView::Malformed),
{
}

/// A payload made of the one Appearance structure `[3, 0x19, lo, hi]` is
/// recognised exactly when `lo + 256 * hi == 0x03C4`.
pub proof fn lemma_single_appearance_payload(lo: u8, hi: u8)
    ensures
        well_formed_payload(seq![3u8, 0x19u8, lo, hi]),
        payload_marks_xbox(seq![3u8, 0x19u8, lo, hi]) <==> lo + 256 * hi == 0x03c4,
{
    let p = seq![3u8, 0x19u8, lo, hi];
    assert(leads_with_structure(p));
    assert(after_first_structure(p) =~= Seq::<u8>::empty());
    assert(well_formed_payload(after_first_structure(p)));
    assert(!payload_marks_xbox(after_first_structure(p)));
    assert(p.subrange(2, 4) =~= seq![lo, hi]);
    assert(first_structure(p) == AdItemView::Unknown { ty: 0x19, data: seq![lo, hi] });
}

/// A payload made of the one name structure `[n + 1, ty, name..]`
/// (`ty` = 0x08 or 0x09) is recognised exactly when the name is UTF-8 text
/// that contains "xbox" in any letter case.
pub proof fn lemma_single_name_payload(ty: u8, name: Seq<u8>)
    requires
        ty == 0x08 || ty == 0x09,
        1 <= name.len() <= 254,
    ensures
        well_formed_payload(seq![(name.len() + 1) as u8, ty] + name),
        payload_marks_xbox(seq![(name.len() + 1) as u8, ty] + name) <==> (valid_utf8(name)
            && exists|i: int|
            #![trigger name[i]]
            0 <= i && i + 4 <= name.len() && ascii_lower(name[i]) == 0x78 && ascii_lower(
                name[i + 1],
            ) == 0x62 && ascii_lower(name[i + 2]) == 0x6f && ascii_lower(name[i + 3]) == 0x78),
{
    let p = seq![(name.len() + 1) as u8, ty] + name;
    assert(p[0] == name.len() + 1);
    assert(p[1] == ty);
    assert(leads_with_structure(p));
    assert(after_first_structure(p) =~= Seq::<u8>::empty());
    assert(well_formed_payload(after_first_structure(p)));
    assert(!payload_marks_xbox(after_first_structure(p)));
    assert(p.subrange(2, p[0] + 1) =~= name);
    if contains_xbox(name) {
        let i = choose|i: int| #[trigger] xbox_at(name, i);
        assert(ascii_lower(name[i + 0]) == xbox_needle()[0]);
        assert(ascii_lower(name[i + 1]) == xbox_needle()[1]);
        assert(ascii_lower(name[i + 2]) == xbox_needle()[2]);
        assert(ascii_lower(name[i + 3]) == xbox_needle()[3]);
    }
    if exists|i: int|
            #![trigger name[i]]
        0 <= i && i + 4 <= name.len() && ascii_lower(name[i]) == 0x78 && ascii_lower(name[i + 1])
            == 0x62 && ascii_lower(name[i + 2]) == 0x6f && ascii_lower(name[i + 3]) == 0x78 {
        let i = choose|i: int|
            #![trigger name[i]]
            0 <= i && i + 4 <= name.len() && ascii_lower(name[i]) == 0x78 && ascii_lower(
                name[i + 1],
            ) == 0x62 && ascii_lower(name[i + 2]) == 0x6f && ascii_lower(name[i + 3]) == 0x78;
        assert forall|k: int| 0 <= k < 4 implies ascii_lower(#[trigger] name[i + k])
            == xbox_needle()[k] by {
            if k == 0 {
                assert(name[i + 0] == name[i]);
            }
        }
        assert(xbox_at(name, i));
    }
}

/// Case folding touches only the letters: each letter of "xbox" is matched
/// by exactly its lowercase and uppercase forms.
pub proof fn lemma_xbox_letters(b: u8)
    ensures
        (ascii_lower(b) == 0x78) <==> (b == 0x78 || b == 0x58),
        (ascii_lower(b) == 0x62) <==> (b == 0x62 || b == 0x42),
        (ascii_lower(b) == 0x6f) <==> (b == 0x6f || b == 0x4f),
        (65 <= b <= 90) ==> ascii_lower(b) == b + 32,
        !(65 <= b <= 90) ==> ascii_lower(b) == b,
{
}

/// An advertisement's structures mark a controller exactly when its first
/// structure does or one of the others does.
pub proof fn lemma_items_mark_xbox_cons(first: AdItemView, rest: Seq<AdItemView>)
    ensures
        items_mark_xbox(seq![first] + rest) == (item_marks_xbox(first) || items_mark_xbox(rest)),
{
    let all = seq![first] + rest;
    if item_marks_xbox(first) {
        assert(all[0] == first);
    }
    if items_mark_xbox(rest) {
        let i = choose|i: int| 0 <= i < rest.len() && item_marks_xbox(#[trigger] rest[i]);
        assert(all[i + 1] == rest[i]);
    }
    if items_mark_xbox(all) {
        let i = choose|i: int| 0 <= i < all.len() && item_marks_xbox(#[trigger] all[i]);
        if i > 0 {
            assert(all[i] == rest[i - 1]);
        }
    }
}

/// Whether an advertising report's payload marks a controller.
pub open spec fn report_marks_xbox(data: Seq<u8>) -> bool {
    items_mark_xbox(decoded_ad_structures(data))
}

/// One call of [`XboxFinder::on_adv_reports`]: from `done`, a batch of report
/// payloads leads to `done_after` and the index `found`. Once done, nothing
/// more is found; before that, the first report from a controller is found,
/// if there is one, and the finder is done exactly when it found one.
pub open spec fn finder_step(
    done: bool,
    batch: Seq<Seq<u8>>,
    done_after: bool,
    found: Option<usize>,
) -> bool {
    if done {
        found is None && done_after
    } else {
        &&& done_after == (found is Some)
        &&& found matches Some(i) ==> i < batch.len() && report_marks_xbox(batch[i as int])
            && forall|j: int| 0 <= j < i ==> !report_marks_xbox(#[trigger] batch[j])
        &&& found is None ==> forall|j: int|
            0 <= j < batch.len() ==> !report_marks_xbox(#[trigger] batch[j])
    }
}

/// A fresh finder fed `batches` in turn: `dones[k]` is its flag before the
/// `k`-th call and `founds[k]` what that call returned.
pub open spec fn finder_run(
    batches: Seq<Seq<Seq<u8>>>,
    dones: Seq<bool>,
    founds: Seq<Option<usize>>,
) -> bool {
    &&& dones.len() == batches.len() + 1
    &&& founds.len() == batches.len()
    &&& !dones[0]
    &&& forall|k: int|
        0 <= k < batches.len() ==> #[trigger] finder_step(dones[k], batches[k], dones[k + 1], founds[k])
}

/// Whether some call before the `k`-th found a controller.
pub open spec fn found_before(founds: Seq<Option<usize>>, k: int) -> bool {
    exists|j: int| 0 <= j < k && (#[trigger] founds[j]) is Some
}

proof fn lemma_done_iff_found_before(
    batches: Seq<Seq<Seq<u8>>>,
    dones: Seq<bool>,
    founds: Seq<Option<usize>>,
    k: int,
)
    requires
        finder_run(batches, dones, founds),
        0 <= k <= batches.len(),
    ensures
        dones[k] == found_before(founds, k),
    decreases k,
{
    if k > 0 {
        lemma_done_iff_found_before(batches, dones, founds, k - 1);
        let p = k - 1;
        assert(finder_step(dones[p], batches[p], dones[p + 1], founds[p]));
        if found_before(founds, k - 1) {
            let j = choose|j: int| 0 <= j < k - 1 && (#[trigger] founds[j]) is Some;
            assert(0 <= j < k && founds[j] is Some);
        }
        if founds[k - 1] is Some {
            assert(found_before(founds, k));
        }
        if found_before(founds, k) {
            let j = choose|j: int| 0 <= j < k && (#[trigger] founds[j]) is Some;
            if j < k - 1 {
                assert(found_before(founds, k - 1));
            }
        }
    }
}

/// Over any sequence of report batches, a fresh finder hands over a
/// controller at most once: the first call that finds one returns the first
/// controller report of its batch, no report in any earlier batch was from a
/// controller, and every later call finds nothing. If any report of any batch
/// is from a controller, one call finds one.
pub proof fn lemma_finder_signals_once(
    batches: Seq<Seq<Seq<u8>>>,
    dones: Seq<bool>,
    founds: Seq<Option<usize>>,
)
    requires
        finder_run(batches, dones, founds),
    ensures
        forall|k: int, l: int|
            0 <= k < l < batches.len() && (#[trigger] founds[k]) is Some ==> (#[trigger] founds[l]) is None,
        forall|k: int|
            0 <= k < batches.len() && (#[trigger] founds[k]) is Some ==> {
                let i = founds[k]->0 as int;
                &&& i < batches[k].len()
                &&& report_marks_xbox(batches[k][i])
                &&& forall|m: int| 0 <= m < i ==> !report_marks_xbox(#[trigger] batches[k][m])
                &&& forall|j: int, m: int|
                    0 <= j < k && 0 <= m < batches[j].len() ==> !report_marks_xbox(
                        #[trigger] batches[j][m],
                    )
            },
        (exists|k: int, m: int|
            0 <= k < batches.len() && 0 <= m < batches[k].len() && report_marks_xbox(
                #[trigger] batches[k][m],
            )) ==> exists|k: int| 0 <= k < batches.len() && (#[trigger] founds[k]) is Some,
{
    let n = batches.len() as int;
    assert forall|k: int| 0 <= k <= n implies dones[k] == found_before(founds, k) by {
        lemma_done_iff_found_before(batches, dones, founds, k);
    }
    assert forall|k: int, l: int|
        0 <= k < l < n && (#[trigger] founds[k]) is Some implies (#[trigger] founds[l]) is None by {
        assert(found_before(founds, l)) by {
            assert(0 <= k < l && founds[k] is Some);
        }
        assert(dones[l]);
        assert(finder_step(dones[l], batches[l], dones[l + 1], founds[l]));
    }
    assert forall|k: int| 0 <= k < n && (#[trigger] founds[k]) is Some implies {
        let i = founds[k]->0 as int;
        &&& i < batches[k].len()
        &&& report_marks_xbox(batches[k][i])
        &&& forall|m: int| 0 <= m < i ==> !report_marks_xbox(#[trigger] batches[k][m])
        &&& forall|j: int, m: int|
            0 <= j < k && 0 <= m < batches[j].len() ==> !report_marks_xbox(
                #[trigger] batches[j][m],
            )
    } by {
        assert(finder_step(dones[k], batches[k], dones[k + 1], founds[k]));
        assert(!dones[k]);
        assert forall|j: int, m: int|
            0 <= j < k && 0 <= m < batches[j].len() implies !report_marks_xbox(
            #[trigger] batches[j][m],
        ) by {
            assert(!found_before(founds, k));
            assert(founds[j] is None);
            assert(found_before(founds, j) ==> found_before(founds, k)) by {
                if found_before(founds, j) {
                    let q = choose|q: int| 0 <= q < j && (#[trigger] founds[q]) is Some;
                    assert(0 <= q < k && founds[q] is Some);
                }
            }
            assert(!dones[j]);
            assert(finder_step(dones[j], batches[j], dones[j + 1], founds[j]));
        }
    }
    if exists|k: int, m: int|
        0 <= k < n && 0 <= m < batches[k].len() && report_marks_xbox(#[trigger] batches[k][m]) {
        let (k, m) = choose|k: int, m: int|
            0 <= k < n && 0 <= m < batches[k].len() && report_marks_xbox(
                #[trigger] batches[k][m],
            );
        assert(finder_step(dones[k], batches[k], dones[k + 1], founds[k]));
        if dones[k] {
            let j = choose|j: int| 0 <= j < k && (#[trigger] founds[j]) is Some;
            assert(0 <= j < n && founds[j] is Some);
        } else {
            assert(founds[k] is Some);
        }
    }
}

/// Scan-result sink that watches for the first Xbox controller: once one has
/// been found it ignores every later report.
#[derive(Clone, Copy, PartialEq, Eq, Debug, Structural)]
pub struct XboxFinder {
    /// Whether a controller has been handed on already.
    pub done: bool,
}

impl XboxFinder {
    pub fn new() -> (f: Self)
        ensures
            !f.done,
    {
        XboxFinder { done: false }
    }

    /// Look through one batch of advertising reports (the payloads of the
    /// reports that decoded, in order, up to the first that did not). Returns
    /// the index of the first report from a controller, and from then on
    /// reports nothing more.
    pub fn on_adv_reports(&mut self, reports: &Vec<Vec<u8>>) -> (found: Option<usize>)
        ensures
            finder_step(old(self).done, reports.deep_view(), final(self).done, found),
    {
        if self.done {
            return None;
        }
        let ghost v = reports.deep_view();
        let mut i: usize = 0;
        while i < reports.len()
            invariant
                !self.done,
                !old(self).done,
                v == reports.deep_view(),
                v.len() == reports@.len(),
                0 <= i <= reports@.len(),
                forall|j: int| 0 <= j < i ==> !report_marks_xbox(#[trigger] v[j]),
            decreases reports.len() - i,
        {
            assert(v[i as int] == reports@[i as int]@);
            if adv_is_xbox(reports[i].as_slice()) {
                self.done = true;
                return Some(i);
            }
            i = i + 1;
        }
        None
    }
}

/// The text of a MAC address: the six bytes from last to first, each as two
/// lowercase hex digits.
pub open spec fn mac_chars(m: Seq<u8>) -> Seq<char> {
    hex_byte(m[5]) + hex_byte(m[4]) + hex_byte(m[3]) + hex_byte(m[2]) + hex_byte(m[1]) + hex_byte(
        m[0],
    )
}

/// The controller's MAC as shown on the display (most significant byte
/// first).
pub fn mac_text(m: &[u8; 6]) -> (s: String)
    ensures
        s@ == mac_chars(m@),
        s@.len() <= OLED_COLS,
{
    let mut s = String::new();
    push_hex_byte(&mut s, m[5]);
    push_hex_byte(&mut s, m[4]);
    push_hex_byte(&mut s, m[3]);
    push_hex_byte(&mut s, m[2]);
    push_hex_byte(&mut s, m[1]);
    push_hex_byte(&mut s, m[0]);
    assert(s@ =~= mac_chars(m@));
    s
}

// ---------------------------------------------------------------------------
// HID reports on the display
// ---------------------------------------------------------------------------

/// Whether a GATT characteristic is one whose notifications to enable: an
/// input Report characteristic (16-bit UUID 0x2A4D) that has a CCCD.
pub fn wants_subscription(uuid16: Option<u16>, has_cccd: bool) -> (r: bool)
    ensures
        r == (uuid16 == Some(HID_REPORT_UUID) && has_cccd),
{
    match uuid16 {
        Some(u) => u == HID_REPORT_UUID && has_cccd,
        None => false,
    }
}

/// The hex rendering of a byte sequence, two lowercase digits per byte.
pub open spec fn hex_bytes(b: Seq<u8>) -> Seq<char>
    decreases b.len(),
{
    if b.len() == 0 {
        Seq::empty()
    } else {
        hex_bytes(b.drop_last()) + hex_byte(b.last())
    }
}

/// The first eight bytes of a report (the stick axes on an Xbox report) as
/// hex, for one display row.
pub fn report_bytes_text(data: &[u8]) -> (s: String)
    ensures
        s@ == hex_bytes(data@.take(
            if data@.len() < HID_BYTES_SHOWN {
                data@.len() as int
            } else {
                HID_BYTES_SHOWN as int
            },
        )),
        s@.len() <= OLED_COLS,
        data@.len() >= 8 ==> s@.len() == 16,
        data@.len() < 8 ==> s@.len() == 2 * data@.len(),
{
    let n = if data.len() < HID_BYTES_SHOWN {
        data.len()
    } else {
        HID_BYTES_SHOWN
    };
    let mut s = String::new();
    let mut i: usize = 0;
    while i < n
        invariant
            n <= data@.len(),
            n <= HID_BYTES_SHOWN,
            0 <= i <= n,
            s@ == hex_bytes(data@.take(i as int)),
            s@.len() == 2 * i,
        decreases n - i,
    {
        push_hex_byte(&mut s, data[i]);
        assert(data@.take(i + 1).drop_last() =~= data@.take(i as int));
        i = i + 1;
    }
    s
}

/// The label of the report characteristic being shown.
pub fn report_handle_text(handle: u16) -> (s: String)
    ensures
        s@ == "rpt h"@ + hex_word(handle),
        s@.len() <= OLED_COLS,
{
    let mut s = String::new();
    s.append("rpt h");
    push_hex_word(&mut s, handle);
    proof {
        reveal_strlit("rpt h");
    }
    s
}

/// Whether and how to redraw a report notification.
#[derive(Clone, Copy, PartialEq, Eq, Debug, Structural)]
pub enum HidRedraw {
    /// Too soon after the last redraw: drain the notification only.
    Skip,
    /// Draw the report bytes, and the handle label first when it changed.
    Draw { relabel: bool },
}

/// Throttles display updates: a gamepad notifies far faster than the panel
/// can repaint, so every notification is drained but the display is only
/// redrawn once the minimum gap has passed.
#[derive(Clone, Copy, PartialEq, Eq, Debug, Structural)]
pub struct HidDrawState {
    /// Clock ticks at the last redraw (or at the start).
    pub last_ticks: u64,
    /// Minimum ticks between redraws.
    pub min_gap_ticks: u64,
    /// The report handle whose label is on the display.
    pub shown_handle: Option<u16>,
}

impl HidDrawState {
    pub fn new(now_ticks: u64, min_gap_ticks: u64) -> (st: Self)
        ensures
            st.last_ticks == now_ticks,
            st.min_gap_ticks == min_gap_ticks,
            st.shown_handle is None,
    {
        HidDrawState { last_ticks: now_ticks, min_gap_ticks, shown_handle: None }
    }

    /// Decide what to do with a notification on `handle` arriving at
    /// `now_ticks` (the clock never runs backwards).
    pub fn on_notification(&mut self, now_ticks: u64, handle: u16) -> (r: HidRedraw)
        requires
            old(self).last_ticks <= now_ticks,
        ensures
            now_ticks - old(self).last_ticks < old(self).min_gap_ticks ==> r == HidRedraw::Skip
                && *final(self) == *old(self),
            now_ticks - old(self).last_ticks >= old(self).min_gap_ticks ==> r == (HidRedraw::Draw {
                relabel: old(self).shown_handle != Some(handle),
            }) && final(self).last_ticks == now_ticks && final(self).shown_handle == Some(handle)
                && final(self).min_gap_ticks == old(self).min_gap_ticks,
    {
        if now_ticks - self.last_ticks < self.min_gap_ticks {
            return HidRedraw::Skip;
        }
        self.last_ticks = now_ticks;
        let relabel = match self.shown_handle {
            Some(h) => h != handle,
            None => true,
        };
        self.shown_handle = Some(handle);
        HidRedraw::Draw { relabel }
    }
}

/// Outcomes of setting up the HID report stream that show on the display.
#[derive(Clone, Copy, PartialEq, Eq, Debug, Structural)]
pub enum HidStatus {
    NoHidService,
    CharacteristicsError,
    NoReportSubscribed,
    Live,
    ListenError,
}

pub open spec fn hid_status_chars(s: HidStatus) -> Seq<char> {
    match s {
        HidStatus::NoHidService => "NO HID SVC"@,
        HidStatus::CharacteristicsError => "CHAR ERR"@,
        HidStatus::NoReportSubscribed => "NO HID RPT"@,
        HidStatus::Live => "HID LIVE"@,
        HidStatus::ListenError => "LISTEN ERR"@,
    }
}

impl HidStatus {
    /// The status line for this outcome.
    pub fn text(self) -> (t: &'static str)
        ensures
            t@ == hid_status_chars(self),
    {
        match self {
            HidStatus::NoHidService => "NO HID SVC",
            HidStatus::CharacteristicsError => "CHAR ERR",
            HidStatus::NoReportSubscribed => "NO HID RPT",
            HidStatus::Live => "HID LIVE",
            HidStatus::ListenError => "LISTEN ERR",
        }
    }
}

/// The setup outcome once notifications were requested on `subscribed`
/// report characteristics: none means there is no report to read.
pub fn subscription_status(subscribed: u8) -> (s: HidStatus)
    ensures
        s == (if subscribed == 0 {
            HidStatus::NoReportSubscribed
        } else {
            HidStatus::Live
        }),
{
    if subscribed == 0 {
        HidStatus::NoReportSubscribed
    } else {
        HidStatus::Live
    }
}

} // verus!
