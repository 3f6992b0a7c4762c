//! Encoding of the feed model back into the GTFS-Realtime protobuf wire
//! format, in canonical field order. The spec functions below state the
//! emitted byte sequence exactly; every writer is proved against them.

use vstd::prelude::*;
use vstd::slice::slice_to_vec;
use vstd::utf8::encode_utf8;

use crate::feed::{
    Alert, AlertV, EntitySelector, EntitySelectorV, FeedEntity, FeedEntityV, FeedHeaderV,
    FeedMessage, FeedMessageV, Position, TripDescriptor, TripDescriptorV, TripUpdate, TripUpdateV,
    VehicleDescriptor, VehicleDescriptorV, VehiclePosition, VehiclePositionV, ov,
};

verus! {

/// The base-128 little-endian encoding of `v`.
pub open spec fn sp_varint_bytes(v: u64) -> Seq<u8>
    decreases v,
{
    if v < 128 {
        seq![v as u8]
    } else {
        seq![((v % 128) + 128) as u8] + sp_varint_bytes(v / 128)
    }
}

/// Four little-endian bytes of a 32-bit pattern.
pub open spec fn sp_fixed32_bytes(v: u32) -> Seq<u8> {
    seq![
        (v % 256) as u8,
        ((v / 256) % 256) as u8,
        ((v / 65536) % 256) as u8,
        ((v / 16777216) % 256) as u8,
    ]
}

/// Eight little-endian bytes of a 64-bit pattern.
pub open spec fn sp_fixed64_bytes(v: u64) -> Seq<u8> {
    sp_fixed32_bytes((v % 0x100000000) as u32) + sp_fixed32_bytes((v / 0x100000000) as u32)
}

/// A length-delimited field: tag, payload length, payload.
pub open spec fn sp_len_field(tag: u64, payload: Seq<u8>) -> Seq<u8> {
    sp_varint_bytes(tag) + sp_varint_bytes(payload.len() as u64) + payload
}

/// An optional string field.
pub open spec fn sp_str_field(tag: u64, o: Option<Seq<char>>) -> Seq<u8> {
    match o {
        Some(t) => sp_len_field(tag, encode_utf8(t)),
        None => Seq::empty(),
    }
}

/// An optional varint field.
pub open spec fn sp_varint_field(tag: u64, o: Option<u64>) -> Seq<u8> {
    match o {
        Some(v) => sp_varint_bytes(tag) + sp_varint_bytes(v),
        None => Seq::empty(),
    }
}

/// An optional four-byte field.
pub open spec fn sp_fixed32_field(tag: u64, o: Option<u32>) -> Seq<u8> {
    match o {
        Some(v) => sp_varint_bytes(tag) + sp_fixed32_bytes(v),
        None => Seq::empty(),
    }
}

/// A TripDescriptor payload in field order: trip_id 1, start_time 2,
/// start_date 3, schedule_relationship 4, route_id 5, direction_id 6.
pub open spec fn sp_trip_descriptor_bytes(t: TripDescriptorV) -> Seq<u8> {
    sp_str_field(10, t.trip_id) + sp_str_field(18, t.start_time) + sp_str_field(26, t.start_date)
        + sp_varint_field(32, t.schedule_relationship) + sp_str_field(42, t.route_id)
        + sp_varint_field(48, t.direction_id)
}

/// A VehicleDescriptor payload: id 1, label 2, license_plate 3,
/// wheelchair_accessible 4.
pub open spec fn sp_vehicle_descriptor_bytes(v: VehicleDescriptorV) -> Seq<u8> {
    sp_str_field(10, v.id) + sp_str_field(18, v.label) + sp_str_field(26, v.license_plate)
        + sp_varint_field(32, v.wheelchair_accessible)
}

/// A Position payload: latitude 1, longitude 2, bearing 3, odometer 4,
/// speed 5.
pub open spec fn sp_position_bytes(p: Position) -> Seq<u8> {
    sp_varint_bytes(13) + sp_fixed32_bytes(p.latitude_bits) + sp_varint_bytes(21)
        + sp_fixed32_bytes(p.longitude_bits) + sp_fixed32_field(29, p.bearing_bits) + (match p
        .odometer_bits {
        Some(v) => sp_varint_bytes(33) + sp_fixed64_bytes(v),
        None => Seq::empty(),
    }) + sp_fixed32_field(45, p.speed_bits)
}

/// An optional embedded message field.
pub open spec fn sp_opt_msg(tag: u64, o: Option<Seq<u8>>) -> Seq<u8> {
    match o {
        Some(payload) => sp_len_field(tag, payload),
        None => Seq::empty(),
    }
}

/// A VehiclePosition payload: trip 1, position 2, timestamp 5, vehicle 8.
pub open spec fn sp_vehicle_position_bytes(v: VehiclePositionV) -> Seq<u8> {
    sp_opt_msg(
        10,
        match v.trip {
            Some(t) => Some(sp_trip_descriptor_bytes(t)),
            None => None,
        },
    ) + sp_opt_msg(
        18,
        match v.position {
            Some(p) => Some(sp_position_bytes(p)),
            None => None,
        },
    ) + sp_varint_field(40, v.timestamp) + sp_opt_msg(
        66,
        match v.vehicle {
            Some(d) => Some(sp_vehicle_descriptor_bytes(d)),
            None => None,
        },
    )
}

/// A TripUpdate payload: trip 1, vehicle 3, timestamp 4, delay 5.
pub open spec fn sp_trip_update_bytes(t: TripUpdateV) -> Seq<u8> {
    sp_opt_msg(
        10,
        match t.trip {
            Some(d) => Some(sp_trip_descriptor_bytes(d)),
            None => None,
        },
    ) + sp_opt_msg(
        26,
        match t.vehicle {
            Some(d) => Some(sp_vehicle_descriptor_bytes(d)),
            None => None,
        },
    ) + sp_varint_field(32, t.timestamp) + sp_varint_field(40, t.delay)
}

/// An EntitySelector payload: agency_id 1, route_id 2, trip 4 (trip_id
/// only), stop_id 5.
pub open spec fn sp_entity_selector_bytes(e: EntitySelectorV) -> Seq<u8> {
    sp_str_field(10, e.agency_id) + sp_str_field(18, e.route_id) + (match e.trip_id {
        Some(t) => sp_len_field(34, sp_str_field(10, Some(t))),
        None => Seq::empty(),
    }) + sp_str_field(42, e.stop_id)
}

/// A TranslatedString field holding one translation with the given text.
pub open spec fn sp_translated_field(tag: u64, o: Option<Seq<char>>) -> Seq<u8> {
    match o {
        Some(t) => sp_len_field(tag, sp_len_field(10, sp_str_field(10, Some(t)))),
        None => Seq::empty(),
    }
}

/// The informed-entity fields of an alert, in order.
pub open spec fn sp_selectors_bytes(es: Seq<EntitySelectorV>) -> Seq<u8>
    decreases es.len(),
{
    if es.len() == 0 {
        Seq::empty()
    } else {
        sp_selectors_bytes(es.drop_last()) + sp_len_field(42, sp_entity_selector_bytes(es.last()))
    }
}

/// An Alert payload: informed_entity 5, cause 6, effect 7, header_text 10,
/// description_text 11.
pub open spec fn sp_alert_bytes(a: AlertV) -> Seq<u8> {
    sp_selectors_bytes(a.informed_entity) + sp_varint_field(48, a.cause) + sp_varint_field(
        56,
        a.effect,
    ) + sp_translated_field(82, a.header_text) + sp_translated_field(90, a.description_text)
}

/// A FeedEntity payload: id 1, is_deleted 2, trip_update 3, vehicle 4,
/// alert 5.
pub open spec fn sp_feed_entity_bytes(e: FeedEntityV) -> Seq<u8> {
    sp_str_field(10, Some(e.id)) + (if e.is_deleted {
        sp_varint_bytes(16) + sp_varint_bytes(1)
    } else {
        Seq::empty()
    }) + sp_opt_msg(
        26,
        match e.trip_update {
            Some(t) => Some(sp_trip_update_bytes(t)),
            None => None,
        },
    ) + sp_opt_msg(
        34,
        match e.vehicle {
            Some(v) => Some(sp_vehicle_position_bytes(v)),
            None => None,
        },
    ) + sp_opt_msg(
        42,
        match e.alert {
            Some(a) => Some(sp_alert_bytes(a)),
            None => None,
        },
    )
}

/// A FeedHeader payload: gtfs_realtime_version 1, incrementality 2,
/// timestamp 3.
pub open spec fn sp_feed_header_bytes(h: FeedHeaderV) -> Seq<u8> {
    sp_str_field(10, h.gtfs_realtime_version) + sp_varint_field(16, h.incrementality)
        + sp_varint_field(24, h.timestamp)
}

/// The entity fields of a feed, in order.
pub open spec fn sp_entities_bytes(es: Seq<FeedEntityV>) -> Seq<u8>
    decreases es.len(),
{
    if es.len() == 0 {
        Seq::empty()
    } else {
        sp_entities_bytes(es.drop_last()) + sp_len_field(18, sp_feed_entity_bytes(es.last()))
    }
}

/// A whole FeedMessage: header 1, entities 2.
pub open spec fn sp_feed_bytes(m: FeedMessageV) -> Seq<u8> {
    sp_len_field(10, sp_feed_header_bytes(m.header)) + sp_entities_bytes(m.entities)
}

/// Appends the varint encoding of `v`.
fn write_varint(out: &mut Vec<u8>, v: u64)
    ensures
        final(out)@ == old(out)@ + sp_varint_bytes(v),
{
    let mut x = v;
    while x >= 128
        invariant
            out@ + sp_varint_bytes(x) == old(out)@ + sp_varint_bytes(v),
        decreases x,
    {
        out.push(((x % 128) + 128) as u8);
        x = x / 128;
    }
    out.push(x as u8);
    assert(out@ =~= old(out)@ + sp_varint_bytes(v));
}

/// Appends the four little-endian bytes of `v`.
fn write_fixed32(out: &mut Vec<u8>, v: u32)
    ensures
        final(out)@ == old(out)@ + sp_fixed32_bytes(v),
{
    out.push((v % 256) as u8);
    out.push(((v / 256) % 256) as u8);
    out.push(((v / 65536) % 256) as u8);
    out.push(((v / 16777216) % 256) as u8);
    assert(out@ =~= old(out)@ + sp_fixed32_bytes(v));
}

/// Appends the eight little-endian bytes of `v`.
fn write_fixed64(out: &mut Vec<u8>, v: u64)
    ensures
        final(out)@ == old(out)@ + sp_fixed64_bytes(v),
{
    write_fixed32(out, (v % 0x100000000) as u32);
    write_fixed32(out, (v / 0x100000000) as u32);
    assert(out@ =~= old(out)@ + sp_fixed64_bytes(v));
}

/// Appends a whole byte buffer as a length-delimited field.
fn write_len_field(out: &mut Vec<u8>, tag: u64, payload: Vec<u8>)
    ensures
        final(out)@ == old(out)@ + sp_len_field(tag, payload@),
{
    write_varint(out, tag);
    write_varint(out, payload.len() as u64);
    let mut p = payload;
    out.append(&mut p);
    assert(out@ =~= old(out)@ + sp_len_field(tag, payload@));
}

/// Appends an optional string field.
fn write_str_field(out: &mut Vec<u8>, tag: u64, o: &Option<String>)
    ensures
        final(out)@ == old(out)@ + sp_str_field(tag, ov(*o)),
{
    match o {
        Some(t) => {
            let bytes = slice_to_vec(t.as_str().as_bytes());
            write_len_field(out, tag, bytes);
            assert(out@ =~= old(out)@ + sp_str_field(tag, ov(*o)));
        },
        None => {
            assert(out@ =~= old(out)@ + sp_str_field(tag, ov(*o)));
        },
    }
}

/// Appends an optional varint field.
fn write_varint_field(out: &mut Vec<u8>, tag: u64, o: &Option<u64>)
    ensures
        final(out)@ == old(out)@ + sp_varint_field(tag, *o),
{
    match o {
        Some(v) => {
            write_varint(out, tag);
            write_varint(out, *v);
            assert(out@ =~= old(out)@ + sp_varint_field(tag, *o));
        },
        None => {
            assert(out@ =~= old(out)@ + sp_varint_field(tag, *o));
        },
    }
}

/// Appends an optional four-byte field.
fn write_fixed32_field(out: &mut Vec<u8>, tag: u64, o: &Option<u32>)
    ensures
        final(out)@ == old(out)@ + sp_fixed32_field(tag, *o),
{
    match o {
        Some(v) => {
            write_varint(out, tag);
            write_fixed32(out, *v);
            assert(out@ =~= old(out)@ + sp_fixed32_field(tag, *o));
        },
        None => {
            assert(out@ =~= old(out)@ + sp_fixed32_field(tag, *o));
        },
    }
}

/// Builds the payload of a TripDescriptor.
fn trip_descriptor_payload(t: &TripDescriptor) -> (r: Vec<u8>)
    ensures
        r@ == sp_trip_descriptor_bytes(t@),
{
    let mut buf: Vec<u8> = Vec::new();
    write_str_field(&mut buf, 10, &t.trip_id);
    write_str_field(&mut buf, 18, &t.start_time);
    write_str_field(&mut buf, 26, &t.start_date);
    write_varint_field(&mut buf, 32, &t.schedule_relationship);
    write_str_field(&mut buf, 42, &t.route_id);
    write_varint_field(&mut buf, 48, &t.direction_id);
    assert(buf@ =~= sp_trip_descriptor_bytes(t@));
    buf
}

/// Builds the payload of a VehicleDescriptor.
fn vehicle_descriptor_payload(v: &VehicleDescriptor) -> (r: Vec<u8>)
    ensures
        r@ == sp_vehicle_descriptor_bytes(v@),
{
    let mut buf: Vec<u8> = Vec::new();
    write_str_field(&mut buf, 10, &v.id);
    write_str_field(&mut buf, 18, &v.label);
    write_str_field(&mut buf, 26, &v.license_plate);
    write_varint_field(&mut buf, 32, &v.wheelchair_accessible);
    assert(buf@ =~= sp_vehicle_descriptor_bytes(v@));
    buf
}

/// Builds the payload of a Position.
fn position_payload(p: &Position) -> (r: Vec<u8>)
    ensures
        r@ == sp_position_bytes(*p),
{
    let mut buf: Vec<u8> = Vec::new();
    write_varint(&mut buf, 13);
    write_fixed32(&mut buf, p.latitude_bits);
    write_varint(&mut buf, 21);
    write_fixed32(&mut buf, p.longitude_bits);
    write_fixed32_field(&mut buf, 29, &p.bearing_bits);
    match &p.odometer_bits {
        Some(v) => {
            write_varint(&mut buf, 33);
            write_fixed64(&mut buf, *v);
        },
        None => {},
    }
    write_fixed32_field(&mut buf, 45, &p.speed_bits);
    assert(buf@ =~= sp_position_bytes(*p));
    buf
}

/// Builds the payload of a VehiclePosition.
fn vehicle_position_payload(v: &VehiclePosition) -> (r: Vec<u8>)
    ensures
        r@ == sp_vehicle_position_bytes(v@),
{
    let mut buf: Vec<u8> = Vec::new();
    match &v.trip {
        Some(t) => {
            let p = trip_descriptor_payload(t);
            write_len_field(&mut buf, 10, p);
        },
        None => {},
    }
    match &v.position {
        Some(p) => {
            let pp = position_payload(p);
            write_len_field(&mut buf, 18, pp);
        },
        None => {},
    }
    write_varint_field(&mut buf, 40, &v.timestamp);
    match &v.vehicle {
        Some(d) => {
            let p = vehicle_descriptor_payload(d);
            write_len_field(&mut buf, 66, p);
        },
        None => {},
    }
    assert(buf@ =~= sp_vehicle_position_bytes(v@));
    buf
}

/// Builds the payload of a TripUpdate.
fn trip_update_payload(t: &TripUpdate) -> (r: Vec<u8>)
    ensures
        r@ == sp_trip_update_bytes(t@),
{
    let mut buf: Vec<u8> = Vec::new();
    match &t.trip {
        Some(d) => {
            let p = trip_descriptor_payload(d);
            write_len_field(&mut buf, 10, p);
        },
        None => {},
    }
    match &t.vehicle {
        Some(d) => {
            let p = vehicle_descriptor_payload(d);
            write_len_field(&mut buf, 26, p);
        },
        None => {},
    }
    write_varint_field(&mut buf, 32, &t.timestamp);
    write_varint_field(&mut buf, 40, &t.delay);
    assert(buf@ =~= sp_trip_update_bytes(t@));
    buf
}

/// Builds the payload of an EntitySelector.
fn entity_selector_payload(e: &EntitySelector) -> (r: Vec<u8>)
    ensures
        r@ == sp_entity_selector_bytes(e@),
{
    let mut buf: Vec<u8> = Vec::new();
    write_str_field(&mut buf, 10, &e.agency_id);
    write_str_field(&mut buf, 18, &e.route_id);
    match &e.trip_id {
        Some(_) => {
            let mut trip: Vec<u8> = Vec::new();
            write_str_field(&mut trip, 10, &e.trip_id);
            write_len_field(&mut buf, 34, trip);
        },
        None => {},
    }
    write_str_field(&mut buf, 42, &e.stop_id);
    assert(buf@ =~= sp_entity_selector_bytes(e@));
    buf
}

/// Appends a TranslatedString field with one translation.
fn write_translated_field(out: &mut Vec<u8>, tag: u64, o: &Option<String>)
    ensures
        final(out)@ == old(out)@ + sp_translated_field(tag, ov(*o)),
{
    match o {
        Some(_) => {
            let mut translation: Vec<u8> = Vec::new();
            write_str_field(&mut translation, 10, o);
            let mut ts: Vec<u8> = Vec::new();
            write_len_field(&mut ts, 10, translation);
            write_len_field(out, tag, ts);
            assert(out@ =~= old(out)@ + sp_translated_field(tag, ov(*o)));
        },
        None => {
            assert(out@ =~= old(out)@ + sp_translated_field(tag, ov(*o)));
        },
    }
}

/// Builds the payload of an Alert.
fn alert_payload(a: &Alert) -> (r: Vec<u8>)
    ensures
        r@ == sp_alert_bytes(a@),
{
    let mut buf: Vec<u8> = Vec::new();
    let mut k: usize = 0;
    while k < a.informed_entity.len()
        invariant
            k <= a.informed_entity@.len(),
            buf@ == sp_selectors_bytes(
                a.informed_entity@.map_values(|s: EntitySelector| s@).subrange(0, k as int),
            ),
        decreases a.informed_entity@.len() - k,
    {
        let ghost views = a.informed_entity@.map_values(|s: EntitySelector| s@);
        let p = entity_selector_payload(&a.informed_entity[k]);
        write_len_field(&mut buf, 42, p);
        proof {
            assert(views.subrange(0, k + 1 as int).drop_last() =~= views.subrange(0, k as int));
            assert(views.subrange(0, k + 1 as int).last() == views[k as int]);
        }
        k = k + 1;
    }
    proof {
        assert(a.informed_entity@.map_values(|s: EntitySelector| s@).subrange(
            0,
            a.informed_entity@.len() as int,
        ) =~= a.informed_entity@.map_values(|s: EntitySelector| s@));
    }
    write_varint_field(&mut buf, 48, &a.cause);
    write_varint_field(&mut buf, 56, &a.effect);
    write_translated_field(&mut buf, 82, &a.header_text);
    write_translated_field(&mut buf, 90, &a.description_text);
    assert(buf@ =~= sp_alert_bytes(a@));
    buf
}

/// Builds the payload of a FeedEntity.
fn feed_entity_payload(e: &FeedEntity) -> (r: Vec<u8>)
    ensures
        r@ == sp_feed_entity_bytes(e@),
{
    let mut buf: Vec<u8> = Vec::new();
    let id = Some(e.id.clone());
    write_str_field(&mut buf, 10, &id);
    if e.is_deleted {
        write_varint(&mut buf, 16);
        write_varint(&mut buf, 1);
    }
    match &e.trip_update {
        Some(t) => {
            let p = trip_update_payload(t);
            write_len_field(&mut buf, 26, p);
        },
        None => {},
    }
    match &e.vehicle {
        Some(v) => {
            let p = vehicle_position_payload(v);
            write_len_field(&mut buf, 34, p);
        },
        None => {},
    }
    match &e.alert {
        Some(a) => {
            let p = alert_payload(a);
            write_len_field(&mut buf, 42, p);
        },
        None => {},
    }
    assert(buf@ =~= sp_feed_entity_bytes(e@));
    buf
}

/// Encodes a whole feed back to wire bytes, in canonical field order.
pub fn encode_feed_message(m: &FeedMessage) -> (r: Vec<u8>)
    ensures
        r@ == sp_feed_bytes(m@),
{
    let mut out: Vec<u8> = Vec::new();
    let mut header: Vec<u8> = Vec::new();
    write_str_field(&mut header, 10, &m.header.gtfs_realtime_version);
    write_varint_field(&mut header, 16, &m.header.incrementality);
    write_varint_field(&mut header, 24, &m.header.timestamp);
    assert(header@ =~= sp_feed_header_bytes(m.header@));
    write_len_field(&mut out, 10, header);
    let mut k: usize = 0;
    while k < m.entities.len()
        invariant
            k <= m.entities@.len(),
            out@ == sp_len_field(10, sp_feed_header_bytes(m.header@)) + sp_entities_bytes(
                m.entities@.map_values(|e: FeedEntity| e@).subrange(0, k as int),
            ),
        decreases m.entities@.len() - k,
    {
        let ghost views = m.entities@.map_values(|e: FeedEntity| e@);
        let p = feed_entity_payload(&m.entities[k]);
        write_len_field(&mut out, 18, p);
        proof {
            assert(views.subrange(0, k + 1 as int).drop_last() =~= views.subrange(0, k as int));
            assert(views.subrange(0, k + 1 as int).last() == views[k as int]);
        }
        k = k + 1;
    }
    proof {
        assert(m.entities@.map_values(|e: FeedEntity| e@).subrange(
            0,
            m.entities@.len() as int,
        ) =~= m.entities@.map_values(|e: FeedEntity| e@));
    }
    assert(out@ =~= sp_feed_bytes(m@));
    out
}

/// Encodes one entity alone; the deduplicator hashes these encodings.
pub fn encode_feed_entity(e: &FeedEntity) -> (r: Vec<u8>)
    ensures
        r@ == sp_feed_entity_bytes(e@),
{
    feed_entity_payload(e)
}

} // verus!
