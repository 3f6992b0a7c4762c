//! Decoding of the GTFS-Realtime protobuf wire format.
//!
//! The decoder reads the subset of the format that the pipeline works with
//! (see `feed`): unknown fields are skipped, mis-typed fields are treated by
//! their wire type, strings that are not UTF-8 and truncated fields reject
//! the whole payload, exactly as a strict protobuf reader would.
//!
//! Wire types: 0 varint, 1 eight bytes, 2 length-delimited, 5 four bytes.
//! Group wire types are rejected.

use vstd::prelude::*;
use vstd::slice::{slice_subrange, slice_to_vec};

use crate::feed::{
    Alert, AlertV, EntitySelector, EntitySelectorV, FeedEntity, FeedEntityV, FeedHeader,
    FeedHeaderV, FeedMessage, FeedMessageV, Position, TripDescriptor, TripDescriptorV, TripUpdate,
    TripUpdateV, VehicleDescriptor, VehicleDescriptorV, VehiclePosition, VehiclePositionV,
};
use crate::trusted::utf8_to_string;

verus! {

/// A payload that the wire reader rejects.
#[derive(Clone, Copy, Debug, PartialEq, Eq)]
pub struct DecodeError;

/// What one varint read yields: the value and the index after it.
/// The spec functions below state the wire reading itself; every reader
/// is proved to return exactly what they say.
pub open spec fn sp_varint_at(s: Seq<u8>, i: int, end: int, budget: nat) -> Option<(u64, int)>
    decreases budget,
{
    if budget == 0 || i >= end || i < 0 || end > s.len() {
        None
    } else {
        let b = s[i];
        if b < 0x80 {
            Some((b as u64, i + 1))
        } else {
            match sp_varint_at(s, i + 1, end, (budget - 1) as nat) {
                None => None,
                Some((hi, j)) => if hi > (u64::MAX >> 7) {
                    None
                } else {
                    Some((((hi << 7) | ((b & 0x7f) as u64)), j))
                },
            }
        }
    }
}

/// One varint, at most ten bytes.
pub open spec fn sp_parse_varint(s: Seq<u8>, i: int, end: int) -> Option<(u64, int)> {
    sp_varint_at(s, i, end, 10)
}

/// Four little-endian bytes as a 32-bit pattern.
pub open spec fn sp_parse_fixed32(s: Seq<u8>, i: int, end: int) -> Option<(u32, int)> {
    if end - i < 4 || i < 0 || end > s.len() {
        None
    } else {
        Some(
            (
                (s[i] as u32) | ((s[i + 1] as u32) << 8) | ((s[i + 2] as u32) << 16) | ((s[i
                    + 3] as u32) << 24),
                i + 4,
            ),
        )
    }
}

/// Eight little-endian bytes as a 64-bit pattern.
pub open spec fn sp_parse_fixed64(s: Seq<u8>, i: int, end: int) -> Option<(u64, int)> {
    match sp_parse_fixed32(s, i, end) {
        None => None,
        Some((lo, j)) => match sp_parse_fixed32(s, j, end) {
            None => None,
            Some((hi, k)) => Some(((lo as u64) | ((hi as u64) << 32), k)),
        },
    }
}

/// A length prefix and the bounds of the payload it announces.
pub open spec fn sp_parse_len_region(s: Seq<u8>, i: int, end: int) -> Option<(int, int)> {
    match sp_parse_varint(s, i, end) {
        None => None,
        Some((len, j)) => if len > (end - j) as u64 {
            None
        } else {
            Some((j, j + len as int))
        },
    }
}

/// The index after one skipped field of the given wire type.
pub open spec fn sp_skip_field(s: Seq<u8>, i: int, end: int, wire: u64) -> Option<int> {
    if wire == 0 {
        match sp_parse_varint(s, i, end) {
            None => None,
            Some((v, j)) => Some(j),
        }
    } else if wire == 1 {
        if end - i < 8 {
            None
        } else {
            Some(i + 8)
        }
    } else if wire == 2 {
        match sp_parse_len_region(s, i, end) {
            None => None,
            Some((ds, de)) => Some(de),
        }
    } else if wire == 5 {
        if end - i < 4 {
            None
        } else {
            Some(i + 4)
        }
    } else {
        None
    }
}

/// What a string region decodes to: its characters, where the bytes are
/// valid UTF-8.
pub open spec fn sp_read_string(s: Seq<u8>, ds: int, de: int) -> Option<Seq<char>> {
    if vstd::utf8::valid_utf8(s.subrange(ds, de)) {
        Some(vstd::utf8::decode_utf8(s.subrange(ds, de)))
    } else {
        None
    }
}

/// Reads one base-128 varint from `s` between `i` and `end`.
/// At most ten bytes are consumed; longer runs are rejected, as are
/// encodings whose value does not fit in 64 bits.
fn parse_varint_budget(s: &[u8], i: usize, end: usize, budget: usize) -> (r: Option<(u64, usize)>)
    requires
        i <= end,
        end <= s@.len(),
    ensures
        r matches Some(p) ==> i < p.1 <= end,
        r is None ==> sp_varint_at(s@, i as int, end as int, budget as nat) is None,
        r matches Some(p) ==> sp_varint_at(s@, i as int, end as int, budget as nat) == Some(
            (p.0, p.1 as int),
        ),
    decreases budget,
{
    if budget == 0 || i >= end {
        return None;
    }
    let b: u8 = *slice_index_get_ref(s, i);
    if b < 0x80 {
        Some((b as u64, i + 1))
    } else {
        match parse_varint_budget(s, i + 1, end, budget - 1) {
            None => None,
            Some((hi, j)) => {
                if hi > (u64::MAX >> 7) {
                    None
                } else {
                    Some(((hi << 7) | ((b & 0x7f) as u64), j))
                }
            },
        }
    }
}

/// Borrow one byte of a slice.
fn slice_index_get_ref(s: &[u8], i: usize) -> (r: &u8)
    requires
        i < s@.len(),
    ensures
        *r == s@[i as int],
{
    vstd::slice::slice_index_get(s, i)
}

/// Reads one varint; at most ten bytes.
fn parse_varint(s: &[u8], i: usize, end: usize) -> (r: Option<(u64, usize)>)
    requires
        i <= end,
        end <= s@.len(),
    ensures
        r matches Some(p) ==> i < p.1 <= end,
        r is None ==> sp_parse_varint(s@, i as int, end as int) is None,
        r matches Some(p) ==> sp_parse_varint(s@, i as int, end as int) == Some((p.0, p.1 as int)),
{
    parse_varint_budget(s, i, end, 10)
}

/// Reads four little-endian bytes as a `u32` bit pattern.
fn parse_fixed32(s: &[u8], i: usize, end: usize) -> (r: Option<(u32, usize)>)
    requires
        i <= end,
        end <= s@.len(),
    ensures
        r matches Some(p) ==> i < p.1 <= end,
        r is None ==> sp_parse_fixed32(s@, i as int, end as int) is None,
        r matches Some(p) ==> sp_parse_fixed32(s@, i as int, end as int) == Some(
            (p.0, p.1 as int),
        ),
{
    if end - i < 4 {
        return None;
    }
    let b0 = *slice_index_get_ref(s, i) as u32;
    let b1 = *slice_index_get_ref(s, i + 1) as u32;
    let b2 = *slice_index_get_ref(s, i + 2) as u32;
    let b3 = *slice_index_get_ref(s, i + 3) as u32;
    Some((b0 | (b1 << 8) | (b2 << 16) | (b3 << 24), i + 4))
}

/// Reads eight little-endian bytes as a `u64` bit pattern.
fn parse_fixed64(s: &[u8], i: usize, end: usize) -> (r: Option<(u64, usize)>)
    requires
        i <= end,
        end <= s@.len(),
    ensures
        r matches Some(p) ==> i < p.1 <= end,
        r is None ==> sp_parse_fixed64(s@, i as int, end as int) is None,
        r matches Some(p) ==> sp_parse_fixed64(s@, i as int, end as int) == Some(
            (p.0, p.1 as int),
        ),
{
    if end - i < 8 {
        return None;
    }
    let lo = match parse_fixed32(s, i, end) {
        Some(p) => p,
        None => {
            return None;
        },
    };
    let hi = match parse_fixed32(s, lo.1, end) {
        Some(p) => p,
        None => {
            return None;
        },
    };
    Some(((lo.0 as u64) | ((hi.0 as u64) << 32), hi.1))
}

/// Reads a length prefix and returns the bounds of the payload it announces.
fn parse_len_region(s: &[u8], i: usize, end: usize) -> (r: Option<(usize, usize)>)
    requires
        i <= end,
        end <= s@.len(),
    ensures
        r matches Some(p) ==> i < p.0 <= p.1 <= end,
        r is None ==> sp_parse_len_region(s@, i as int, end as int) is None,
        r matches Some(p) ==> sp_parse_len_region(s@, i as int, end as int) == Some(
            (p.0 as int, p.1 as int),
        ),
{
    let (len, j) = match parse_varint(s, i, end) {
        Some(p) => p,
        None => {
            return None;
        },
    };
    if len > (end - j) as u64 {
        return None;
    }
    Some((j, j + (len as usize)))
}

/// Skips one field of the given wire type; rejects group wire types.
fn skip_field(s: &[u8], i: usize, end: usize, wire: u64) -> (r: Option<usize>)
    requires
        i <= end,
        end <= s@.len(),
    ensures
        r matches Some(j) ==> i < j <= end,
        r is None ==> sp_skip_field(s@, i as int, end as int, wire) is None,
        r matches Some(j) ==> sp_skip_field(s@, i as int, end as int, wire) == Some(j as int),
{
    if wire == 0 {
        match parse_varint(s, i, end) {
            Some((_, j)) => Some(j),
            None => None,
        }
    } else if wire == 1 {
        if end - i < 8 {
            None
        } else {
            Some(i + 8)
        }
    } else if wire == 2 {
        match parse_len_region(s, i, end) {
            Some((_, de)) => Some(de),
            None => None,
        }
    } else if wire == 5 {
        if end - i < 4 {
            None
        } else {
            Some(i + 4)
        }
    } else {
        None
    }
}

/// Copies a region and decodes it as UTF-8.
fn read_string(s: &[u8], ds: usize, de: usize) -> (r: Option<String>)
    requires
        ds <= de,
        de <= s@.len(),
    ensures
        r is None ==> sp_read_string(s@, ds as int, de as int) is None,
        r matches Some(text) ==> sp_read_string(s@, ds as int, de as int) == Some(text@),
{
    let region = slice_subrange(s, ds, de);
    let bytes = slice_to_vec(region);
    utf8_to_string(bytes.as_slice())
}

/// The fields of a TripDescriptor read from `i` on, folded into `acc`.
/// Fields: 1 trip_id, 2 start_time, 3 start_date, 4 schedule_relationship,
/// 5 route_id, 6 direction_id. The range guards can only fail where a
/// reader broke its bounds, which the proofs rule out.
pub open spec fn sp_trip_descriptor_fields(
    s: Seq<u8>,
    i: int,
    end: int,
    acc: TripDescriptorV,
) -> Option<TripDescriptorV>
    decreases end - i,
{
    if i >= end {
        Some(acc)
    } else {
        match sp_parse_varint(s, i, end) {
            None => None,
            Some((tag, j1)) => if j1 <= i || j1 > end {
                None
            } else {
                let wire = tag & 7;
                let field = tag >> 3;
                if wire == 2 {
                    match sp_parse_len_region(s, j1, end) {
                        None => None,
                        Some((ds, de)) => if de <= j1 || de > end {
                            None
                        } else if field == 1 || field == 2 || field == 3 || field == 5 {
                            match sp_read_string(s, ds, de) {
                                None => None,
                                Some(text) => sp_trip_descriptor_fields(
                                    s,
                                    de,
                                    end,
                                    if field == 1 {
                                        TripDescriptorV { trip_id: Some(text), ..acc }
                                    } else if field == 2 {
                                        TripDescriptorV { start_time: Some(text), ..acc }
                                    } else if field == 3 {
                                        TripDescriptorV { start_date: Some(text), ..acc }
                                    } else {
                                        TripDescriptorV { route_id: Some(text), ..acc }
                                    },
                                ),
                            }
                        } else {
                            sp_trip_descriptor_fields(s, de, end, acc)
                        },
                    }
                } else if wire == 0 {
                    match sp_parse_varint(s, j1, end) {
                        None => None,
                        Some((v, j2)) => if j2 <= j1 || j2 > end {
                            None
                        } else {
                            sp_trip_descriptor_fields(
                                s,
                                j2,
                                end,
                                if field == 4 {
                                    TripDescriptorV { schedule_relationship: Some(v), ..acc }
                                } else if field == 6 {
                                    TripDescriptorV { direction_id: Some(v), ..acc }
                                } else {
                                    acc
                                },
                            )
                        },
                    }
                } else {
                    match sp_skip_field(s, j1, end, wire) {
                        None => None,
                        Some(j2) => if j2 <= j1 || j2 > end {
                            None
                        } else {
                            sp_trip_descriptor_fields(s, j2, end, acc)
                        },
                    }
                }
            },
        }
    }
}

/// A TripDescriptor with every field absent.
pub open spec fn sp_empty_trip_descriptor() -> TripDescriptorV {
    TripDescriptorV {
        trip_id: None,
        route_id: None,
        direction_id: None,
        start_time: None,
        start_date: None,
        schedule_relationship: None,
    }
}

/// A whole TripDescriptor message.
pub open spec fn sp_parse_trip_descriptor(s: Seq<u8>, i: int, end: int) -> Option<
    TripDescriptorV,
> {
    sp_trip_descriptor_fields(s, i, end, sp_empty_trip_descriptor())
}

/// Reads a TripDescriptor message.
fn parse_trip_descriptor(s: &[u8], i: usize, end: usize) -> (r: Option<TripDescriptor>)
    requires
        i <= end,
        end <= s@.len(),
    ensures
        r is None ==> sp_parse_trip_descriptor(s@, i as int, end as int) is None,
        r matches Some(td) ==> sp_parse_trip_descriptor(s@, i as int, end as int) == Some(td@),
{
    let mut out = TripDescriptor {
        trip_id: None,
        route_id: None,
        direction_id: None,
        start_time: None,
        start_date: None,
        schedule_relationship: None,
    };
    let ghost target = sp_parse_trip_descriptor(s@, i as int, end as int);
    proof {
        assert(out@ == sp_empty_trip_descriptor());
    }
    let mut j = i;
    while j < end
        invariant
            i <= j <= end <= s@.len(),
            sp_trip_descriptor_fields(s@, j as int, end as int, out@) == target,
            target == sp_parse_trip_descriptor(s@, i as int, end as int),
        decreases end - j,
    {
        let ghost prevj = j as int;
        let ghost prevacc = out@;
        let (tag, j1) = match parse_varint(s, j, end) {
            Some(p) => p,
            None => {
                return None;
            },
        };
        j = j1;
        let wire = tag & 7;
        let field = tag >> 3;
        if wire == 2 {
            let (ds, de) = match parse_len_region(s, j, end) {
                Some(p) => p,
                None => {
                    return None;
                },
            };
            j = de;
            if field == 1 || field == 2 || field == 3 || field == 5 {
                let text = match read_string(s, ds, de) {
                    Some(t) => t,
                    None => {
                        return None;
                    },
                };
                if field == 1 {
                    out.trip_id = Some(text);
                } else if field == 2 {
                    out.start_time = Some(text);
                } else if field == 3 {
                    out.start_date = Some(text);
                } else {
                    out.route_id = Some(text);
                }
            }
        } else if wire == 0 {
            let (v, j2) = match parse_varint(s, j, end) {
                Some(p) => p,
                None => {
                    return None;
                },
            };
            j = j2;
            if field == 4 {
                out.schedule_relationship = Some(v);
            } else if field == 6 {
                out.direction_id = Some(v);
            }
        } else {
            j = match skip_field(s, j, end, wire) {
                Some(n) => n,
                None => {
                    return None;
                },
            };
        }
        proof {
            assert(sp_trip_descriptor_fields(s@, prevj, end as int, prevacc)
                == sp_trip_descriptor_fields(s@, j as int, end as int, out@));
        }
    }
    Some(out)
}

/// The fields of a VehicleDescriptor: 1 id, 2 label, 3 license_plate,
/// 4 wheelchair_accessible.
pub open spec fn sp_vehicle_descriptor_fields(
    s: Seq<u8>,
    i: int,
    end: int,
    acc: VehicleDescriptorV,
) -> Option<VehicleDescriptorV>
    decreases end - i,
{
    if i >= end {
        Some(acc)
    } else {
        match sp_parse_varint(s, i, end) {
            None => None,
            Some((tag, j1)) => if j1 <= i || j1 > end {
                None
            } else {
                let wire = tag & 7;
                let field = tag >> 3;
                if wire == 2 {
                    match sp_parse_len_region(s, j1, end) {
                        None => None,
                        Some((ds, de)) => if de <= j1 || de > end {
                            None
                        } else if field == 1 || field == 2 || field == 3 {
                            match sp_read_string(s, ds, de) {
                                None => None,
                                Some(text) => sp_vehicle_descriptor_fields(
                                    s,
                                    de,
                                    end,
                                    if field == 1 {
                                        VehicleDescriptorV { id: Some(text), ..acc }
                                    } else if field == 2 {
                                        VehicleDescriptorV { label: Some(text), ..acc }
                                    } else {
                                        VehicleDescriptorV { license_plate: Some(text), ..acc }
                                    },
                                ),
                            }
                        } else {
                            sp_vehicle_descriptor_fields(s, de, end, acc)
                        },
                    }
                } else if wire == 0 {
                    match sp_parse_varint(s, j1, end) {
                        None => None,
                        Some((v, j2)) => if j2 <= j1 || j2 > end {
                            None
                        } else {
                            sp_vehicle_descriptor_fields(
                                s,
                                j2,
                                end,
                                if field == 4 {
                                    VehicleDescriptorV { wheelchair_accessible: Some(v), ..acc }
                                } else {
                                    acc
                                },
                            )
                        },
                    }
                } else {
                    match sp_skip_field(s, j1, end, wire) {
                        None => None,
                        Some(j2) => if j2 <= j1 || j2 > end {
                            None
                        } else {
                            sp_vehicle_descriptor_fields(s, j2, end, acc)
                        },
                    }
                }
            },
        }
    }
}

/// A VehicleDescriptor with every field absent.
pub open spec fn sp_empty_vehicle_descriptor() -> VehicleDescriptorV {
    VehicleDescriptorV { id: None, label: None, license_plate: None, wheelchair_accessible: None }
}

/// A whole VehicleDescriptor message.
pub open spec fn sp_parse_vehicle_descriptor(s: Seq<u8>, i: int, end: int) -> Option<
    VehicleDescriptorV,
> {
    sp_vehicle_descriptor_fields(s, i, end, sp_empty_vehicle_descriptor())
}

/// Reads a VehicleDescriptor message.
fn parse_vehicle_descriptor(s: &[u8], i: usize, end: usize) -> (r: Option<VehicleDescriptor>)
    requires
        i <= end,
        end <= s@.len(),
    ensures
        r is None ==> sp_parse_vehicle_descriptor(s@, i as int, end as int) is None,
        r matches Some(v) ==> sp_parse_vehicle_descriptor(s@, i as int, end as int) == Some(v@),
{
    let mut out = VehicleDescriptor {
        id: None,
        label: None,
        license_plate: None,
        wheelchair_accessible: None,
    };
    let ghost target = sp_parse_vehicle_descriptor(s@, i as int, end as int);
    proof {
        assert(out@ == sp_empty_vehicle_descriptor());
    }
    let mut j = i;
    while j < end
        invariant
            i <= j <= end <= s@.len(),
            sp_vehicle_descriptor_fields(s@, j as int, end as int, out@) == target,
            target == sp_parse_vehicle_descriptor(s@, i as int, end as int),
        decreases end - j,
    {
        let ghost prevj = j as int;
        let ghost prevacc = out@;
        let (tag, j1) = match parse_varint(s, j, end) {
            Some(p) => p,
            None => {
                return None;
            },
        };
        j = j1;
        let wire = tag & 7;
        let field = tag >> 3;
        if wire == 2 {
            let (ds, de) = match parse_len_region(s, j, end) {
                Some(p) => p,
                None => {
                    return None;
                },
            };
            j = de;
            if field == 1 || field == 2 || field == 3 {
                let text = match read_string(s, ds, de) {
                    Some(t) => t,
                    None => {
                        return None;
                    },
                };
                if field == 1 {
                    out.id = Some(text);
                } else if field == 2 {
                    out.label = Some(text);
                } else {
                    out.license_plate = Some(text);
                }
            }
        } else if wire == 0 {
            let (v, j2) = match parse_varint(s, j, end) {
                Some(p) => p,
                None => {
                    return None;
                },
            };
            j = j2;
            if field == 4 {
                out.wheelchair_accessible = Some(v);
            }
        } else {
            j = match skip_field(s, j, end, wire) {
                Some(n) => n,
                None => {
                    return None;
                },
            };
        }
        proof {
            assert(sp_vehicle_descriptor_fields(s@, prevj, end as int, prevacc)
                == sp_vehicle_descriptor_fields(s@, j as int, end as int, out@));
        }
    }
    Some(out)
}

/// The fields of a Position: 1 latitude, 2 longitude, 3 bearing
/// (four-byte), 4 odometer (eight-byte), 5 speed (four-byte). The
/// accumulator carries the five optional raw values.
pub open spec fn sp_position_fields(
    s: Seq<u8>,
    i: int,
    end: int,
    acc: (Option<u32>, Option<u32>, Option<u32>, Option<u64>, Option<u32>),
) -> Option<Position>
    decreases end - i,
{
    if i >= end {
        match (acc.0, acc.1) {
            (Some(la), Some(lo)) => Some(
                Position {
                    latitude_bits: la,
                    longitude_bits: lo,
                    bearing_bits: acc.2,
                    odometer_bits: acc.3,
                    speed_bits: acc.4,
                },
            ),
            _ => None,
        }
    } else {
        match sp_parse_varint(s, i, end) {
            None => None,
            Some((tag, j1)) => if j1 <= i || j1 > end {
                None
            } else {
                let wire = tag & 7;
                let field = tag >> 3;
                if wire == 5 && (field == 1 || field == 2 || field == 3 || field == 5) {
                    match sp_parse_fixed32(s, j1, end) {
                        None => None,
                        Some((v, j2)) => if j2 <= j1 || j2 > end {
                            None
                        } else {
                            sp_position_fields(
                                s,
                                j2,
                                end,
                                if field == 1 {
                                    (Some(v), acc.1, acc.2, acc.3, acc.4)
                                } else if field == 2 {
                                    (acc.0, Some(v), acc.2, acc.3, acc.4)
                                } else if field == 3 {
                                    (acc.0, acc.1, Some(v), acc.3, acc.4)
                                } else {
                                    (acc.0, acc.1, acc.2, acc.3, Some(v))
                                },
                            )
                        },
                    }
                } else if wire == 1 && field == 4 {
                    match sp_parse_fixed64(s, j1, end) {
                        None => None,
                        Some((v, j2)) => if j2 <= j1 || j2 > end {
                            None
                        } else {
                            sp_position_fields(s, j2, end, (acc.0, acc.1, acc.2, Some(v), acc.4))
                        },
                    }
                } else {
                    match sp_skip_field(s, j1, end, wire) {
                        None => None,
                        Some(j2) => if j2 <= j1 || j2 > end {
                            None
                        } else {
                            sp_position_fields(s, j2, end, acc)
                        },
                    }
                }
            },
        }
    }
}

/// A whole Position message; latitude and longitude are required.
pub open spec fn sp_parse_position(s: Seq<u8>, i: int, end: int) -> Option<Position> {
    sp_position_fields(s, i, end, (None, None, None, None, None))
}

/// Reads a Position message.
fn parse_position(s: &[u8], i: usize, end: usize) -> (r: Option<Position>)
    requires
        i <= end,
        end <= s@.len(),
    ensures
        r is None ==> sp_parse_position(s@, i as int, end as int) is None,
        r matches Some(p) ==> sp_parse_position(s@, i as int, end as int) == Some(p),
{
    let mut lat: Option<u32> = None;
    let mut lon: Option<u32> = None;
    let mut bearing: Option<u32> = None;
    let mut odometer: Option<u64> = None;
    let mut speed: Option<u32> = None;
    let ghost target = sp_parse_position(s@, i as int, end as int);
    let mut j = i;
    while j < end
        invariant
            i <= j <= end <= s@.len(),
            sp_position_fields(s@, j as int, end as int, (lat, lon, bearing, odometer, speed))
                == target,
            target == sp_parse_position(s@, i as int, end as int),
        decreases end - j,
    {
        let ghost prevj = j as int;
        let ghost prevacc = (lat, lon, bearing, odometer, speed);
        let (tag, j1) = match parse_varint(s, j, end) {
            Some(p) => p,
            None => {
                return None;
            },
        };
        j = j1;
        let wire = tag & 7;
        let field = tag >> 3;
        if wire == 5 && (field == 1 || field == 2 || field == 3 || field == 5) {
            let (v, j2) = match parse_fixed32(s, j, end) {
                Some(p) => p,
                None => {
                    return None;
                },
            };
            j = j2;
            if field == 1 {
                lat = Some(v);
            } else if field == 2 {
                lon = Some(v);
            } else if field == 3 {
                bearing = Some(v);
            } else {
                speed = Some(v);
            }
        } else if wire == 1 && field == 4 {
            let (v, j2) = match parse_fixed64(s, j, end) {
                Some(p) => p,
                None => {
                    return None;
                },
            };
            j = j2;
            odometer = Some(v);
        } else {
            j = match skip_field(s, j, end, wire) {
                Some(n) => n,
                None => {
                    return None;
                },
            };
        }
        proof {
            assert(sp_position_fields(s@, prevj, end as int, prevacc) == sp_position_fields(
                s@,
                j as int,
                end as int,
                (lat, lon, bearing, odometer, speed),
            ));
        }
    }
    match (lat, lon) {
        (Some(la), Some(lo)) => Some(
            Position {
                latitude_bits: la,
                longitude_bits: lo,
                bearing_bits: bearing,
                odometer_bits: odometer,
                speed_bits: speed,
            },
        ),
        _ => None,
    }
}

/// The fields of a VehiclePosition: 1 trip, 2 position, 5 timestamp,
/// 8 vehicle.
pub open spec fn sp_vehicle_position_fields(
    s: Seq<u8>,
    i: int,
    end: int,
    acc: VehiclePositionV,
) -> Option<VehiclePositionV>
    decreases end - i,
{
    if i >= end {
        Some(acc)
    } else {
        match sp_parse_varint(s, i, end) {
            None => None,
            Some((tag, j1)) => if j1 <= i || j1 > end {
                None
            } else {
                let wire = tag & 7;
                let field = tag >> 3;
                if wire == 2 && (field == 1 || field == 2 || field == 8) {
                    match sp_parse_len_region(s, j1, end) {
                        None => None,
                        Some((ds, de)) => if de <= j1 || de > end {
                            None
                        } else if field == 1 {
                            match sp_parse_trip_descriptor(s, ds, de) {
                                None => None,
                                Some(td) => sp_vehicle_position_fields(
                                    s,
                                    de,
                                    end,
                                    VehiclePositionV { trip: Some(td), ..acc },
                                ),
                            }
                        } else if field == 2 {
                            match sp_parse_position(s, ds, de) {
                                None => None,
                                Some(p) => sp_vehicle_position_fields(
                                    s,
                                    de,
                                    end,
                                    VehiclePositionV { position: Some(p), ..acc },
                                ),
                            }
                        } else {
                            match sp_parse_vehicle_descriptor(s, ds, de) {
                                None => None,
                                Some(d) => sp_vehicle_position_fields(
                                    s,
                                    de,
                                    end,
                                    VehiclePositionV { vehicle: Some(d), ..acc },
                                ),
                            }
                        },
                    }
                } else if wire == 0 {
                    match sp_parse_varint(s, j1, end) {
                        None => None,
                        Some((v, j2)) => if j2 <= j1 || j2 > end {
                            None
                        } else {
                            sp_vehicle_position_fields(
                                s,
                                j2,
                                end,
                                if field == 5 {
                                    VehiclePositionV { timestamp: Some(v), ..acc }
                                } else {
                                    acc
                                },
                            )
                        },
                    }
                } else {
                    match sp_skip_field(s, j1, end, wire) {
                        None => None,
                        Some(j2) => if j2 <= j1 || j2 > end {
                            None
                        } else {
                            sp_vehicle_position_fields(s, j2, end, acc)
                        },
                    }
                }
            },
        }
    }
}

/// A VehiclePosition with every part absent.
pub open spec fn sp_empty_vehicle_position() -> VehiclePositionV {
    VehiclePositionV { trip: None, position: None, timestamp: None, vehicle: None }
}

/// A whole VehiclePosition message.
pub open spec fn sp_parse_vehicle_position(s: Seq<u8>, i: int, end: int) -> Option<
    VehiclePositionV,
> {
    sp_vehicle_position_fields(s, i, end, sp_empty_vehicle_position())
}

/// Reads a VehiclePosition message.
fn parse_vehicle_position(s: &[u8], i: usize, end: usize) -> (r: Option<VehiclePosition>)
    requires
        i <= end,
        end <= s@.len(),
    ensures
        r is None ==> sp_parse_vehicle_position(s@, i as int, end as int) is None,
        r matches Some(v) ==> sp_parse_vehicle_position(s@, i as int, end as int) == Some(v@),
{
    let mut out = VehiclePosition { trip: None, position: None, timestamp: None, vehicle: None };
    let ghost target = sp_parse_vehicle_position(s@, i as int, end as int);
    proof {
        assert(out@ == sp_empty_vehicle_position());
    }
    let mut j = i;
    while j < end
        invariant
            i <= j <= end <= s@.len(),
            sp_vehicle_position_fields(s@, j as int, end as int, out@) == target,
            target == sp_parse_vehicle_position(s@, i as int, end as int),
        decreases end - j,
    {
        let ghost prevj = j as int;
        let ghost prevacc = out@;
        let (tag, j1) = match parse_varint(s, j, end) {
            Some(p) => p,
            None => {
                return None;
            },
        };
        j = j1;
        let wire = tag & 7;
        let field = tag >> 3;
        if wire == 2 && (field == 1 || field == 2 || field == 8) {
            let (ds, de) = match parse_len_region(s, j, end) {
                Some(p) => p,
                None => {
                    return None;
                },
            };
            j = de;
            if field == 1 {
                out.trip = match parse_trip_descriptor(s, ds, de) {
                    Some(t) => Some(t),
                    None => {
                        return None;
                    },
                };
            } else if field == 2 {
                out.position = match parse_position(s, ds, de) {
                    Some(p) => Some(p),
                    None => {
                        return None;
                    },
                };
            } else {
                out.vehicle = match parse_vehicle_descriptor(s, ds, de) {
                    Some(v) => Some(v),
                    None => {
                        return None;
                    },
                };
            }
        } else if wire == 0 {
            let (v, j2) = match parse_varint(s, j, end) {
                Some(p) => p,
                None => {
                    return None;
                },
            };
            j = j2;
            if field == 5 {
                out.timestamp = Some(v);
            }
        } else {
            j = match skip_field(s, j, end, wire) {
                Some(n) => n,
                None => {
                    return None;
                },
            };
        }
        proof {
            assert(sp_vehicle_position_fields(s@, prevj, end as int, prevacc)
                == sp_vehicle_position_fields(s@, j as int, end as int, out@));
        }
    }
    Some(out)
}

/// The fields of a TripUpdate: 1 trip, 3 vehicle, 4 timestamp, 5 delay.
pub open spec fn sp_trip_update_fields(
    s: Seq<u8>,
    i: int,
    end: int,
    acc: TripUpdateV,
) -> Option<TripUpdateV>
    decreases end - i,
{
    if i >= end {
        Some(acc)
    } else {
        match sp_parse_varint(s, i, end) {
            None => None,
            Some((tag, j1)) => if j1 <= i || j1 > end {
                None
            } else {
                let wire = tag & 7;
                let field = tag >> 3;
                if wire == 2 && (field == 1 || field == 3) {
                    match sp_parse_len_region(s, j1, end) {
                        None => None,
                        Some((ds, de)) => if de <= j1 || de > end {
                            None
                        } else if field == 1 {
                            match sp_parse_trip_descriptor(s, ds, de) {
                                None => None,
                                Some(td) => sp_trip_update_fields(
                                    s,
                                    de,
                                    end,
                                    TripUpdateV { trip: Some(td), ..acc },
                                ),
                            }
                        } else {
                            match sp_parse_vehicle_descriptor(s, ds, de) {
                                None => None,
                                Some(d) => sp_trip_update_fields(
                                    s,
                                    de,
                                    end,
                                    TripUpdateV { vehicle: Some(d), ..acc },
                                ),
                            }
                        },
                    }
                } else if wire == 0 {
                    match sp_parse_varint(s, j1, end) {
                        None => None,
                        Some((v, j2)) => if j2 <= j1 || j2 > end {
                            None
                        } else {
                            sp_trip_update_fields(
                                s,
                                j2,
                                end,
                                if field == 4 {
                                    TripUpdateV { timestamp: Some(v), ..acc }
                                } else if field == 5 {
                                    TripUpdateV { delay: Some(v), ..acc }
                                } else {
                                    acc
                                },
                            )
                        },
                    }
                } else {
                    match sp_skip_field(s, j1, end, wire) {
                        None => None,
                        Some(j2) => if j2 <= j1 || j2 > end {
                            None
                        } else {
                            sp_trip_update_fields(s, j2, end, acc)
                        },
                    }
                }
            },
        }
    }
}

/// A TripUpdate with every part absent.
pub open spec fn sp_empty_trip_update() -> TripUpdateV {
    TripUpdateV { trip: None, vehicle: None, timestamp: None, delay: None }
}

/// A whole TripUpdate message.
pub open spec fn sp_parse_trip_update(s: Seq<u8>, i: int, end: int) -> Option<TripUpdateV> {
    sp_trip_update_fields(s, i, end, sp_empty_trip_update())
}

/// Reads a TripUpdate message.
fn parse_trip_update(s: &[u8], i: usize, end: usize) -> (r: Option<TripUpdate>)
    requires
        i <= end,
        end <= s@.len(),
    ensures
        r is None ==> sp_parse_trip_update(s@, i as int, end as int) is None,
        r matches Some(t) ==> sp_parse_trip_update(s@, i as int, end as int) == Some(t@),
{
    let mut out = TripUpdate { trip: None, vehicle: None, timestamp: None, delay: None };
    let ghost target = sp_parse_trip_update(s@, i as int, end as int);
    proof {
        assert(out@ == sp_empty_trip_update());
    }
    let mut j = i;
    while j < end
        invariant
            i <= j <= end <= s@.len(),
            sp_trip_update_fields(s@, j as int, end as int, out@) == target,
            target == sp_parse_trip_update(s@, i as int, end as int),
        decreases end - j,
    {
        let ghost prevj = j as int;
        let ghost prevacc = out@;
        let (tag, j1) = match parse_varint(s, j, end) {
            Some(p) => p,
            None => {
                return None;
            },
        };
        j = j1;
        let wire = tag & 7;
        let field = tag >> 3;
        if wire == 2 && (field == 1 || field == 3) {
            let (ds, de) = match parse_len_region(s, j, end) {
                Some(p) => p,
                None => {
                    return None;
                },
            };
            j = de;
            if field == 1 {
                out.trip = match parse_trip_descriptor(s, ds, de) {
                    Some(t) => Some(t),
                    None => {
                        return None;
                    },
                };
            } else {
                out.vehicle = match parse_vehicle_descriptor(s, ds, de) {
                    Some(v) => Some(v),
                    None => {
                        return None;
                    },
                };
            }
        } else if wire == 0 {
            let (v, j2) = match parse_varint(s, j, end) {
                Some(p) => p,
                None => {
                    return None;
                },
            };
            j = j2;
            if field == 4 {
                out.timestamp = Some(v);
            } else if field == 5 {
                out.delay = Some(v);
            }
        } else {
            j = match skip_field(s, j, end, wire) {
                Some(n) => n,
                None => {
                    return None;
                },
            };
        }
        proof {
            assert(sp_trip_update_fields(s@, prevj, end as int, prevacc) == sp_trip_update_fields(
                s@,
                j as int,
                end as int,
                out@,
            ));
        }
    }
    Some(out)
}

/// The fields of an EntitySelector: 1 agency_id, 2 route_id, 4 trip
/// (only its trip_id is kept), 5 stop_id.
pub open spec fn sp_entity_selector_fields(
    s: Seq<u8>,
    i: int,
    end: int,
    acc: EntitySelectorV,
) -> Option<EntitySelectorV>
    decreases end - i,
{
    if i >= end {
        Some(acc)
    } else {
        match sp_parse_varint(s, i, end) {
            None => None,
            Some((tag, j1)) => if j1 <= i || j1 > end {
                None
            } else {
                let wire = tag & 7;
                let field = tag >> 3;
                if wire == 2 {
                    match sp_parse_len_region(s, j1, end) {
                        None => None,
                        Some((ds, de)) => if de <= j1 || de > end {
                            None
                        } else if field == 1 || field == 2 || field == 5 {
                            match sp_read_string(s, ds, de) {
                                None => None,
                                Some(text) => sp_entity_selector_fields(
                                    s,
                                    de,
                                    end,
                                    if field == 1 {
                                        EntitySelectorV { agency_id: Some(text), ..acc }
                                    } else if field == 2 {
                                        EntitySelectorV { route_id: Some(text), ..acc }
                                    } else {
                                        EntitySelectorV { stop_id: Some(text), ..acc }
                                    },
                                ),
                            }
                        } else if field == 4 {
                            match sp_parse_trip_descriptor(s, ds, de) {
                                None => None,
                                Some(td) => sp_entity_selector_fields(
                                    s,
                                    de,
                                    end,
                                    EntitySelectorV { trip_id: td.trip_id, ..acc },
                                ),
                            }
                        } else {
                            sp_entity_selector_fields(s, de, end, acc)
                        },
                    }
                } else {
                    match sp_skip_field(s, j1, end, wire) {
                        None => None,
                        Some(j2) => if j2 <= j1 || j2 > end {
                            None
                        } else {
                            sp_entity_selector_fields(s, j2, end, acc)
                        },
                    }
                }
            },
        }
    }
}

/// An EntitySelector with every field absent.
pub open spec fn sp_empty_entity_selector() -> EntitySelectorV {
    EntitySelectorV { agency_id: None, route_id: None, trip_id: None, stop_id: None }
}

/// A whole EntitySelector message.
pub open spec fn sp_parse_entity_selector(s: Seq<u8>, i: int, end: int) -> Option<
    EntitySelectorV,
> {
    sp_entity_selector_fields(s, i, end, sp_empty_entity_selector())
}

/// Reads an EntitySelector message.
fn parse_entity_selector(s: &[u8], i: usize, end: usize) -> (r: Option<EntitySelector>)
    requires
        i <= end,
        end <= s@.len(),
    ensures
        r is None ==> sp_parse_entity_selector(s@, i as int, end as int) is None,
        r matches Some(e) ==> sp_parse_entity_selector(s@, i as int, end as int) == Some(e@),
{
    let mut out = EntitySelector { agency_id: None, route_id: None, trip_id: None, stop_id: None };
    let ghost target = sp_parse_entity_selector(s@, i as int, end as int);
    proof {
        assert(out@ == sp_empty_entity_selector());
    }
    let mut j = i;
    while j < end
        invariant
            i <= j <= end <= s@.len(),
            sp_entity_selector_fields(s@, j as int, end as int, out@) == target,
            target == sp_parse_entity_selector(s@, i as int, end as int),
        decreases end - j,
    {
        let ghost prevj = j as int;
        let ghost prevacc = out@;
        let (tag, j1) = match parse_varint(s, j, end) {
            Some(p) => p,
            None => {
                return None;
            },
        };
        j = j1;
        let wire = tag & 7;
        let field = tag >> 3;
        if wire == 2 {
            let (ds, de) = match parse_len_region(s, j, end) {
                Some(p) => p,
                None => {
                    return None;
                },
            };
            j = de;
            if field == 1 || field == 2 || field == 5 {
                let text = match read_string(s, ds, de) {
                    Some(t) => t,
                    None => {
                        return None;
                    },
                };
                if field == 1 {
                    out.agency_id = Some(text);
                } else if field == 2 {
                    out.route_id = Some(text);
                } else {
                    out.stop_id = Some(text);
                }
            } else if field == 4 {
                let trip = match parse_trip_descriptor(s, ds, de) {
                    Some(t) => t,
                    None => {
                        return None;
                    },
                };
                out.trip_id = trip.trip_id;
            }
        } else {
            j = match skip_field(s, j, end, wire) {
                Some(n) => n,
                None => {
                    return None;
                },
            };
        }
        proof {
            assert(sp_entity_selector_fields(s@, prevj, end as int, prevacc)
                == sp_entity_selector_fields(s@, j as int, end as int, out@));
        }
    }
    Some(out)
}

/// The fields of a Translation: 1 text, 2 language. Only the text is
/// kept; a later text field overwrites an earlier one.
pub open spec fn sp_translation_fields(
    s: Seq<u8>,
    i: int,
    end: int,
    acc: Option<Seq<char>>,
) -> Option<Option<Seq<char>>>
    decreases end - i,
{
    if i >= end {
        Some(acc)
    } else {
        match sp_parse_varint(s, i, end) {
            None => None,
            Some((tag, j1)) => if j1 <= i || j1 > end {
                None
            } else {
                let wire = tag & 7;
                let field = tag >> 3;
                if wire == 2 && field == 1 {
                    match sp_parse_len_region(s, j1, end) {
                        None => None,
                        Some((ds, de)) => if de <= j1 || de > end {
                            None
                        } else {
                            match sp_read_string(s, ds, de) {
                                None => None,
                                Some(text) => sp_translation_fields(s, de, end, Some(text)),
                            }
                        },
                    }
                } else {
                    match sp_skip_field(s, j1, end, wire) {
                        None => None,
                        Some(j2) => if j2 <= j1 || j2 > end {
                            None
                        } else {
                            sp_translation_fields(s, j2, end, acc)
                        },
                    }
                }
            },
        }
    }
}

/// A whole Translation message, reduced to its text.
pub open spec fn sp_parse_translation_text(s: Seq<u8>, i: int, end: int) -> Option<
    Option<Seq<char>>,
> {
    sp_translation_fields(s, i, end, None)
}

/// Reads one Translation message and returns its text field.
fn parse_translation_text(s: &[u8], i: usize, end: usize) -> (r: Option<Option<String>>)
    requires
        i <= end,
        end <= s@.len(),
    ensures
        r is None ==> sp_parse_translation_text(s@, i as int, end as int) is None,
        r matches Some(t) ==> sp_parse_translation_text(s@, i as int, end as int) == Some(
            crate::feed::ov(t),
        ),
{
    let mut text: Option<String> = None;
    let ghost target = sp_parse_translation_text(s@, i as int, end as int);
    let mut j = i;
    while j < end
        invariant
            i <= j <= end <= s@.len(),
            sp_translation_fields(s@, j as int, end as int, crate::feed::ov(text)) == target,
            target == sp_parse_translation_text(s@, i as int, end as int),
        decreases end - j,
    {
        let ghost prevj = j as int;
        let ghost prevacc = crate::feed::ov(text);
        let (tag, j1) = match parse_varint(s, j, end) {
            Some(p) => p,
            None => {
                return None;
            },
        };
        j = j1;
        let wire = tag & 7;
        let field = tag >> 3;
        if wire == 2 && field == 1 {
            let (ds, de) = match parse_len_region(s, j, end) {
                Some(p) => p,
                None => {
                    return None;
                },
            };
            j = de;
            text = match read_string(s, ds, de) {
                Some(t) => Some(t),
                None => {
                    return None;
                },
            };
        } else {
            j = match skip_field(s, j, end, wire) {
                Some(n) => n,
                None => {
                    return None;
                },
            };
        }
        proof {
            assert(sp_translation_fields(s@, prevj, end as int, prevacc) == sp_translation_fields(
                s@,
                j as int,
                end as int,
                crate::feed::ov(text),
            ));
        }
    }
    Some(text)
}

/// The fields of a TranslatedString: repeated 1 translation. The first
/// translation's text is kept.
pub open spec fn sp_translated_string_fields(
    s: Seq<u8>,
    i: int,
    end: int,
    acc: Option<Seq<char>>,
) -> Option<Option<Seq<char>>>
    decreases end - i,
{
    if i >= end {
        Some(acc)
    } else {
        match sp_parse_varint(s, i, end) {
            None => None,
            Some((tag, j1)) => if j1 <= i || j1 > end {
                None
            } else {
                let wire = tag & 7;
                let field = tag >> 3;
                if wire == 2 && field == 1 {
                    match sp_parse_len_region(s, j1, end) {
                        None => None,
                        Some((ds, de)) => if de <= j1 || de > end {
                            None
                        } else {
                            match sp_parse_translation_text(s, ds, de) {
                                None => None,
                                Some(inner) => sp_translated_string_fields(
                                    s,
                                    de,
                                    end,
                                    if acc is None {
                                        inner
                                    } else {
                                        acc
                                    },
                                ),
                            }
                        },
                    }
                } else {
                    match sp_skip_field(s, j1, end, wire) {
                        None => None,
                        Some(j2) => if j2 <= j1 || j2 > end {
                            None
                        } else {
                            sp_translated_string_fields(s, j2, end, acc)
                        },
                    }
                }
            },
        }
    }
}

/// A whole TranslatedString message, reduced to its first text.
pub open spec fn sp_parse_translated_string(s: Seq<u8>, i: int, end: int) -> Option<
    Option<Seq<char>>,
> {
    sp_translated_string_fields(s, i, end, None)
}

/// Reads a TranslatedString message and keeps the first translation's
/// text.
fn parse_translated_string(s: &[u8], i: usize, end: usize) -> (r: Option<Option<String>>)
    requires
        i <= end,
        end <= s@.len(),
    ensures
        r is None ==> sp_parse_translated_string(s@, i as int, end as int) is None,
        r matches Some(t) ==> sp_parse_translated_string(s@, i as int, end as int) == Some(
            crate::feed::ov(t),
        ),
{
    let mut text: Option<String> = None;
    let ghost target = sp_parse_translated_string(s@, i as int, end as int);
    let mut j = i;
    while j < end
        invariant
            i <= j <= end <= s@.len(),
            sp_translated_string_fields(s@, j as int, end as int, crate::feed::ov(text))
                == target,
            target == sp_parse_translated_string(s@, i as int, end as int),
        decreases end - j,
    {
        let ghost prevj = j as int;
        let ghost prevacc = crate::feed::ov(text);
        let (tag, j1) = match parse_varint(s, j, end) {
            Some(p) => p,
            None => {
                return None;
            },
        };
        j = j1;
        let wire = tag & 7;
        let field = tag >> 3;
        if wire == 2 && field == 1 {
            let (ds, de) = match parse_len_region(s, j, end) {
                Some(p) => p,
                None => {
                    return None;
                },
            };
            j = de;
            let inner = match parse_translation_text(s, ds, de) {
                Some(t) => t,
                None => {
                    return None;
                },
            };
            if text.is_none() {
                text = inner;
            }
        } else {
            j = match skip_field(s, j, end, wire) {
                Some(n) => n,
                None => {
                    return None;
                },
            };
        }
        proof {
            assert(sp_translated_string_fields(s@, prevj, end as int, prevacc)
                == sp_translated_string_fields(s@, j as int, end as int, crate::feed::ov(text)));
        }
    }
    Some(text)
}

/// The fields of an Alert: repeated 5 informed_entity, 6 cause,
/// 7 effect, 10 header_text, 11 description_text.
pub open spec fn sp_alert_fields(s: Seq<u8>, i: int, end: int, acc: AlertV) -> Option<AlertV>
    decreases end - i,
{
    if i >= end {
        Some(acc)
    } else {
        match sp_parse_varint(s, i, end) {
            None => None,
            Some((tag, j1)) => if j1 <= i || j1 > end {
                None
            } else {
                let wire = tag & 7;
                let field = tag >> 3;
                if wire == 2 && (field == 5 || field == 10 || field == 11) {
                    match sp_parse_len_region(s, j1, end) {
                        None => None,
                        Some((ds, de)) => if de <= j1 || de > end {
                            None
                        } else if field == 5 {
                            match sp_parse_entity_selector(s, ds, de) {
                                None => None,
                                Some(sel) => sp_alert_fields(
                                    s,
                                    de,
                                    end,
                                    AlertV { informed_entity: acc.informed_entity.push(sel), ..acc },
                                ),
                            }
                        } else if field == 10 {
                            match sp_parse_translated_string(s, ds, de) {
                                None => None,
                                Some(text) => sp_alert_fields(
                                    s,
                                    de,
                                    end,
                                    AlertV { header_text: text, ..acc },
                                ),
                            }
                        } else {
                            match sp_parse_translated_string(s, ds, de) {
                                None => None,
                                Some(text) => sp_alert_fields(
                                    s,
                                    de,
                                    end,
                                    AlertV { description_text: text, ..acc },
                                ),
                            }
                        },
                    }
                } else if wire == 0 {
                    match sp_parse_varint(s, j1, end) {
                        None => None,
                        Some((v, j2)) => if j2 <= j1 || j2 > end {
                            None
                        } else {
                            sp_alert_fields(
                                s,
                                j2,
                                end,
                                if field == 6 {
                                    AlertV { cause: Some(v), ..acc }
                                } else if field == 7 {
                                    AlertV { effect: Some(v), ..acc }
                                } else {
                                    acc
                                },
                            )
                        },
                    }
                } else {
                    match sp_skip_field(s, j1, end, wire) {
                        None => None,
                        Some(j2) => if j2 <= j1 || j2 > end {
                            None
                        } else {
                            sp_alert_fields(s, j2, end, acc)
                        },
                    }
                }
            },
        }
    }
}

/// An Alert with no content.
pub open spec fn sp_empty_alert() -> AlertV {
    AlertV {
        informed_entity: Seq::empty(),
        cause: None,
        effect: None,
        header_text: None,
        description_text: None,
    }
}

/// A whole Alert message.
pub open spec fn sp_parse_alert(s: Seq<u8>, i: int, end: int) -> Option<AlertV> {
    sp_alert_fields(s, i, end, sp_empty_alert())
}

/// Reads an Alert message.
fn parse_alert(s: &[u8], i: usize, end: usize) -> (r: Option<Alert>)
    requires
        i <= end,
        end <= s@.len(),
    ensures
        r is None ==> sp_parse_alert(s@, i as int, end as int) is None,
        r matches Some(a) ==> sp_parse_alert(s@, i as int, end as int) == Some(a@),
{
    let mut out = Alert {
        informed_entity: Vec::new(),
        cause: None,
        effect: None,
        header_text: None,
        description_text: None,
    };
    let ghost target = sp_parse_alert(s@, i as int, end as int);
    proof {
        assert(out@.informed_entity =~= sp_empty_alert().informed_entity);
        assert(out@ == sp_empty_alert());
    }
    let mut j = i;
    while j < end
        invariant
            i <= j <= end <= s@.len(),
            sp_alert_fields(s@, j as int, end as int, out@) == target,
            target == sp_parse_alert(s@, i as int, end as int),
        decreases end - j,
    {
        let ghost prevj = j as int;
        let ghost prevacc = out@;
        let (tag, j1) = match parse_varint(s, j, end) {
            Some(p) => p,
            None => {
                return None;
            },
        };
        j = j1;
        let wire = tag & 7;
        let field = tag >> 3;
        if wire == 2 && (field == 5 || field == 10 || field == 11) {
            let (ds, de) = match parse_len_region(s, j, end) {
                Some(p) => p,
                None => {
                    return None;
                },
            };
            j = de;
            if field == 5 {
                let sel = match parse_entity_selector(s, ds, de) {
                    Some(x) => x,
                    None => {
                        return None;
                    },
                };
                let ghost selv = sel@;
                out.informed_entity.push(sel);
                proof {
                    assert(out@.informed_entity =~= prevacc.informed_entity.push(selv));
                    assert(out@ == AlertV {
                        informed_entity: prevacc.informed_entity.push(selv),
                        ..prevacc
                    });
                }
            } else if field == 10 {
                out.header_text = match parse_translated_string(s, ds, de) {
                    Some(t) => t,
                    None => {
                        return None;
                    },
                };
            } else {
                out.description_text = match parse_translated_string(s, ds, de) {
                    Some(t) => t,
                    None => {
                        return None;
                    },
                };
            }
        } else if wire == 0 {
            let (v, j2) = match parse_varint(s, j, end) {
                Some(p) => p,
                None => {
                    return None;
                },
            };
            j = j2;
            if field == 6 {
                out.cause = Some(v);
            } else if field == 7 {
                out.effect = Some(v);
            }
        } else {
            j = match skip_field(s, j, end, wire) {
                Some(n) => n,
                None => {
                    return None;
                },
            };
        }
        proof {
            assert(sp_alert_fields(s@, prevj, end as int, prevacc) == sp_alert_fields(
                s@,
                j as int,
                end as int,
                out@,
            ));
        }
    }
    Some(out)
}

/// The fields of a FeedEntity: 1 id (required), 2 is_deleted,
/// 3 trip_update, 4 vehicle, 5 alert. The accumulator carries the
/// optional id beside the partial entity, whose own id stays empty until
/// the end.
pub open spec fn sp_feed_entity_fields(
    s: Seq<u8>,
    i: int,
    end: int,
    idacc: Option<Seq<char>>,
    acc: FeedEntityV,
) -> Option<FeedEntityV>
    decreases end - i,
{
    if i >= end {
        match idacc {
            Some(text) => Some(FeedEntityV { id: text, ..acc }),
            None => None,
        }
    } else {
        match sp_parse_varint(s, i, end) {
            None => None,
            Some((tag, j1)) => if j1 <= i || j1 > end {
                None
            } else {
                let wire = tag & 7;
                let field = tag >> 3;
                if wire == 2 && (field == 1 || field == 3 || field == 4 || field == 5) {
                    match sp_parse_len_region(s, j1, end) {
                        None => None,
                        Some((ds, de)) => if de <= j1 || de > end {
                            None
                        } else if field == 1 {
                            match sp_read_string(s, ds, de) {
                                None => None,
                                Some(text) => sp_feed_entity_fields(s, de, end, Some(text), acc),
                            }
                        } else if field == 3 {
                            match sp_parse_trip_update(s, ds, de) {
                                None => None,
                                Some(t) => sp_feed_entity_fields(
                                    s,
                                    de,
                                    end,
                                    idacc,
                                    FeedEntityV { trip_update: Some(t), ..acc },
                                ),
                            }
                        } else if field == 4 {
                            match sp_parse_vehicle_position(s, ds, de) {
                                None => None,
                                Some(v) => sp_feed_entity_fields(
                                    s,
                                    de,
                                    end,
                                    idacc,
                                    FeedEntityV { vehicle: Some(v), ..acc },
                                ),
                            }
                        } else {
                            match sp_parse_alert(s, ds, de) {
                                None => None,
                                Some(a) => sp_feed_entity_fields(
                                    s,
                                    de,
                                    end,
                                    idacc,
                                    FeedEntityV { alert: Some(a), ..acc },
                                ),
                            }
                        },
                    }
                } else if wire == 0 {
                    match sp_parse_varint(s, j1, end) {
                        None => None,
                        Some((v, j2)) => if j2 <= j1 || j2 > end {
                            None
                        } else {
                            sp_feed_entity_fields(
                                s,
                                j2,
                                end,
                                idacc,
                                if field == 2 {
                                    FeedEntityV { is_deleted: v != 0, ..acc }
                                } else {
                                    acc
                                },
                            )
                        },
                    }
                } else {
                    match sp_skip_field(s, j1, end, wire) {
                        None => None,
                        Some(j2) => if j2 <= j1 || j2 > end {
                            None
                        } else {
                            sp_feed_entity_fields(s, j2, end, idacc, acc)
                        },
                    }
                }
            },
        }
    }
}

/// A FeedEntity with no content and an empty key.
pub open spec fn sp_empty_feed_entity() -> FeedEntityV {
    FeedEntityV {
        id: Seq::empty(),
        is_deleted: false,
        trip_update: None,
        vehicle: None,
        alert: None,
    }
}

/// A whole FeedEntity message; the id is required.
pub open spec fn sp_parse_feed_entity(s: Seq<u8>, i: int, end: int) -> Option<FeedEntityV> {
    sp_feed_entity_fields(s, i, end, None, sp_empty_feed_entity())
}

/// Reads a FeedEntity message.
fn parse_feed_entity(s: &[u8], i: usize, end: usize) -> (r: Option<FeedEntity>)
    requires
        i <= end,
        end <= s@.len(),
    ensures
        r is None ==> sp_parse_feed_entity(s@, i as int, end as int) is None,
        r matches Some(e) ==> sp_parse_feed_entity(s@, i as int, end as int) == Some(e@),
{
    let mut id: Option<String> = None;
    let mut out = FeedEntity {
        id: String::new(),
        is_deleted: false,
        trip_update: None,
        vehicle: None,
        alert: None,
    };
    let ghost target = sp_parse_feed_entity(s@, i as int, end as int);
    proof {
        assert(out@ == sp_empty_feed_entity());
    }
    let mut j = i;
    while j < end
        invariant
            i <= j <= end <= s@.len(),
            sp_feed_entity_fields(s@, j as int, end as int, crate::feed::ov(id), out@) == target,
            target == sp_parse_feed_entity(s@, i as int, end as int),
        decreases end - j,
    {
        let ghost prevj = j as int;
        let ghost previd = crate::feed::ov(id);
        let ghost prevacc = out@;
        let (tag, j1) = match parse_varint(s, j, end) {
            Some(p) => p,
            None => {
                return None;
            },
        };
        j = j1;
        let wire = tag & 7;
        let field = tag >> 3;
        if wire == 2 && (field == 1 || field == 3 || field == 4 || field == 5) {
            let (ds, de) = match parse_len_region(s, j, end) {
                Some(p) => p,
                None => {
                    return None;
                },
            };
            j = de;
            if field == 1 {
                id = match read_string(s, ds, de) {
                    Some(t) => Some(t),
                    None => {
                        return None;
                    },
                };
            } else if field == 3 {
                out.trip_update = match parse_trip_update(s, ds, de) {
                    Some(t) => Some(t),
                    None => {
                        return None;
                    },
                };
            } else if field == 4 {
                out.vehicle = match parse_vehicle_position(s, ds, de) {
                    Some(v) => Some(v),
                    None => {
                        return None;
                    },
                };
            } else {
                out.alert = match parse_alert(s, ds, de) {
                    Some(a) => Some(a),
                    None => {
                        return None;
                    },
                };
            }
        } else if wire == 0 {
            let (v, j2) = match parse_varint(s, j, end) {
                Some(p) => p,
                None => {
                    return None;
                },
            };
            j = j2;
            if field == 2 {
                out.is_deleted = v != 0;
            }
        } else {
            j = match skip_field(s, j, end, wire) {
                Some(n) => n,
                None => {
                    return None;
                },
            };
        }
        proof {
            assert(sp_feed_entity_fields(s@, prevj, end as int, previd, prevacc)
                == sp_feed_entity_fields(s@, j as int, end as int, crate::feed::ov(id), out@));
        }
    }
    match id {
        Some(text) => {
            let ghost textv = text@;
            let ghost before = out@;
            out.id = text;
            proof {
                assert(out@ == FeedEntityV { id: textv, ..before });
            }
            Some(out)
        },
        None => None,
    }
}

/// The fields of a FeedHeader: 1 gtfs_realtime_version,
/// 2 incrementality, 3 timestamp.
pub open spec fn sp_feed_header_fields(
    s: Seq<u8>,
    i: int,
    end: int,
    acc: FeedHeaderV,
) -> Option<FeedHeaderV>
    decreases end - i,
{
    if i >= end {
        Some(acc)
    } else {
        match sp_parse_varint(s, i, end) {
            None => None,
            Some((tag, j1)) => if j1 <= i || j1 > end {
                None
            } else {
                let wire = tag & 7;
                let field = tag >> 3;
                if wire == 2 && field == 1 {
                    match sp_parse_len_region(s, j1, end) {
                        None => None,
                        Some((ds, de)) => if de <= j1 || de > end {
                            None
                        } else {
                            match sp_read_string(s, ds, de) {
                                None => None,
                                Some(text) => sp_feed_header_fields(
                                    s,
                                    de,
                                    end,
                                    FeedHeaderV { gtfs_realtime_version: Some(text), ..acc },
                                ),
                            }
                        },
                    }
                } else if wire == 0 {
                    match sp_parse_varint(s, j1, end) {
                        None => None,
                        Some((v, j2)) => if j2 <= j1 || j2 > end {
                            None
                        } else {
                            sp_feed_header_fields(
                                s,
                                j2,
                                end,
                                if field == 2 {
                                    FeedHeaderV { incrementality: Some(v), ..acc }
                                } else if field == 3 {
                                    FeedHeaderV { timestamp: Some(v), ..acc }
                                } else {
                                    acc
                                },
                            )
                        },
                    }
                } else {
                    match sp_skip_field(s, j1, end, wire) {
                        None => None,
                        Some(j2) => if j2 <= j1 || j2 > end {
                            None
                        } else {
                            sp_feed_header_fields(s, j2, end, acc)
                        },
                    }
                }
            },
        }
    }
}

/// A FeedHeader with every field absent.
pub open spec fn sp_empty_feed_header() -> FeedHeaderV {
    FeedHeaderV { gtfs_realtime_version: None, incrementality: None, timestamp: None }
}

/// A whole FeedHeader message.
pub open spec fn sp_parse_feed_header(s: Seq<u8>, i: int, end: int) -> Option<FeedHeaderV> {
    sp_feed_header_fields(s, i, end, sp_empty_feed_header())
}

/// Reads a FeedHeader message.
fn parse_feed_header(s: &[u8], i: usize, end: usize) -> (r: Option<FeedHeader>)
    requires
        i <= end,
        end <= s@.len(),
    ensures
        r is None ==> sp_parse_feed_header(s@, i as int, end as int) is None,
        r matches Some(h) ==> sp_parse_feed_header(s@, i as int, end as int) == Some(h@),
{
    let mut out = FeedHeader { gtfs_realtime_version: None, incrementality: None, timestamp: None };
    let ghost target = sp_parse_feed_header(s@, i as int, end as int);
    proof {
        assert(out@ == sp_empty_feed_header());
    }
    let mut j = i;
    while j < end
        invariant
            i <= j <= end <= s@.len(),
            sp_feed_header_fields(s@, j as int, end as int, out@) == target,
            target == sp_parse_feed_header(s@, i as int, end as int),
        decreases end - j,
    {
        let ghost prevj = j as int;
        let ghost prevacc = out@;
        let (tag, j1) = match parse_varint(s, j, end) {
            Some(p) => p,
            None => {
                return None;
            },
        };
        j = j1;
        let wire = tag & 7;
        let field = tag >> 3;
        if wire == 2 && field == 1 {
            let (ds, de) = match parse_len_region(s, j, end) {
                Some(p) => p,
                None => {
                    return None;
                },
            };
            j = de;
            out.gtfs_realtime_version = match read_string(s, ds, de) {
                Some(t) => Some(t),
                None => {
                    return None;
                },
            };
        } else if wire == 0 {
            let (v, j2) = match parse_varint(s, j, end) {
                Some(p) => p,
                None => {
                    return None;
                },
            };
            j = j2;
            if field == 2 {
                out.incrementality = Some(v);
            } else if field == 3 {
                out.timestamp = Some(v);
            }
        } else {
            j = match skip_field(s, j, end, wire) {
                Some(n) => n,
                None => {
                    return None;
                },
            };
        }
        proof {
            assert(sp_feed_header_fields(s@, prevj, end as int, prevacc) == sp_feed_header_fields(
                s@,
                j as int,
                end as int,
                out@,
            ));
        }
    }
    Some(out)
}

/// The view of an optional header.
pub open spec fn sp_header_view(h: Option<FeedHeader>) -> Option<FeedHeaderV> {
    match h {
        Some(x) => Some(x@),
        None => None,
    }
}

/// The fields of a FeedMessage: 1 header (required), repeated 2 entity.
pub open spec fn sp_feed_message_fields(
    s: Seq<u8>,
    i: int,
    end: int,
    hacc: Option<FeedHeaderV>,
    eacc: Seq<FeedEntityV>,
) -> Option<FeedMessageV>
    decreases end - i,
{
    if i >= end {
        match hacc {
            Some(h) => Some(FeedMessageV { header: h, entities: eacc }),
            None => None,
        }
    } else {
        match sp_parse_varint(s, i, end) {
            None => None,
            Some((tag, j1)) => if j1 <= i || j1 > end {
                None
            } else {
                let wire = tag & 7;
                let field = tag >> 3;
                if wire == 2 && (field == 1 || field == 2) {
                    match sp_parse_len_region(s, j1, end) {
                        None => None,
                        Some((ds, de)) => if de <= j1 || de > end {
                            None
                        } else if field == 1 {
                            match sp_parse_feed_header(s, ds, de) {
                                None => None,
                                Some(h) => sp_feed_message_fields(s, de, end, Some(h), eacc),
                            }
                        } else {
                            match sp_parse_feed_entity(s, ds, de) {
                                None => None,
                                Some(e) => sp_feed_message_fields(
                                    s,
                                    de,
                                    end,
                                    hacc,
                                    eacc.push(e),
                                ),
                            }
                        },
                    }
                } else {
                    match sp_skip_field(s, j1, end, wire) {
                        None => None,
                        Some(j2) => if j2 <= j1 || j2 > end {
                            None
                        } else {
                            sp_feed_message_fields(s, j2, end, hacc, eacc)
                        },
                    }
                }
            },
        }
    }
}

/// What a raw payload decodes to, if anything: the one reading of the
/// wire bytes that `parse_gtfs_rt_message` is proved to return.
pub open spec fn sp_parse_feed(bytes: Seq<u8>) -> Option<FeedMessageV> {
    sp_feed_message_fields(bytes, 0, bytes.len() as int, None, Seq::empty())
}

/// Reads a whole FeedMessage.
fn parse_feed_message(s: &[u8]) -> (r: Option<FeedMessage>)
    ensures
        r is None ==> sp_parse_feed(s@) is None,
        r matches Some(m) ==> sp_parse_feed(s@) == Some(m@),
{
    let end = s.len();
    let mut header: Option<FeedHeader> = None;
    let mut entities: Vec<FeedEntity> = Vec::new();
    let ghost target = sp_parse_feed(s@);
    proof {
        assert(entities@.map_values(|e: FeedEntity| e@) =~= Seq::<FeedEntityV>::empty());
    }
    let mut j: usize = 0;
    while j < end
        invariant
            j <= end <= s@.len(),
            end == s@.len(),
            sp_feed_message_fields(
                s@,
                j as int,
                end as int,
                sp_header_view(header),
                entities@.map_values(|e: FeedEntity| e@),
            ) == target,
            target == sp_parse_feed(s@),
        decreases end - j,
    {
        let ghost prevj = j as int;
        let ghost prevh = sp_header_view(header);
        let ghost preve = entities@.map_values(|e: FeedEntity| e@);
        let (tag, j1) = match parse_varint(s, j, end) {
            Some(p) => p,
            None => {
                return None;
            },
        };
        j = j1;
        let wire = tag & 7;
        let field = tag >> 3;
        if wire == 2 && (field == 1 || field == 2) {
            let (ds, de) = match parse_len_region(s, j, end) {
                Some(p) => p,
                None => {
                    return None;
                },
            };
            j = de;
            if field == 1 {
                header = match parse_feed_header(s, ds, de) {
                    Some(h) => Some(h),
                    None => {
                        return None;
                    },
                };
            } else {
                let e = match parse_feed_entity(s, ds, de) {
                    Some(e) => e,
                    None => {
                        return None;
                    },
                };
                let ghost ev = e@;
                entities.push(e);
                proof {
                    assert(entities@.map_values(|x: FeedEntity| x@) =~= preve.push(ev));
                }
            }
        } else {
            j = match skip_field(s, j, end, wire) {
                Some(n) => n,
                None => {
                    return None;
                },
            };
        }
        proof {
            assert(sp_feed_message_fields(s@, prevj, end as int, prevh, preve)
                == sp_feed_message_fields(
                s@,
                j as int,
                end as int,
                sp_header_view(header),
                entities@.map_values(|e: FeedEntity| e@),
            ));
        }
    }
    match header {
        Some(h) => Some(FeedMessage { header: h, entities }),
        None => None,
    }
}

/// Decodes a raw GTFS-Realtime payload, or reports that it is malformed.
/// The result is exactly the wire reading `sp_parse_feed` states: the
/// same bytes always yield the same outcome, and a payload is rejected
/// precisely when that reading fails.
pub fn parse_gtfs_rt_message(bytes: &[u8]) -> (r: Result<FeedMessage, DecodeError>)
    ensures
        r matches Ok(m) ==> sp_parse_feed(bytes@) == Some(m@),
        r is Err <==> sp_parse_feed(bytes@) is None,
{
    match parse_feed_message(bytes) {
        Some(m) => Ok(m),
        None => Err(DecodeError),
    }
}

} // verus!
