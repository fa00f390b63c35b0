//! Classification of complete logical packets into typed messages.
//!
//! A packet is routed purely on its message type, group and opcode (and, for
//! ranging data, on the fields that select the record layout). Responses and
//! notifications decode into a closed set of variants; opcodes in the
//! vendor-reserved groups decode to a raw variant that carries the payload
//! unchanged; anything else — a stray command echoed back, or an
//! unrecognized group/opcode combination — is rejected.

use vstd::prelude::*;
use crate::frame::{MT_NOTIFICATION, MT_RESPONSE};
use crate::reassembler::{ChainState, LogicalPacket, copy_bytes};

verus! {

/// Group identifier of the core command set.
pub const GID_CORE: u8 = 0;

/// Group identifier of the session configuration command set.
pub const GID_SESSION_CONFIG: u8 = 1;

/// Group identifier of the ranging session control command set.
pub const GID_RANGING: u8 = 2;

/// Group identifier of the platform-specific command set.
pub const GID_ANDROID: u8 = 0x0c;

/// Opcode of the device reset command.
pub const OID_DEVICE_RESET: u8 = 0;

/// Opcode of the device status notification.
pub const OID_DEVICE_STATUS: u8 = 1;

/// Opcode of the get-device-info command.
pub const OID_GET_DEVICE_INFO: u8 = 2;

/// Opcode of the get-capabilities-info command.
pub const OID_GET_CAPS_INFO: u8 = 3;

/// Opcode of the set-config command.
pub const OID_SET_CONFIG: u8 = 4;

/// Opcode of the get-config command.
pub const OID_GET_CONFIG: u8 = 5;

/// Opcode of the generic error notification.
pub const OID_GENERIC_ERROR: u8 = 7;

/// Opcode of the session init command.
pub const OID_SESSION_INIT: u8 = 0;

/// Opcode of the session deinit command.
pub const OID_SESSION_DEINIT: u8 = 1;

/// Opcode of the session status notification.
pub const OID_SESSION_STATUS: u8 = 2;

/// Opcode of the session set-app-config command.
pub const OID_SESSION_SET_APP_CONFIG: u8 = 3;

/// Opcode of the session get-app-config command.
pub const OID_SESSION_GET_APP_CONFIG: u8 = 4;

/// Opcode of the session get-count command.
pub const OID_SESSION_GET_COUNT: u8 = 5;

/// Opcode of the session get-state command.
pub const OID_SESSION_GET_STATE: u8 = 6;

/// Opcode of the session update-controller-multicast-list command.
pub const OID_SESSION_UPDATE_MULTICAST_LIST: u8 = 7;

/// Opcode of the range start command and of the range data notification.
pub const OID_RANGE_START: u8 = 0;

/// Opcode of the range stop command.
pub const OID_RANGE_STOP: u8 = 1;

/// Opcode of the get-power-stats command.
pub const OID_ANDROID_GET_POWER_STATS: u8 = 0;

/// Opcode of the set-country-code command.
pub const OID_ANDROID_SET_COUNTRY_CODE: u8 = 1;

/// Offset of the measurement-type field in a range data notification payload.
pub const RANGE_DATA_MEASUREMENT_TYPE_OFFSET: usize = 13;

/// Offset of the address-mode field in a range data notification payload.
pub const RANGE_DATA_MAC_MODE_OFFSET: usize = 15;

/// Measurement-type value of a two-way ranging record.
pub const MEASUREMENT_TYPE_TWO_WAY: u8 = 1;

/// Address-mode value of short addresses.
pub const MAC_MODE_SHORT: u8 = 0;

/// Address-mode value of extended addresses.
pub const MAC_MODE_EXTENDED: u8 = 1;

/// Whether a group identifier belongs to the vendor-reserved space.
pub open spec fn is_vendor_gid(gid: u8) -> bool {
    gid == 0x09 || gid == 0x0a || gid == 0x0b || gid == 0x0e || gid == 0x0f
}

/// The kind of a decoded message: one name per routing table entry.
#[derive(Clone, Copy, Debug, PartialEq, Eq, Structural)]
pub enum MsgKind {
    DeviceResetRsp,
    GetDeviceInfoRsp,
    GetCapsInfoRsp,
    SetConfigRsp,
    GetConfigRsp,
    SessionInitRsp,
    SessionDeinitRsp,
    SessionSetAppConfigRsp,
    SessionGetAppConfigRsp,
    SessionGetCountRsp,
    SessionGetStateRsp,
    SessionUpdateControllerMulticastListRsp,
    RangeStartRsp,
    RangeStopRsp,
    AndroidGetPowerStatsRsp,
    AndroidSetCountryCodeRsp,
    RawVendorRsp,
    DeviceStatusNtf,
    GenericError,
    SessionStatusNtf,
    SessionUpdateControllerMulticastListNtf,
    ShortMacTwoWayRangeDataNtf,
    ExtendedMacTwoWayRangeDataNtf,
    RawVendorNtf,
}

/// A decoded message as the specifications see it: its routed kind, the
/// group and opcode it arrived under, and its payload bytes.
pub struct SpecMessage {
    /// The routing table entry the packet matched.
    pub kind: MsgKind,
    /// Group identifier of the packet.
    pub gid: u8,
    /// Opcode identifier of the packet.
    pub oid: u8,
    /// Payload bytes of the packet, unchanged.
    pub payload: Seq<u8>,
}

/// The routing table of response packets.
pub open spec fn spec_classify_response(gid: u8, oid: u8, payload: Seq<u8>) -> Option<MsgKind> {
    if gid == GID_CORE {
        if oid == OID_DEVICE_RESET {
            if payload.len() == 1 {
                Some(MsgKind::DeviceResetRsp)
            } else {
                None
            }
        } else if oid == OID_GET_DEVICE_INFO {
            Some(MsgKind::GetDeviceInfoRsp)
        } else if oid == OID_GET_CAPS_INFO {
            Some(MsgKind::GetCapsInfoRsp)
        } else if oid == OID_SET_CONFIG {
            Some(MsgKind::SetConfigRsp)
        } else if oid == OID_GET_CONFIG {
            Some(MsgKind::GetConfigRsp)
        } else {
            None
        }
    } else if gid == GID_SESSION_CONFIG {
        if oid == OID_SESSION_INIT {
            Some(MsgKind::SessionInitRsp)
        } else if oid == OID_SESSION_DEINIT {
            Some(MsgKind::SessionDeinitRsp)
        } else if oid == OID_SESSION_SET_APP_CONFIG {
            Some(MsgKind::SessionSetAppConfigRsp)
        } else if oid == OID_SESSION_GET_APP_CONFIG {
            Some(MsgKind::SessionGetAppConfigRsp)
        } else if oid == OID_SESSION_GET_COUNT {
            Some(MsgKind::SessionGetCountRsp)
        } else if oid == OID_SESSION_GET_STATE {
            Some(MsgKind::SessionGetStateRsp)
        } else if oid == OID_SESSION_UPDATE_MULTICAST_LIST {
            Some(MsgKind::SessionUpdateControllerMulticastListRsp)
        } else {
            None
        }
    } else if gid == GID_RANGING {
        if oid == OID_RANGE_START {
            Some(MsgKind::RangeStartRsp)
        } else if oid == OID_RANGE_STOP {
            Some(MsgKind::RangeStopRsp)
        } else {
            None
        }
    } else if gid == GID_ANDROID {
        if oid == OID_ANDROID_GET_POWER_STATS {
            Some(MsgKind::AndroidGetPowerStatsRsp)
        } else if oid == OID_ANDROID_SET_COUNTRY_CODE {
            Some(MsgKind::AndroidSetCountryCodeRsp)
        } else {
            None
        }
    } else if is_vendor_gid(gid) {
        Some(MsgKind::RawVendorRsp)
    } else {
        None
    }
}

/// The routing table of notification packets.
pub open spec fn spec_classify_notification(gid: u8, oid: u8, payload: Seq<u8>) -> Option<
    MsgKind,
> {
    if gid == GID_CORE {
        if oid == OID_DEVICE_STATUS {
            Some(MsgKind::DeviceStatusNtf)
        } else if oid == OID_GENERIC_ERROR {
            Some(MsgKind::GenericError)
        } else {
            None
        }
    } else if gid == GID_SESSION_CONFIG {
        if oid == OID_SESSION_STATUS {
            Some(MsgKind::SessionStatusNtf)
        } else if oid == OID_SESSION_UPDATE_MULTICAST_LIST {
            Some(MsgKind::SessionUpdateControllerMulticastListNtf)
        } else {
            None
        }
    } else if gid == GID_RANGING {
        if oid == OID_RANGE_START && payload.len() > RANGE_DATA_MAC_MODE_OFFSET
            && payload[RANGE_DATA_MEASUREMENT_TYPE_OFFSET as int] == MEASUREMENT_TYPE_TWO_WAY {
            if payload[RANGE_DATA_MAC_MODE_OFFSET as int] == MAC_MODE_SHORT {
                Some(MsgKind::ShortMacTwoWayRangeDataNtf)
            } else if payload[RANGE_DATA_MAC_MODE_OFFSET as int] == MAC_MODE_EXTENDED {
                Some(MsgKind::ExtendedMacTwoWayRangeDataNtf)
            } else {
                None
            }
        } else {
            None
        }
    } else if is_vendor_gid(gid) {
        Some(MsgKind::RawVendorNtf)
    } else {
        None
    }
}

/// The full routing table: what a complete packet decodes to, if anything.
pub open spec fn spec_decode(mt: u8, gid: u8, oid: u8, payload: Seq<u8>) -> Option<SpecMessage> {
    if mt == MT_RESPONSE {
        match spec_classify_response(gid, oid, payload) {
            Some(kind) => Some(SpecMessage { kind, gid, oid, payload }),
            None => None,
        }
    } else if mt == MT_NOTIFICATION {
        match spec_classify_notification(gid, oid, payload) {
            Some(kind) => Some(SpecMessage { kind, gid, oid, payload }),
            None => None,
        }
    } else {
        None
    }
}

/// A decoded response.
#[derive(Clone, Debug, PartialEq, Eq)]
pub enum UciResponse {
    DeviceResetRsp { status: u8 },
    GetDeviceInfoRsp { payload: Vec<u8> },
    GetCapsInfoRsp { payload: Vec<u8> },
    SetConfigRsp { payload: Vec<u8> },
    GetConfigRsp { payload: Vec<u8> },
    SessionInitRsp { payload: Vec<u8> },
    SessionDeinitRsp { payload: Vec<u8> },
    SessionSetAppConfigRsp { payload: Vec<u8> },
    SessionGetAppConfigRsp { payload: Vec<u8> },
    SessionGetCountRsp { payload: Vec<u8> },
    SessionGetStateRsp { payload: Vec<u8> },
    SessionUpdateControllerMulticastListRsp { payload: Vec<u8> },
    RangeStartRsp { payload: Vec<u8> },
    RangeStopRsp { payload: Vec<u8> },
    AndroidGetPowerStatsRsp { payload: Vec<u8> },
    AndroidSetCountryCodeRsp { payload: Vec<u8> },
    RawVendorRsp { gid: u8, oid: u8, payload: Vec<u8> },
}

impl UciResponse {
    /// The response as the specifications see it.
    pub open spec fn model(self) -> SpecMessage {
        match self {
            UciResponse::DeviceResetRsp { status } => SpecMessage {
                kind: MsgKind::DeviceResetRsp,
                gid: GID_CORE,
                oid: OID_DEVICE_RESET,
                payload: seq![status],
            },
            UciResponse::GetDeviceInfoRsp { payload } => SpecMessage {
                kind: MsgKind::GetDeviceInfoRsp,
                gid: GID_CORE,
                oid: OID_GET_DEVICE_INFO,
                payload: payload@,
            },
            UciResponse::GetCapsInfoRsp { payload } => SpecMessage {
                kind: MsgKind::GetCapsInfoRsp,
                gid: GID_CORE,
                oid: OID_GET_CAPS_INFO,
                payload: payload@,
            },
            UciResponse::SetConfigRsp { payload } => SpecMessage {
                kind: MsgKind::SetConfigRsp,
                gid: GID_CORE,
                oid: OID_SET_CONFIG,
                payload: payload@,
            },
            UciResponse::GetConfigRsp { payload } => SpecMessage {
                kind: MsgKind::GetConfigRsp,
                gid: GID_CORE,
                oid: OID_GET_CONFIG,
                payload: payload@,
            },
            UciResponse::SessionInitRsp { payload } => SpecMessage {
                kind: MsgKind::SessionInitRsp,
                gid: GID_SESSION_CONFIG,
                oid: OID_SESSION_INIT,
                payload: payload@,
            },
            UciResponse::SessionDeinitRsp { payload } => SpecMessage {
                kind: MsgKind::SessionDeinitRsp,
                gid: GID_SESSION_CONFIG,
                oid: OID_SESSION_DEINIT,
                payload: payload@,
            },
            UciResponse::SessionSetAppConfigRsp { payload } => SpecMessage {
                kind: MsgKind::SessionSetAppConfigRsp,
                gid: GID_SESSION_CONFIG,
                oid: OID_SESSION_SET_APP_CONFIG,
                payload: payload@,
            },
            UciResponse::SessionGetAppConfigRsp { payload } => SpecMessage {
                kind: MsgKind::SessionGetAppConfigRsp,
                gid: GID_SESSION_CONFIG,
                oid: OID_SESSION_GET_APP_CONFIG,
                payload: payload@,
            },
            UciResponse::SessionGetCountRsp { payload } => SpecMessage {
                kind: MsgKind::SessionGetCountRsp,
                gid: GID_SESSION_CONFIG,
                oid: OID_SESSION_GET_COUNT,
                payload: payload@,
            },
            UciResponse::SessionGetStateRsp { payload } => SpecMessage {
                kind: MsgKind::SessionGetStateRsp,
                gid: GID_SESSION_CONFIG,
                oid: OID_SESSION_GET_STATE,
                payload: payload@,
            },
            UciResponse::SessionUpdateControllerMulticastListRsp { payload } => SpecMessage {
                kind: MsgKind::SessionUpdateControllerMulticastListRsp,
                gid: GID_SESSION_CONFIG,
                oid: OID_SESSION_UPDATE_MULTICAST_LIST,
                payload: payload@,
            },
            UciResponse::RangeStartRsp { payload } => SpecMessage {
                kind: MsgKind::RangeStartRsp,
                gid: GID_RANGING,
                oid: OID_RANGE_START,
                payload: payload@,
            },
            UciResponse::RangeStopRsp { payload } => SpecMessage {
                kind: MsgKind::RangeStopRsp,
                gid: GID_RANGING,
                oid: OID_RANGE_STOP,
                payload: payload@,
            },
            UciResponse::AndroidGetPowerStatsRsp { payload } => SpecMessage {
                kind: MsgKind::AndroidGetPowerStatsRsp,
                gid: GID_ANDROID,
                oid: OID_ANDROID_GET_POWER_STATS,
                payload: payload@,
            },
            UciResponse::AndroidSetCountryCodeRsp { payload } => SpecMessage {
                kind: MsgKind::AndroidSetCountryCodeRsp,
                gid: GID_ANDROID,
                oid: OID_ANDROID_SET_COUNTRY_CODE,
                payload: payload@,
            },
            UciResponse::RawVendorRsp { gid, oid, payload } => SpecMessage {
                kind: MsgKind::RawVendorRsp,
                gid,
                oid,
                payload: payload@,
            },
        }
    }
}

/// A decoded notification.
#[derive(Clone, Debug, PartialEq, Eq)]
pub enum UciNotification {
    DeviceStatusNtf { payload: Vec<u8> },
    GenericError { payload: Vec<u8> },
    SessionStatusNtf { payload: Vec<u8> },
    SessionUpdateControllerMulticastListNtf { payload: Vec<u8> },
    ShortMacTwoWayRangeDataNtf { payload: Vec<u8> },
    ExtendedMacTwoWayRangeDataNtf { payload: Vec<u8> },
    RawVendorNtf { gid: u8, oid: u8, payload: Vec<u8> },
}

impl UciNotification {
    /// The notification as the specifications see it.
    pub open spec fn model(self) -> SpecMessage {
        match self {
            UciNotification::DeviceStatusNtf { payload } => SpecMessage {
                kind: MsgKind::DeviceStatusNtf,
                gid: GID_CORE,
                oid: OID_DEVICE_STATUS,
                payload: payload@,
            },
            UciNotification::GenericError { payload } => SpecMessage {
                kind: MsgKind::GenericError,
                gid: GID_CORE,
                oid: OID_GENERIC_ERROR,
                payload: payload@,
            },
            UciNotification::SessionStatusNtf { payload } => SpecMessage {
                kind: MsgKind::SessionStatusNtf,
                gid: GID_SESSION_CONFIG,
                oid: OID_SESSION_STATUS,
                payload: payload@,
            },
            UciNotification::SessionUpdateControllerMulticastListNtf { payload } => SpecMessage {
                kind: MsgKind::SessionUpdateControllerMulticastListNtf,
                gid: GID_SESSION_CONFIG,
                oid: OID_SESSION_UPDATE_MULTICAST_LIST,
                payload: payload@,
            },
            UciNotification::ShortMacTwoWayRangeDataNtf { payload } => SpecMessage {
                kind: MsgKind::ShortMacTwoWayRangeDataNtf,
                gid: GID_RANGING,
                oid: OID_RANGE_START,
                payload: payload@,
            },
            UciNotification::ExtendedMacTwoWayRangeDataNtf { payload } => SpecMessage {
                kind: MsgKind::ExtendedMacTwoWayRangeDataNtf,
                gid: GID_RANGING,
                oid: OID_RANGE_START,
                payload: payload@,
            },
            UciNotification::RawVendorNtf { gid, oid, payload } => SpecMessage {
                kind: MsgKind::RawVendorNtf,
                gid,
                oid,
                payload: payload@,
            },
        }
    }
}

/// A decoded message: either a response or a notification.
#[derive(Clone, Debug, PartialEq, Eq)]
pub enum UciMessage {
    Response(UciResponse),
    Notification(UciNotification),
}

impl UciMessage {
    /// The message as the specifications see it.
    pub open spec fn model(self) -> SpecMessage {
        match self {
            UciMessage::Response(r) => r.model(),
            UciMessage::Notification(n) => n.model(),
        }
    }
}

/// Why a packet failed to decode.
#[derive(Clone, Copy, Debug, PartialEq, Eq, Structural)]
pub enum DecodeError {
    /// The packet matched no entry of the routing table.
    UnsupportedMessage,
}

/// Everything `decode` promises, as a predicate over the packet's model and
/// the result. Decoding is a function of the packet's bytes alone.
pub open spec fn decode_post(p: ChainState, r: Result<UciMessage, DecodeError>) -> bool {
    match spec_decode(p.mt, p.gid, p.oid, p.payload) {
        Some(m) => r matches Ok(msg) && msg.model() == m && (msg is Response <==> p.mt
            == MT_RESPONSE),
        None => r == Err::<UciMessage, DecodeError>(DecodeError::UnsupportedMessage),
    }
}

/// Routes a complete packet by its message type, group and opcode, and
/// returns the typed message carrying the payload unchanged; a packet that
/// matches no entry of the routing table draws `UnsupportedMessage`.
pub fn decode(packet: &LogicalPacket) -> (r: Result<UciMessage, DecodeError>)
    ensures
        decode_post(packet.model(), r),
{
    if packet.mt == MT_RESPONSE {
        decode_response(packet)
    } else if packet.mt == MT_NOTIFICATION {
        decode_notification(packet)
    } else {
        Err(DecodeError::UnsupportedMessage)
    }
}

/// Routes a response-tagged packet through the response table.
fn decode_response(packet: &LogicalPacket) -> (r: Result<UciMessage, DecodeError>)
    requires
        packet.mt == MT_RESPONSE,
    ensures
        decode_post(packet.model(), r),
{
    let gid = packet.gid;
    let oid = packet.oid;
    if gid == GID_CORE {
        if oid == OID_DEVICE_RESET {
            if packet.payload.len() == 1 {
                let status = packet.payload[0];
                proof {
                    assert(seq![status] =~= packet.payload@);
                }
                Ok(UciMessage::Response(UciResponse::DeviceResetRsp { status }))
            } else {
                Err(DecodeError::UnsupportedMessage)
            }
        } else if oid == OID_GET_DEVICE_INFO {
            Ok(UciMessage::Response(UciResponse::GetDeviceInfoRsp {
                payload: copy_bytes(&packet.payload),
            }))
        } else if oid == OID_GET_CAPS_INFO {
            Ok(UciMessage::Response(UciResponse::GetCapsInfoRsp {
                payload: copy_bytes(&packet.payload),
            }))
        } else if oid == OID_SET_CONFIG {
            Ok(UciMessage::Response(UciResponse::SetConfigRsp {
                payload: copy_bytes(&packet.payload),
            }))
        } else if oid == OID_GET_CONFIG {
            Ok(UciMessage::Response(UciResponse::GetConfigRsp {
                payload: copy_bytes(&packet.payload),
            }))
        } else {
            Err(DecodeError::UnsupportedMessage)
        }
    } else if gid == GID_SESSION_CONFIG {
        if oid == OID_SESSION_INIT {
            Ok(UciMessage::Response(UciResponse::SessionInitRsp {
                payload: copy_bytes(&packet.payload),
            }))
        } else if oid == OID_SESSION_DEINIT {
            Ok(UciMessage::Response(UciResponse::SessionDeinitRsp {
                payload: copy_bytes(&packet.payload),
            }))
        } else if oid == OID_SESSION_SET_APP_CONFIG {
            Ok(UciMessage::Response(UciResponse::SessionSetAppConfigRsp {
                payload: copy_bytes(&packet.payload),
            }))
        } else if oid == OID_SESSION_GET_APP_CONFIG {
            Ok(UciMessage::Response(UciResponse::SessionGetAppConfigRsp {
                payload: copy_bytes(&packet.payload),
            }))
        } else if oid == OID_SESSION_GET_COUNT {
            Ok(UciMessage::Response(UciResponse::SessionGetCountRsp {
                payload: copy_bytes(&packet.payload),
            }))
        } else if oid == OID_SESSION_GET_STATE {
            Ok(UciMessage::Response(UciResponse::SessionGetStateRsp {
                payload: copy_bytes(&packet.payload),
            }))
        } else if oid == OID_SESSION_UPDATE_MULTICAST_LIST {
            Ok(UciMessage::Response(UciResponse::SessionUpdateControllerMulticastListRsp {
                payload: copy_bytes(&packet.payload),
            }))
        } else {
            Err(DecodeError::UnsupportedMessage)
        }
    } else if gid == GID_RANGING {
        if oid == OID_RANGE_START {
            Ok(UciMessage::Response(UciResponse::RangeStartRsp {
                payload: copy_bytes(&packet.payload),
            }))
        } else if oid == OID_RANGE_STOP {
            Ok(UciMessage::Response(UciResponse::RangeStopRsp {
                payload: copy_bytes(&packet.payload),
            }))
        } else {
            Err(DecodeError::UnsupportedMessage)
        }
    } else if gid == GID_ANDROID {
        if oid == OID_ANDROID_GET_POWER_STATS {
            Ok(UciMessage::Response(UciResponse::AndroidGetPowerStatsRsp {
                payload: copy_bytes(&packet.payload),
            }))
        } else if oid == OID_ANDROID_SET_COUNTRY_CODE {
            Ok(UciMessage::Response(UciResponse::AndroidSetCountryCodeRsp {
                payload: copy_bytes(&packet.payload),
            }))
        } else {
            Err(DecodeError::UnsupportedMessage)
        }
    } else if gid == 0x09 || gid == 0x0a || gid == 0x0b || gid == 0x0e || gid == 0x0f {
        Ok(UciMessage::Response(UciResponse::RawVendorRsp {
            gid,
            oid,
            payload: copy_bytes(&packet.payload),
        }))
    } else {
        Err(DecodeError::UnsupportedMessage)
    }
}

/// Routes a notification-tagged packet through the notification table.
fn decode_notification(packet: &LogicalPacket) -> (r: Result<UciMessage, DecodeError>)
    requires
        packet.mt == MT_NOTIFICATION,
    ensures
        decode_post(packet.model(), r),
{
    let gid = packet.gid;
    let oid = packet.oid;
    if gid == GID_CORE {
        if oid == OID_DEVICE_STATUS {
            Ok(UciMessage::Notification(UciNotification::DeviceStatusNtf {
                payload: copy_bytes(&packet.payload),
            }))
        } else if oid == OID_GENERIC_ERROR {
            Ok(UciMessage::Notification(UciNotification::GenericError {
                payload: copy_bytes(&packet.payload),
            }))
        } else {
            Err(DecodeError::UnsupportedMessage)
        }
    } else if gid == GID_SESSION_CONFIG {
        if oid == OID_SESSION_STATUS {
            Ok(UciMessage::Notification(UciNotification::SessionStatusNtf {
                payload: copy_bytes(&packet.payload),
            }))
        } else if oid == OID_SESSION_UPDATE_MULTICAST_LIST {
            Ok(UciMessage::Notification(UciNotification::SessionUpdateControllerMulticastListNtf {
                payload: copy_bytes(&packet.payload),
            }))
        } else {
            Err(DecodeError::UnsupportedMessage)
        }
    } else if gid == GID_RANGING {
        if oid == OID_RANGE_START && packet.payload.len() > RANGE_DATA_MAC_MODE_OFFSET
            && packet.payload[RANGE_DATA_MEASUREMENT_TYPE_OFFSET] == MEASUREMENT_TYPE_TWO_WAY {
            let mode = packet.payload[RANGE_DATA_MAC_MODE_OFFSET];
            if mode == MAC_MODE_SHORT {
                Ok(UciMessage::Notification(UciNotification::ShortMacTwoWayRangeDataNtf {
                    payload: copy_bytes(&packet.payload),
                }))
            } else if mode == MAC_MODE_EXTENDED {
                Ok(UciMessage::Notification(UciNotification::ExtendedMacTwoWayRangeDataNtf {
                    payload: copy_bytes(&packet.payload),
                }))
            } else {
                Err(DecodeError::UnsupportedMessage)
            }
        } else {
            Err(DecodeError::UnsupportedMessage)
        }
    } else if gid == 0x09 || gid == 0x0a || gid == 0x0b || gid == 0x0e || gid == 0x0f {
        Ok(UciMessage::Notification(UciNotification::RawVendorNtf {
            gid,
            oid,
            payload: copy_bytes(&packet.payload),
        }))
    } else {
        Err(DecodeError::UnsupportedMessage)
    }
}

/// Decoding is idempotent: two results that both satisfy the decode
/// contract for one packet are the same message, or the same error.
pub proof fn lemma_decode_idempotent(
    p: ChainState,
    r1: Result<UciMessage, DecodeError>,
    r2: Result<UciMessage, DecodeError>,
)
    requires
        decode_post(p, r1),
        decode_post(p, r2),
    ensures
        r1 is Ok <==> r2 is Ok,
        r1 is Ok ==> r1.unwrap().model() == r2.unwrap().model(),
        r1 is Err ==> r1 == r2,
{
}

} // verus!
