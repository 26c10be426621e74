//! The small closed sets of wire values used by the record layer.

use vstd::prelude::*;

verus! {

/// The kind of data carried by a record, from the first byte of its header.
///
/// Unknown values are tolerated when decoding an inner message type, but a
/// record header must declare one of the four recognized kinds.
#[derive(Clone, Copy, Debug, PartialEq, Eq, Structural)]
pub enum ContentType {
    ChangeCipherSpec,
    Alert,
    Handshake,
    ApplicationData,
    Unknown(u8),
}

/// The wire byte that stands for a content type.
pub open spec fn spec_type_byte(t: ContentType) -> u8 {
    match t {
        ContentType::ChangeCipherSpec => 20,
        ContentType::Alert => 21,
        ContentType::Handshake => 22,
        ContentType::ApplicationData => 23,
        ContentType::Unknown(b) => b,
    }
}

/// The content type read back from a wire byte.
pub open spec fn spec_type_of_byte(b: u8) -> ContentType {
    if b == 20 {
        ContentType::ChangeCipherSpec
    } else if b == 21 {
        ContentType::Alert
    } else if b == 22 {
        ContentType::Handshake
    } else if b == 23 {
        ContentType::ApplicationData
    } else {
        ContentType::Unknown(b)
    }
}

impl ContentType {
    pub fn from_byte(b: u8) -> (t: ContentType)
        ensures
            t == spec_type_of_byte(b),
    {
        if b == 20 {
            ContentType::ChangeCipherSpec
        } else if b == 21 {
            ContentType::Alert
        } else if b == 22 {
            ContentType::Handshake
        } else if b == 23 {
            ContentType::ApplicationData
        } else {
            ContentType::Unknown(b)
        }
    }

    pub fn get_u8(&self) -> (b: u8)
        ensures
            b == spec_type_byte(*self),
    {
        match *self {
            ContentType::ChangeCipherSpec => 20,
            ContentType::Alert => 21,
            ContentType::Handshake => 22,
            ContentType::ApplicationData => 23,
            ContentType::Unknown(b) => b,
        }
    }
}

/// Decoding a content-type byte and re-encoding it gives the byte back.
pub proof fn lemma_type_byte_round_trip(b: u8)
    ensures
        spec_type_byte(spec_type_of_byte(b)) == b,
{
}

/// A 16-bit protocol version. Only the two versions this layer is written
/// for are named; every other value is carried through as `Unknown`.
#[derive(Clone, Copy, Debug, PartialEq, Eq, Structural)]
pub enum ProtocolVersion {
    TLSv1_2,
    TLSv1_3,
    Unknown(u16),
}

/// The wire value of a protocol version.
pub open spec fn spec_version_u16(v: ProtocolVersion) -> u16 {
    match v {
        ProtocolVersion::TLSv1_2 => 0x0303,
        ProtocolVersion::TLSv1_3 => 0x0304,
        ProtocolVersion::Unknown(x) => x,
    }
}

/// The protocol version read back from a wire value.
pub open spec fn spec_version_of_u16(x: u16) -> ProtocolVersion {
    if x == 0x0303 {
        ProtocolVersion::TLSv1_2
    } else if x == 0x0304 {
        ProtocolVersion::TLSv1_3
    } else {
        ProtocolVersion::Unknown(x)
    }
}

impl ProtocolVersion {
    pub fn from_u16(x: u16) -> (v: ProtocolVersion)
        ensures
            v == spec_version_of_u16(x),
    {
        if x == 0x0303 {
            ProtocolVersion::TLSv1_2
        } else if x == 0x0304 {
            ProtocolVersion::TLSv1_3
        } else {
            ProtocolVersion::Unknown(x)
        }
    }

    pub fn get_u16(&self) -> (x: u16)
        ensures
            x == spec_version_u16(*self),
    {
        match *self {
            ProtocolVersion::TLSv1_2 => 0x0303,
            ProtocolVersion::TLSv1_3 => 0x0304,
            ProtocolVersion::Unknown(x) => x,
        }
    }
}

/// Decoding a version value and re-encoding it gives the value back.
pub proof fn lemma_version_round_trip(x: u16)
    ensures
        spec_version_u16(spec_version_of_u16(x)) == x,
{
}

/// The severity carried in the first byte of an alert payload.
#[derive(Clone, Copy, Debug, PartialEq, Eq, Structural)]
pub enum AlertLevel {
    Warning,
    Fatal,
    Unknown(u8),
}

pub open spec fn spec_alert_level_byte(l: AlertLevel) -> u8 {
    match l {
        AlertLevel::Warning => 1,
        AlertLevel::Fatal => 2,
        AlertLevel::Unknown(b) => b,
    }
}

pub open spec fn spec_alert_level_of_byte(b: u8) -> AlertLevel {
    if b == 1 {
        AlertLevel::Warning
    } else if b == 2 {
        AlertLevel::Fatal
    } else {
        AlertLevel::Unknown(b)
    }
}

impl AlertLevel {
    pub fn from_byte(b: u8) -> (l: AlertLevel)
        ensures
            l == spec_alert_level_of_byte(b),
    {
        if b == 1 {
            AlertLevel::Warning
        } else if b == 2 {
            AlertLevel::Fatal
        } else {
            AlertLevel::Unknown(b)
        }
    }

    pub fn get_u8(&self) -> (b: u8)
        ensures
            b == spec_alert_level_byte(*self),
    {
        match *self {
            AlertLevel::Warning => 1,
            AlertLevel::Fatal => 2,
            AlertLevel::Unknown(b) => b,
        }
    }
}

/// The reason carried in the second byte of an alert payload.
#[derive(Clone, Copy, Debug, PartialEq, Eq, Structural)]
pub enum AlertDescription {
    CloseNotify,
    UnexpectedMessage,
    DecodeError,
    Unknown(u8),
}

pub open spec fn spec_alert_desc_byte(d: AlertDescription) -> u8 {
    match d {
        AlertDescription::CloseNotify => 0,
        AlertDescription::UnexpectedMessage => 10,
        AlertDescription::DecodeError => 50,
        AlertDescription::Unknown(b) => b,
    }
}

pub open spec fn spec_alert_desc_of_byte(b: u8) -> AlertDescription {
    if b == 0 {
        AlertDescription::CloseNotify
    } else if b == 10 {
        AlertDescription::UnexpectedMessage
    } else if b == 50 {
        AlertDescription::DecodeError
    } else {
        AlertDescription::Unknown(b)
    }
}

impl AlertDescription {
    pub fn from_byte(b: u8) -> (d: AlertDescription)
        ensures
            d == spec_alert_desc_of_byte(b),
    {
        if b == 0 {
            AlertDescription::CloseNotify
        } else if b == 10 {
            AlertDescription::UnexpectedMessage
        } else if b == 50 {
            AlertDescription::DecodeError
        } else {
            AlertDescription::Unknown(b)
        }
    }

    pub fn get_u8(&self) -> (b: u8)
        ensures
            b == spec_alert_desc_byte(*self),
    {
        match *self {
            AlertDescription::CloseNotify => 0,
            AlertDescription::UnexpectedMessage => 10,
            AlertDescription::DecodeError => 50,
            AlertDescription::Unknown(b) => b,
        }
    }
}

/// The kind of a handshake message, from the first byte of its header.
/// Only the kinds this layer itself builds are named; all others are
/// carried through as `Unknown`.
#[derive(Clone, Copy, Debug, PartialEq, Eq, Structural)]
pub enum HandshakeType {
    ClientHello,
    ServerHello,
    Finished,
    KeyUpdate,
    Unknown(u8),
}

pub open spec fn spec_hs_type_byte(t: HandshakeType) -> u8 {
    match t {
        HandshakeType::ClientHello => 1,
        HandshakeType::ServerHello => 2,
        HandshakeType::Finished => 20,
        HandshakeType::KeyUpdate => 24,
        HandshakeType::Unknown(b) => b,
    }
}

pub open spec fn spec_hs_type_of_byte(b: u8) -> HandshakeType {
    if b == 1 {
        HandshakeType::ClientHello
    } else if b == 2 {
        HandshakeType::ServerHello
    } else if b == 20 {
        HandshakeType::Finished
    } else if b == 24 {
        HandshakeType::KeyUpdate
    } else {
        HandshakeType::Unknown(b)
    }
}

impl HandshakeType {
    pub fn from_byte(b: u8) -> (t: HandshakeType)
        ensures
            t == spec_hs_type_of_byte(b),
    {
        if b == 1 {
            HandshakeType::ClientHello
        } else if b == 2 {
            HandshakeType::ServerHello
        } else if b == 20 {
            HandshakeType::Finished
        } else if b == 24 {
            HandshakeType::KeyUpdate
        } else {
            HandshakeType::Unknown(b)
        }
    }

    pub fn get_u8(&self) -> (b: u8)
        ensures
            b == spec_hs_type_byte(*self),
    {
        match *self {
            HandshakeType::ClientHello => 1,
            HandshakeType::ServerHello => 2,
            HandshakeType::Finished => 20,
            HandshakeType::KeyUpdate => 24,
            HandshakeType::Unknown(b) => b,
        }
    }
}

} // verus!
