//! Discovered targets: the tagged representation and its codec to and from
//! the native record, whose payload is a union selected by the record's
//! modulation type.

use crate::layout::read_u32;
use crate::modulation::{BaudRate, DepMode, ModulationType};
use crate::target_info::{
    BarcodeInfo, DepInfo, FelicaInfo, INFO_LEN, Iso14443aInfo, Iso14443b2ctInfo, Iso14443b2srInfo,
    Iso14443bInfo, Iso14443biInfo, JewelInfo,
};
use vstd::prelude::*;

verus! {

/// A discovered target: its speed and its technology-specific payload.
#[derive(Debug, Clone, Copy, PartialEq, Eq)]
pub struct Target {
    pub baud_rate: BaudRate,
    pub info: TargetInfo,
}

/// The payload of a target; the variant is the target's technology.
#[allow(non_camel_case_types)]
#[derive(Debug, Clone, Copy, PartialEq, Eq)]
pub enum TargetInfo {
    ISO14443A { info: Iso14443aInfo },
    FELICA { info: FelicaInfo },
    ISO14443B { info: Iso14443bInfo },
    ISO14443BI { info: Iso14443biInfo },
    ISO14443B2SR { info: Iso14443b2srInfo },
    ISO14443B2CT { info: Iso14443b2ctInfo },
    JEWEL { info: JewelInfo },
    BARCODE { info: BarcodeInfo },
    DEP { info: DepInfo },
}

impl TargetInfo {
    /// The technology of the payload.
    pub open spec fn spec_modulation_type(self) -> ModulationType {
        match self {
            TargetInfo::ISO14443A { .. } => ModulationType::Iso14443a,
            TargetInfo::FELICA { .. } => ModulationType::Felica,
            TargetInfo::ISO14443B { .. } => ModulationType::Iso14443b,
            TargetInfo::ISO14443BI { .. } => ModulationType::Iso14443bi,
            TargetInfo::ISO14443B2SR { .. } => ModulationType::Iso14443b2sr,
            TargetInfo::ISO14443B2CT { .. } => ModulationType::Iso14443b2ct,
            TargetInfo::JEWEL { .. } => ModulationType::Jewel,
            TargetInfo::BARCODE { .. } => ModulationType::Barcode,
            TargetInfo::DEP { .. } => ModulationType::Dep,
        }
    }

    /// The union bytes that hold the payload.
    pub open spec fn layout(self) -> Seq<u8> {
        match self {
            TargetInfo::ISO14443A { info } => info.layout(),
            TargetInfo::FELICA { info } => info.layout(),
            TargetInfo::ISO14443B { info } => info.layout(),
            TargetInfo::ISO14443BI { info } => info.layout(),
            TargetInfo::ISO14443B2SR { info } => info.layout(),
            TargetInfo::ISO14443B2CT { info } => info.layout(),
            TargetInfo::JEWEL { info } => info.layout(),
            TargetInfo::BARCODE { info } => info.layout(),
            TargetInfo::DEP { info } => info.layout(),
        }
    }

    /// Whether union bytes hold this payload, read through its own arm.
    pub open spec fn decoded_from(self, b: Seq<u8>) -> bool {
        match self {
            TargetInfo::ISO14443A { info } => info.decoded_from(b),
            TargetInfo::FELICA { info } => info.decoded_from(b),
            TargetInfo::ISO14443B { info } => info.decoded_from(b),
            TargetInfo::ISO14443BI { info } => info.decoded_from(b),
            TargetInfo::ISO14443B2SR { info } => info.decoded_from(b),
            TargetInfo::ISO14443B2CT { info } => info.decoded_from(b),
            TargetInfo::JEWEL { info } => info.decoded_from(b),
            TargetInfo::BARCODE { info } => info.decoded_from(b),
            TargetInfo::DEP { info } => info.decoded_from(b),
        }
    }

    /// The technology of the payload.
    pub fn modulation_type(&self) -> (r: ModulationType)
        ensures
            r == self.spec_modulation_type(),
    {
        match self {
            TargetInfo::ISO14443A { .. } => ModulationType::Iso14443a,
            TargetInfo::FELICA { .. } => ModulationType::Felica,
            TargetInfo::ISO14443B { .. } => ModulationType::Iso14443b,
            TargetInfo::ISO14443BI { .. } => ModulationType::Iso14443bi,
            TargetInfo::ISO14443B2SR { .. } => ModulationType::Iso14443b2sr,
            TargetInfo::ISO14443B2CT { .. } => ModulationType::Iso14443b2ct,
            TargetInfo::JEWEL { .. } => ModulationType::Jewel,
            TargetInfo::BARCODE { .. } => ModulationType::Barcode,
            TargetInfo::DEP { .. } => ModulationType::Dep,
        }
    }
}

/// A target record as the native layer lays it out: the payload union as
/// bytes, then the modulation type and baud rate codes.
#[derive(Debug, Clone)]
pub struct RawTarget {
    pub info: Vec<u8>,
    pub modulation_type: u32,
    pub baud_rate: u32,
}

/// The contents of a native target record.
pub struct RawTargetView {
    pub info: Seq<u8>,
    pub modulation_type: u32,
    pub baud_rate: u32,
}

impl View for RawTarget {
    type V = RawTargetView;

    open spec fn view(&self) -> RawTargetView {
        RawTargetView {
            info: self.info@,
            modulation_type: self.modulation_type,
            baud_rate: self.baud_rate,
        }
    }
}

impl RawTargetView {
    /// Whether the record can be decoded: a payload union of the right size,
    /// a known modulation type and baud rate, and, for a DEP target, a known
    /// DEP mode.
    pub open spec fn wf(self) -> bool {
        &&& self.info.len() == INFO_LEN
        &&& ModulationType::spec_from_code(self.modulation_type) is Some
        &&& BaudRate::spec_from_code(self.baud_rate) is Some
        &&& ModulationType::spec_from_code(self.modulation_type) == Some(ModulationType::Dep)
            ==> DepInfo::readable(self.info)
    }

    /// Whether the record holds `t`: its codes are `t`'s, and the arm that
    /// its modulation type selects holds `t`'s payload.
    pub open spec fn decodes_to(self, t: Target) -> bool {
        &&& BaudRate::spec_from_code(self.baud_rate) == Some(t.baud_rate)
        &&& ModulationType::spec_from_code(self.modulation_type) == Some(
            t.info.spec_modulation_type(),
        )
        &&& t.info.decoded_from(self.info)
    }
}

impl RawTarget {
    /// Whether the record can be decoded; a record that cannot is outside
    /// what the native layer is known to produce.
    pub fn is_decodable(&self) -> (r: bool)
        ensures
            r == self@.wf(),
    {
        if self.info.len() != INFO_LEN {
            return false;
        }
        match (ModulationType::from_code(self.modulation_type), BaudRate::from_code(self.baud_rate)) {
            (Some(ModulationType::Dep), Some(_)) => {
                DepMode::from_code(read_u32(self.info.as_slice(), 72)).is_some()
            },
            (Some(_), Some(_)) => true,
            _ => false,
        }
    }
}

impl Target {
    /// The native record that holds the target.
    pub open spec fn spec_encode(self) -> RawTargetView {
        RawTargetView {
            info: self.info.layout(),
            modulation_type: self.info.spec_modulation_type().spec_code(),
            baud_rate: self.baud_rate.spec_code(),
        }
    }

    /// The native record for this target, as calls that take a target expect it.
    pub fn encode(&self) -> (r: RawTarget)
        ensures
            r@ == self.spec_encode(),
    {
        let info = match &self.info {
            TargetInfo::ISO14443A { info } => info.write(),
            TargetInfo::FELICA { info } => info.write(),
            TargetInfo::ISO14443B { info } => info.write(),
            TargetInfo::ISO14443BI { info } => info.write(),
            TargetInfo::ISO14443B2SR { info } => info.write(),
            TargetInfo::ISO14443B2CT { info } => info.write(),
            TargetInfo::JEWEL { info } => info.write(),
            TargetInfo::BARCODE { info } => info.write(),
            TargetInfo::DEP { info } => info.write(),
        };
        RawTarget {
            info,
            modulation_type: self.info.modulation_type().code(),
            baud_rate: self.baud_rate.code(),
        }
    }

    /// The target that a native record holds; the modulation type is read
    /// first and selects the one arm of the payload union that is read.
    pub fn decode(raw: &RawTarget) -> (r: Target)
        requires
            raw@.wf(),
        ensures
            raw@.decodes_to(r),
    {
        let b = raw.info.as_slice();
        let baud_rate = match BaudRate::from_code(raw.baud_rate) {
            Some(nbr) => nbr,
            None => {
                proof {
                    assert(false);
                }
                BaudRate::Undefined
            },
        };
        let info = match ModulationType::from_code(raw.modulation_type) {
            Some(ModulationType::Iso14443a) => TargetInfo::ISO14443A { info: Iso14443aInfo::read(b) },
            Some(ModulationType::Jewel) => TargetInfo::JEWEL { info: JewelInfo::read(b) },
            Some(ModulationType::Iso14443b) => TargetInfo::ISO14443B { info: Iso14443bInfo::read(b) },
            Some(ModulationType::Iso14443bi) => TargetInfo::ISO14443BI {
                info: Iso14443biInfo::read(b),
            },
            Some(ModulationType::Iso14443b2sr) => TargetInfo::ISO14443B2SR {
                info: Iso14443b2srInfo::read(b),
            },
            Some(ModulationType::Iso14443b2ct) => TargetInfo::ISO14443B2CT {
                info: Iso14443b2ctInfo::read(b),
            },
            Some(ModulationType::Felica) => TargetInfo::FELICA { info: FelicaInfo::read(b) },
            Some(ModulationType::Dep) => TargetInfo::DEP { info: DepInfo::read(b) },
            Some(ModulationType::Barcode) => TargetInfo::BARCODE { info: BarcodeInfo::read(b) },
            None => {
                proof {
                    assert(false);
                }
                TargetInfo::BARCODE { info: BarcodeInfo::read(b) }
            },
        };
        Target { baud_rate, info }
    }
}

/// A record read back from the encoding of a target is decodable, and the
/// only target it holds is the one encoded.
pub proof fn lemma_decode_encode(t: Target, r: Target)
    ensures
        t.spec_encode().wf(),
        t.spec_encode().decodes_to(r) ==> r == t,
{
    let raw = t.spec_encode();
    match t.info {
        TargetInfo::DEP { info } => {
            crate::layout::lemma_le32(info.ndm.spec_code());
            assert(raw.info.subrange(72, 76) =~= crate::layout::le32(info.ndm.spec_code()));
        },
        _ => {},
    }
    if raw.decodes_to(r) {
        match (t.info, r.info) {
            (TargetInfo::ISO14443A { info: a }, TargetInfo::ISO14443A { info: b }) => a.lemma_round_trip(b),
            (TargetInfo::FELICA { info: a }, TargetInfo::FELICA { info: b }) => a.lemma_round_trip(b),
            (TargetInfo::ISO14443B { info: a }, TargetInfo::ISO14443B { info: b }) => a.lemma_round_trip(b),
            (TargetInfo::ISO14443BI { info: a }, TargetInfo::ISO14443BI { info: b }) => a.lemma_round_trip(b),
            (TargetInfo::ISO14443B2SR { info: a }, TargetInfo::ISO14443B2SR { info: b }) => a.lemma_round_trip(b),
            (TargetInfo::ISO14443B2CT { info: a }, TargetInfo::ISO14443B2CT { info: b }) => a.lemma_round_trip(b),
            (TargetInfo::JEWEL { info: a }, TargetInfo::JEWEL { info: b }) => a.lemma_round_trip(b),
            (TargetInfo::BARCODE { info: a }, TargetInfo::BARCODE { info: b }) => a.lemma_round_trip(b),
            (TargetInfo::DEP { info: a }, TargetInfo::DEP { info: b }) => a.lemma_round_trip(b),
            _ => {},
        }
    }
}

} // verus!
