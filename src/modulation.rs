//! The native layer's enumerants: modulation types, baud rates, DEP modes
//! and device properties, with the integer codes that the native layer uses.

use vstd::prelude::*;

verus! {

/// Signalling speed of a modulation.
#[derive(Debug, Clone, Copy, PartialEq, Eq, Structural)]
pub enum BaudRate {
    Undefined,
    Nbr106,
    Nbr212,
    Nbr424,
    Nbr847,
}

impl BaudRate {
    /// The native code of the value.
    pub open spec fn spec_code(self) -> u32 {
        match self {
            BaudRate::Undefined => 0,
            BaudRate::Nbr106 => 1,
            BaudRate::Nbr212 => 2,
            BaudRate::Nbr424 => 3,
            BaudRate::Nbr847 => 4,
        }
    }

    /// The value with a native code; `None` for a code outside the known set.
    pub open spec fn spec_from_code(code: u32) -> Option<BaudRate> {
        if code == 0 {
            Some(BaudRate::Undefined)
        } else if code == 1 {
            Some(BaudRate::Nbr106)
        } else if code == 2 {
            Some(BaudRate::Nbr212)
        } else if code == 3 {
            Some(BaudRate::Nbr424)
        } else if code == 4 {
            Some(BaudRate::Nbr847)
        } else {
            None
        }
    }

    /// The native code of the baud rate.
    pub fn code(&self) -> (r: u32)
        ensures
            r == self.spec_code(),
    {
        match self {
            BaudRate::Undefined => 0,
            BaudRate::Nbr106 => 1,
            BaudRate::Nbr212 => 2,
            BaudRate::Nbr424 => 3,
            BaudRate::Nbr847 => 4,
        }
    }

    /// The baud rate with a native code, if there is one.
    pub fn from_code(code: u32) -> (r: Option<BaudRate>)
        ensures
            r == BaudRate::spec_from_code(code),
    {
        match code {
            0 => Some(BaudRate::Undefined),
            1 => Some(BaudRate::Nbr106),
            2 => Some(BaudRate::Nbr212),
            3 => Some(BaudRate::Nbr424),
            4 => Some(BaudRate::Nbr847),
            _ => None,
        }
    }
}

/// The card technology a modulation selects.
#[derive(Debug, Clone, Copy, PartialEq, Eq, Structural)]
pub enum ModulationType {
    Iso14443a,
    Jewel,
    Iso14443b,
    Iso14443bi,
    Iso14443b2sr,
    Iso14443b2ct,
    Felica,
    Dep,
    Barcode,
}

impl ModulationType {
    /// The native code of the value.
    pub open spec fn spec_code(self) -> u32 {
        match self {
            ModulationType::Iso14443a => 1,
            ModulationType::Jewel => 2,
            ModulationType::Iso14443b => 3,
            ModulationType::Iso14443bi => 4,
            ModulationType::Iso14443b2sr => 5,
            ModulationType::Iso14443b2ct => 6,
            ModulationType::Felica => 7,
            ModulationType::Dep => 8,
            ModulationType::Barcode => 9,
        }
    }

    /// The value with a native code; `None` for a code outside the known set.
    pub open spec fn spec_from_code(code: u32) -> Option<ModulationType> {
        if code == 1 {
            Some(ModulationType::Iso14443a)
        } else if code == 2 {
            Some(ModulationType::Jewel)
        } else if code == 3 {
            Some(ModulationType::Iso14443b)
        } else if code == 4 {
            Some(ModulationType::Iso14443bi)
        } else if code == 5 {
            Some(ModulationType::Iso14443b2sr)
        } else if code == 6 {
            Some(ModulationType::Iso14443b2ct)
        } else if code == 7 {
            Some(ModulationType::Felica)
        } else if code == 8 {
            Some(ModulationType::Dep)
        } else if code == 9 {
            Some(ModulationType::Barcode)
        } else {
            None
        }
    }

    /// The native code of the modulation type.
    pub fn code(&self) -> (r: u32)
        ensures
            r == self.spec_code(),
    {
        match self {
            ModulationType::Iso14443a => 1,
            ModulationType::Jewel => 2,
            ModulationType::Iso14443b => 3,
            ModulationType::Iso14443bi => 4,
            ModulationType::Iso14443b2sr => 5,
            ModulationType::Iso14443b2ct => 6,
            ModulationType::Felica => 7,
            ModulationType::Dep => 8,
            ModulationType::Barcode => 9,
        }
    }

    /// The modulation type with a native code, if there is one.
    pub fn from_code(code: u32) -> (r: Option<ModulationType>)
        ensures
            r == ModulationType::spec_from_code(code),
    {
        match code {
            1 => Some(ModulationType::Iso14443a),
            2 => Some(ModulationType::Jewel),
            3 => Some(ModulationType::Iso14443b),
            4 => Some(ModulationType::Iso14443bi),
            5 => Some(ModulationType::Iso14443b2sr),
            6 => Some(ModulationType::Iso14443b2ct),
            7 => Some(ModulationType::Felica),
            8 => Some(ModulationType::Dep),
            9 => Some(ModulationType::Barcode),
            _ => None,
        }
    }
}

/// A modulation: a technology and a speed.
#[derive(Debug, Clone, Copy, PartialEq, Eq, Structural)]
pub struct Modulation {
    pub nmt: ModulationType,
    pub nbr: BaudRate,
}

/// Mode of a device-to-device (DEP) exchange.
#[derive(Debug, Clone, Copy, PartialEq, Eq, Structural)]
pub enum DepMode {
    Undefined,
    Passive,
    Active,
}

impl DepMode {
    /// The native code of the value.
    pub open spec fn spec_code(self) -> u32 {
        match self {
            DepMode::Undefined => 0,
            DepMode::Passive => 1,
            DepMode::Active => 2,
        }
    }

    /// The value with a native code; `None` for a code outside the known set.
    pub open spec fn spec_from_code(code: u32) -> Option<DepMode> {
        if code == 0 {
            Some(DepMode::Undefined)
        } else if code == 1 {
            Some(DepMode::Passive)
        } else if code == 2 {
            Some(DepMode::Active)
        } else {
            None
        }
    }

    /// The native code of the mode.
    pub fn code(&self) -> (r: u32)
        ensures
            r == self.spec_code(),
    {
        match self {
            DepMode::Undefined => 0,
            DepMode::Passive => 1,
            DepMode::Active => 2,
        }
    }

    /// The mode with a native code, if there is one.
    pub fn from_code(code: u32) -> (r: Option<DepMode>)
        ensures
            r == DepMode::spec_from_code(code),
    {
        match code {
            0 => Some(DepMode::Undefined),
            1 => Some(DepMode::Passive),
            2 => Some(DepMode::Active),
            _ => None,
        }
    }
}

/// A configurable property of a device.
#[derive(Debug, Clone, Copy, PartialEq, Eq, Structural)]
pub enum Property {
    TimeoutCommand,
    TimeoutAtr,
    TimeoutCom,
    HandleCrc,
    HandleParity,
    ActivateField,
    ActivateCrypto1,
    InfiniteSelect,
    AcceptInvalidFrames,
    AcceptMultipleFrames,
    AutoIso14443_4,
    EasyFraming,
    ForceIso14443A,
    ForceIso14443B,
    ForceSpeed106,
}

impl Property {
    /// The native code of the value.
    pub open spec fn spec_code(self) -> u32 {
        match self {
            Property::TimeoutCommand => 0,
            Property::TimeoutAtr => 1,
            Property::TimeoutCom => 2,
            Property::HandleCrc => 3,
            Property::HandleParity => 4,
            Property::ActivateField => 5,
            Property::ActivateCrypto1 => 6,
            Property::InfiniteSelect => 7,
            Property::AcceptInvalidFrames => 8,
            Property::AcceptMultipleFrames => 9,
            Property::AutoIso14443_4 => 10,
            Property::EasyFraming => 11,
            Property::ForceIso14443A => 12,
            Property::ForceIso14443B => 13,
            Property::ForceSpeed106 => 14,
        }
    }

    /// The native code of the property.
    pub fn code(&self) -> (r: u32)
        ensures
            r == self.spec_code(),
    {
        match self {
            Property::TimeoutCommand => 0,
            Property::TimeoutAtr => 1,
            Property::TimeoutCom => 2,
            Property::HandleCrc => 3,
            Property::HandleParity => 4,
            Property::ActivateField => 5,
            Property::ActivateCrypto1 => 6,
            Property::InfiniteSelect => 7,
            Property::AcceptInvalidFrames => 8,
            Property::AcceptMultipleFrames => 9,
            Property::AutoIso14443_4 => 10,
            Property::EasyFraming => 11,
            Property::ForceIso14443A => 12,
            Property::ForceIso14443B => 13,
            Property::ForceSpeed106 => 14,
        }
    }
}

} // verus!
