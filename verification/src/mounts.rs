//! Resolution of the engine's camera-mount codes to canonical display names.
//! The lookup is total: every code outside the published enumeration,
//! reserved and future values included, resolves to "Unknown".

use vstd::prelude::*;

verus! {

pub const MOUNT_ALPA: u32 = 1;

pub const MOUNT_C: u32 = 2;

pub const MOUNT_CANON_EF_M: u32 = 3;

pub const MOUNT_CANON_EF_S: u32 = 4;

pub const MOUNT_CANON_EF: u32 = 5;

pub const MOUNT_CANON_RF: u32 = 6;

pub const MOUNT_CONTAX_N: u32 = 7;

pub const MOUNT_CONTAX645: u32 = 8;

pub const MOUNT_FT: u32 = 9;

pub const MOUNT_MICRO_FT: u32 = 10;

pub const MOUNT_FUJI_GF: u32 = 11;

pub const MOUNT_FUJI_GX: u32 = 12;

pub const MOUNT_FUJI_X: u32 = 13;

pub const MOUNT_HASSELBLAD_H: u32 = 14;

pub const MOUNT_HASSELBLAD_V: u32 = 15;

pub const MOUNT_HASSELBLAD_XCD: u32 = 16;

pub const MOUNT_LEICA_M: u32 = 17;

pub const MOUNT_LEICA_R: u32 = 18;

pub const MOUNT_LEICA_S: u32 = 19;

pub const MOUNT_LEICA_SL: u32 = 20;

pub const MOUNT_LEICA_TL: u32 = 21;

pub const MOUNT_LPS_L: u32 = 22;

pub const MOUNT_MAMIYA67: u32 = 23;

pub const MOUNT_MAMIYA645: u32 = 24;

pub const MOUNT_MINOLTA_A: u32 = 25;

pub const MOUNT_NIKON_CX: u32 = 26;

pub const MOUNT_NIKON_F: u32 = 27;

pub const MOUNT_NIKON_Z: u32 = 28;

pub const MOUNT_PHASEONE_IXM_MV: u32 = 29;

pub const MOUNT_PHASEONE_IXM_RS: u32 = 30;

pub const MOUNT_PHASEONE_IXM: u32 = 31;

pub const MOUNT_PENTAX_645: u32 = 32;

pub const MOUNT_PENTAX_K: u32 = 33;

pub const MOUNT_PENTAX_Q: u32 = 34;

pub const MOUNT_RICOH_MODULE: u32 = 35;

pub const MOUNT_ROLLEI_BAYONET: u32 = 36;

pub const MOUNT_SAMSUNG_NX_M: u32 = 37;

pub const MOUNT_SAMSUNG_NX: u32 = 38;

pub const MOUNT_SIGMA_X3F: u32 = 39;

pub const MOUNT_SONY_E: u32 = 40;

pub const MOUNT_LF: u32 = 41;

pub const MOUNT_DIGITAL_BACK: u32 = 42;

pub const MOUNT_FIXED_LENS: u32 = 43;

pub const MOUNT_IL_UM: u32 = 44;

/// The canonical display name of a mount code; any code outside the
/// published enumeration names "Unknown".
pub open spec fn mount_name(code: u32) -> Seq<char> {
    if code == MOUNT_ALPA {
        "Alpa"@
    } else if code == MOUNT_C {
        "C"@
    } else if code == MOUNT_CANON_EF_M {
        "Canon EF-M"@
    } else if code == MOUNT_CANON_EF_S {
        "Canon EF-S"@
    } else if code == MOUNT_CANON_EF {
        "Canon EF"@
    } else if code == MOUNT_CANON_RF {
        "Canon RF"@
    } else if code == MOUNT_CONTAX_N {
        "Contax N"@
    } else if code == MOUNT_CONTAX645 {
        "Contax645"@
    } else if code == MOUNT_FT {
        "FT"@
    } else if code == MOUNT_MICRO_FT {
        "mFT"@
    } else if code == MOUNT_FUJI_GF {
        "Fuji GF"@
    } else if code == MOUNT_FUJI_GX {
        "Fuji GX"@
    } else if code == MOUNT_FUJI_X {
        "Fuji X"@
    } else if code == MOUNT_HASSELBLAD_H {
        "Hasselblad H"@
    } else if code == MOUNT_HASSELBLAD_V {
        "Hasselblad V"@
    } else if code == MOUNT_HASSELBLAD_XCD {
        "Hasselblad XCD"@
    } else if code == MOUNT_LEICA_M {
        "Leica M"@
    } else if code == MOUNT_LEICA_R {
        "Leica R"@
    } else if code == MOUNT_LEICA_S {
        "Leica S"@
    } else if code == MOUNT_LEICA_SL {
        "Leica SL"@
    } else if code == MOUNT_LEICA_TL {
        "Leica TL"@
    } else if code == MOUNT_LPS_L {
        "LPS L"@
    } else if code == MOUNT_MAMIYA67 {
        "Mamiya67"@
    } else if code == MOUNT_MAMIYA645 {
        "Mamiya645"@
    } else if code == MOUNT_MINOLTA_A {
        "Minolta A"@
    } else if code == MOUNT_NIKON_CX {
        "Nikon CX"@
    } else if code == MOUNT_NIKON_F {
        "Nikon F"@
    } else if code == MOUNT_NIKON_Z {
        "Nikon Z"@
    } else if code == MOUNT_PHASEONE_IXM_MV {
        "PhaseOne iXM MV"@
    } else if code == MOUNT_PHASEONE_IXM_RS {
        "PhaseOne iXM RS"@
    } else if code == MOUNT_PHASEONE_IXM {
        "PhaseOne iXM"@
    } else if code == MOUNT_PENTAX_645 {
        "Pentax 645"@
    } else if code == MOUNT_PENTAX_K {
        "Pentax K"@
    } else if code == MOUNT_PENTAX_Q {
        "Pentax Q"@
    } else if code == MOUNT_RICOH_MODULE {
        "RicohModule"@
    } else if code == MOUNT_ROLLEI_BAYONET {
        "Rollei bayonet"@
    } else if code == MOUNT_SAMSUNG_NX_M {
        "Samsung NX M"@
    } else if code == MOUNT_SAMSUNG_NX {
        "Samsung NX"@
    } else if code == MOUNT_SIGMA_X3F {
        "Sigma X3F"@
    } else if code == MOUNT_SONY_E {
        "Sony E"@
    } else if code == MOUNT_LF {
        "LF"@
    } else if code == MOUNT_DIGITAL_BACK {
        "DigitalBack"@
    } else if code == MOUNT_FIXED_LENS {
        "FixedLens"@
    } else if code == MOUNT_IL_UM {
        "IL UM"@
    } else {
        "Unknown"@
    }
}

/// One code of the engine's closed camera-mount enumeration.
#[derive(Debug, Clone, Copy, PartialEq, Eq, Structural)]
pub struct Mounts(u32);

impl Mounts {
    /// The wrapped mount code.
    pub closed spec fn code(&self) -> u32 {
        self.0
    }

    /// Wraps an engine mount code.
    pub fn from_code(code: u32) -> (r: Mounts)
        ensures
            r.code() == code,
    {
        Mounts(code)
    }

    /// The canonical display name of this mount; never fails, resolving any
    /// unrecognized code to "Unknown".
    pub fn repr(&self) -> (r: &'static str)
        ensures
            r@ == mount_name(self.code()),
    {
        if self.0 == MOUNT_ALPA {
            "Alpa"
        } else if self.0 == MOUNT_C {
            "C"
        } else if self.0 == MOUNT_CANON_EF_M {
            "Canon EF-M"
        } else if self.0 == MOUNT_CANON_EF_S {
            "Canon EF-S"
        } else if self.0 == MOUNT_CANON_EF {
            "Canon EF"
        } else if self.0 == MOUNT_CANON_RF {
            "Canon RF"
        } else if self.0 == MOUNT_CONTAX_N {
            "Contax N"
        } else if self.0 == MOUNT_CONTAX645 {
            "Contax645"
        } else if self.0 == MOUNT_FT {
            "FT"
        } else if self.0 == MOUNT_MICRO_FT {
            "mFT"
        } else if self.0 == MOUNT_FUJI_GF {
            "Fuji GF"
        } else if self.0 == MOUNT_FUJI_GX {
            "Fuji GX"
        } else if self.0 == MOUNT_FUJI_X {
            "Fuji X"
        } else if self.0 == MOUNT_HASSELBLAD_H {
            "Hasselblad H"
        } else if self.0 == MOUNT_HASSELBLAD_V {
            "Hasselblad V"
        } else if self.0 == MOUNT_HASSELBLAD_XCD {
            "Hasselblad XCD"
        } else if self.0 == MOUNT_LEICA_M {
            "Leica M"
        } else if self.0 == MOUNT_LEICA_R {
            "Leica R"
        } else if self.0 == MOUNT_LEICA_S {
            "Leica S"
        } else if self.0 == MOUNT_LEICA_SL {
            "Leica SL"
        } else if self.0 == MOUNT_LEICA_TL {
            "Leica TL"
        } else if self.0 == MOUNT_LPS_L {
            "LPS L"
        } else if self.0 == MOUNT_MAMIYA67 {
            "Mamiya67"
        } else if self.0 == MOUNT_MAMIYA645 {
            "Mamiya645"
        } else if self.0 == MOUNT_MINOLTA_A {
            "Minolta A"
        } else if self.0 == MOUNT_NIKON_CX {
            "Nikon CX"
        } else if self.0 == MOUNT_NIKON_F {
            "Nikon F"
        } else if self.0 == MOUNT_NIKON_Z {
            "Nikon Z"
        } else if self.0 == MOUNT_PHASEONE_IXM_MV {
            "PhaseOne iXM MV"
        } else if self.0 == MOUNT_PHASEONE_IXM_RS {
            "PhaseOne iXM RS"
        } else if self.0 == MOUNT_PHASEONE_IXM {
            "PhaseOne iXM"
        } else if self.0 == MOUNT_PENTAX_645 {
            "Pentax 645"
        } else if self.0 == MOUNT_PENTAX_K {
            "Pentax K"
        } else if self.0 == MOUNT_PENTAX_Q {
            "Pentax Q"
        } else if self.0 == MOUNT_RICOH_MODULE {
            "RicohModule"
        } else if self.0 == MOUNT_ROLLEI_BAYONET {
            "Rollei bayonet"
        } else if self.0 == MOUNT_SAMSUNG_NX_M {
            "Samsung NX M"
        } else if self.0 == MOUNT_SAMSUNG_NX {
            "Samsung NX"
        } else if self.0 == MOUNT_SIGMA_X3F {
            "Sigma X3F"
        } else if self.0 == MOUNT_SONY_E {
            "Sony E"
        } else if self.0 == MOUNT_LF {
            "LF"
        } else if self.0 == MOUNT_DIGITAL_BACK {
            "DigitalBack"
        } else if self.0 == MOUNT_FIXED_LENS {
            "FixedLens"
        } else if self.0 == MOUNT_IL_UM {
            "IL UM"
        } else {
            "Unknown"
        }
    }
}

} // verus!
