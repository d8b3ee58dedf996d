//! PTKP status values and their mapping to TER categories.

use vstd::prelude::*;

verus! {

/// Effective-rate (TER) category; each category has its own bracket table.
#[derive(Debug, Clone, Copy, PartialEq, Eq, Structural)]
pub enum TerCategory {
    A,
    B,
    C,
}

/// PTKP marital/dependent status: unmarried (TK) or married (K), with the
/// number of dependents (0 to 3).
#[derive(Debug, Clone, Copy, PartialEq, Eq, Structural)]
pub enum PtkpStatus {
    TK0,
    TK1,
    TK2,
    TK3,
    K0,
    K1,
    K2,
    K3,
}

/// The fixed business rule mapping a PTKP status to its TER category.
pub open spec fn spec_ter_category(status: PtkpStatus) -> TerCategory {
    match status {
        PtkpStatus::TK0 | PtkpStatus::TK1 | PtkpStatus::K0 => TerCategory::A,
        PtkpStatus::TK2 | PtkpStatus::TK3 | PtkpStatus::K1 | PtkpStatus::K2 => TerCategory::B,
        PtkpStatus::K3 => TerCategory::C,
    }
}

impl PtkpStatus {
    /// Derives the TER category of this status; total over all eight variants.
    pub fn get_ter_category(&self) -> (category: TerCategory)
        ensures
            category == spec_ter_category(*self),
    {
        match self {
            PtkpStatus::TK0 | PtkpStatus::TK1 | PtkpStatus::K0 => TerCategory::A,
            PtkpStatus::TK2 | PtkpStatus::TK3 | PtkpStatus::K1 | PtkpStatus::K2 => TerCategory::B,
            PtkpStatus::K3 => TerCategory::C,
        }
    }

    /// The fixed human-readable label of this status.
    pub fn display_name(&self) -> (name: &'static str)
        ensures
            *self == PtkpStatus::TK0 ==> name@ == "TK/0 - Tidak Kawin, Tanpa Tanggungan"@,
            *self == PtkpStatus::TK1 ==> name@ == "TK/1 - Tidak Kawin, 1 Tanggungan"@,
            *self == PtkpStatus::TK2 ==> name@ == "TK/2 - Tidak Kawin, 2 Tanggungan"@,
            *self == PtkpStatus::TK3 ==> name@ == "TK/3 - Tidak Kawin, 3 Tanggungan"@,
            *self == PtkpStatus::K0 ==> name@ == "K/0  - Kawin, Tanpa Tanggungan"@,
            *self == PtkpStatus::K1 ==> name@ == "K/1  - Kawin, 1 Tanggungan"@,
            *self == PtkpStatus::K2 ==> name@ == "K/2  - Kawin, 2 Tanggungan"@,
            *self == PtkpStatus::K3 ==> name@ == "K/3  - Kawin, 3 Tanggungan"@,
    {
        match self {
            PtkpStatus::TK0 => "TK/0 - Tidak Kawin, Tanpa Tanggungan",
            PtkpStatus::TK1 => "TK/1 - Tidak Kawin, 1 Tanggungan",
            PtkpStatus::TK2 => "TK/2 - Tidak Kawin, 2 Tanggungan",
            PtkpStatus::TK3 => "TK/3 - Tidak Kawin, 3 Tanggungan",
            PtkpStatus::K0 => "K/0  - Kawin, Tanpa Tanggungan",
            PtkpStatus::K1 => "K/1  - Kawin, 1 Tanggungan",
            PtkpStatus::K2 => "K/2  - Kawin, 2 Tanggungan",
            PtkpStatus::K3 => "K/3  - Kawin, 3 Tanggungan",
        }
    }
}

} // verus!
