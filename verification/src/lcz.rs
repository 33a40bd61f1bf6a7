//! The Local Climate Zone (LCZ) taxonomy.
//!
//! A pure mapping between numeric LCZ codes, symbolic class identity, a
//! human-readable display name, and a simplified three-way category.
//! Codes 1-17 name the standard classes; every other code is carried
//! unchanged in [`Lcz::Unknown`], so decoding is total and never fails.
//!
//! The simplified categories partition the classes: codes 1-6 are `Urban`,
//! 7-10 are `Suburban`, and 11-17 are `Rural`. Unknown codes also collapse
//! to `Rural`; this is a deliberate silent default, chosen for robustness,
//! and it does mean an unrecognised code is indistinguishable from open
//! country in the simplified view.

use vstd::prelude::*;

verus! {

/// A Local Climate Zone class: one of the 17 named classes, or an
/// out-of-range code carried unchanged.
#[derive(Debug, Clone, Copy, PartialEq, Eq, Structural)]
pub enum Lcz {
    CompactHighRise,
    CompactMidRise,
    CompactLowRise,
    OpenHighRise,
    OpenMidRise,
    OpenLowRise,
    LightweightLowRise,
    LargeLowRise,
    SparselyBuilt,
    HeavyIndustry,
    DenseTrees,
    ScatteredTrees,
    BushScrub,
    LowPlants,
    BareRockPaved,
    BareSoilSand,
    Water,
    Unknown(u8),
}

/// The simplified urban/suburban/rural collapse of the taxonomy.
#[derive(Debug, Clone, Copy, PartialEq, Eq, Structural)]
pub enum LczCategory {
    Urban,
    Suburban,
    Rural,
}

impl Lcz {
    /// What `from_code` returns for each code.
    pub open spec fn spec_from_code(code: u8) -> Lcz {
        if code == 1 {
            Lcz::CompactHighRise
        } else if code == 2 {
            Lcz::CompactMidRise
        } else if code == 3 {
            Lcz::CompactLowRise
        } else if code == 4 {
            Lcz::OpenHighRise
        } else if code == 5 {
            Lcz::OpenMidRise
        } else if code == 6 {
            Lcz::OpenLowRise
        } else if code == 7 {
            Lcz::LightweightLowRise
        } else if code == 8 {
            Lcz::LargeLowRise
        } else if code == 9 {
            Lcz::SparselyBuilt
        } else if code == 10 {
            Lcz::HeavyIndustry
        } else if code == 11 {
            Lcz::DenseTrees
        } else if code == 12 {
            Lcz::ScatteredTrees
        } else if code == 13 {
            Lcz::BushScrub
        } else if code == 14 {
            Lcz::LowPlants
        } else if code == 15 {
            Lcz::BareRockPaved
        } else if code == 16 {
            Lcz::BareSoilSand
        } else if code == 17 {
            Lcz::Water
        } else {
            Lcz::Unknown(code)
        }
    }

    /// What `to_code` returns for each class.
    pub open spec fn spec_to_code(self) -> u8 {
        match self {
            Lcz::CompactHighRise => 1,
            Lcz::CompactMidRise => 2,
            Lcz::CompactLowRise => 3,
            Lcz::OpenHighRise => 4,
            Lcz::OpenMidRise => 5,
            Lcz::OpenLowRise => 6,
            Lcz::LightweightLowRise => 7,
            Lcz::LargeLowRise => 8,
            Lcz::SparselyBuilt => 9,
            Lcz::HeavyIndustry => 10,
            Lcz::DenseTrees => 11,
            Lcz::ScatteredTrees => 12,
            Lcz::BushScrub => 13,
            Lcz::LowPlants => 14,
            Lcz::BareRockPaved => 15,
            Lcz::BareSoilSand => 16,
            Lcz::Water => 17,
            Lcz::Unknown(code) => code,
        }
    }

    /// The display name of each class.
    pub open spec fn spec_full_name(self) -> Seq<char> {
        match self {
            Lcz::CompactHighRise => "Compact high-rise"@,
            Lcz::CompactMidRise => "Compact midrise"@,
            Lcz::CompactLowRise => "Compact low-rise"@,
            Lcz::OpenHighRise => "Open high-rise"@,
            Lcz::OpenMidRise => "Open midrise"@,
            Lcz::OpenLowRise => "Open low-rise"@,
            Lcz::LightweightLowRise => "Lightweight low-rise"@,
            Lcz::LargeLowRise => "Large low-rise"@,
            Lcz::SparselyBuilt => "Sparsely built"@,
            Lcz::HeavyIndustry => "Heavy industry"@,
            Lcz::DenseTrees => "Dense trees"@,
            Lcz::ScatteredTrees => "Scattered trees"@,
            Lcz::BushScrub => "Bush, scrub"@,
            Lcz::LowPlants => "Low plants"@,
            Lcz::BareRockPaved => "Bare rock or paved"@,
            Lcz::BareSoilSand => "Bare soil or sand"@,
            Lcz::Water => "Water"@,
            Lcz::Unknown(_) => "Unknown"@,
        }
    }

    /// The partition of classes into the three simplified categories.
    pub open spec fn spec_simple_category(self) -> LczCategory {
        match self {
            Lcz::CompactHighRise
            | Lcz::CompactMidRise
            | Lcz::CompactLowRise
            | Lcz::OpenHighRise
            | Lcz::OpenMidRise
            | Lcz::OpenLowRise => LczCategory::Urban,
            Lcz::LightweightLowRise
            | Lcz::LargeLowRise
            | Lcz::SparselyBuilt
            | Lcz::HeavyIndustry => LczCategory::Suburban,
            Lcz::DenseTrees
            | Lcz::ScatteredTrees
            | Lcz::BushScrub
            | Lcz::LowPlants
            | Lcz::BareRockPaved
            | Lcz::BareSoilSand
            | Lcz::Water => LczCategory::Rural,
            Lcz::Unknown(_) => LczCategory::Rural,
        }
    }

    /// Decode a numeric LCZ code. Total: codes 1-17 map to their named
    /// class and every other code maps to `Unknown(code)`.
    pub fn from_code(code: u8) -> (r: Lcz)
        ensures
            r == Lcz::spec_from_code(code),
    {
        match code {
            1 => Lcz::CompactHighRise,
            2 => Lcz::CompactMidRise,
            3 => Lcz::CompactLowRise,
            4 => Lcz::OpenHighRise,
            5 => Lcz::OpenMidRise,
            6 => Lcz::OpenLowRise,
            7 => Lcz::LightweightLowRise,
            8 => Lcz::LargeLowRise,
            9 => Lcz::SparselyBuilt,
            10 => Lcz::HeavyIndustry,
            11 => Lcz::DenseTrees,
            12 => Lcz::ScatteredTrees,
            13 => Lcz::BushScrub,
            14 => Lcz::LowPlants,
            15 => Lcz::BareRockPaved,
            16 => Lcz::BareSoilSand,
            17 => Lcz::Water,
            _ => Lcz::Unknown(code),
        }
    }

    /// Encode a class back to its numeric code; `Unknown(n)` returns `n`
    /// unchanged, so encoding inverts decoding on every code.
    pub fn to_code(&self) -> (r: u8)
        ensures
            r == self.spec_to_code(),
    {
        match self {
            Lcz::CompactHighRise => 1,
            Lcz::CompactMidRise => 2,
            Lcz::CompactLowRise => 3,
            Lcz::OpenHighRise => 4,
            Lcz::OpenMidRise => 5,
            Lcz::OpenLowRise => 6,
            Lcz::LightweightLowRise => 7,
            Lcz::LargeLowRise => 8,
            Lcz::SparselyBuilt => 9,
            Lcz::HeavyIndustry => 10,
            Lcz::DenseTrees => 11,
            Lcz::ScatteredTrees => 12,
            Lcz::BushScrub => 13,
            Lcz::LowPlants => 14,
            Lcz::BareRockPaved => 15,
            Lcz::BareSoilSand => 16,
            Lcz::Water => 17,
            Lcz::Unknown(code) => *code,
        }
    }

    /// The human-readable full name of the class.
    pub fn full_name(&self) -> (r: &'static str)
        ensures
            r@ == self.spec_full_name(),
    {
        match self {
            Lcz::CompactHighRise => "Compact high-rise",
            Lcz::CompactMidRise => "Compact midrise",
            Lcz::CompactLowRise => "Compact low-rise",
            Lcz::OpenHighRise => "Open high-rise",
            Lcz::OpenMidRise => "Open midrise",
            Lcz::OpenLowRise => "Open low-rise",
            Lcz::LightweightLowRise => "Lightweight low-rise",
            Lcz::LargeLowRise => "Large low-rise",
            Lcz::SparselyBuilt => "Sparsely built",
            Lcz::HeavyIndustry => "Heavy industry",
            Lcz::DenseTrees => "Dense trees",
            Lcz::ScatteredTrees => "Scattered trees",
            Lcz::BushScrub => "Bush, scrub",
            Lcz::LowPlants => "Low plants",
            Lcz::BareRockPaved => "Bare rock or paved",
            Lcz::BareSoilSand => "Bare soil or sand",
            Lcz::Water => "Water",
            Lcz::Unknown(_) => "Unknown",
        }
    }

    /// The simplified urban/suburban/rural category of the class.
    pub fn simple_category(&self) -> (r: LczCategory)
        ensures
            r == self.spec_simple_category(),
    {
        match self {
            Lcz::CompactHighRise
            | Lcz::CompactMidRise
            | Lcz::CompactLowRise
            | Lcz::OpenHighRise
            | Lcz::OpenMidRise
            | Lcz::OpenLowRise => LczCategory::Urban,
            Lcz::LightweightLowRise
            | Lcz::LargeLowRise
            | Lcz::SparselyBuilt
            | Lcz::HeavyIndustry => LczCategory::Suburban,
            Lcz::DenseTrees
            | Lcz::ScatteredTrees
            | Lcz::BushScrub
            | Lcz::LowPlants
            | Lcz::BareRockPaved
            | Lcz::BareSoilSand
            | Lcz::Water => LczCategory::Rural,
            Lcz::Unknown(_) => LczCategory::Rural,
        }
    }
}

impl LczCategory {
    /// The display name of each category.
    pub open spec fn spec_as_ref(self) -> Seq<char> {
        match self {
            LczCategory::Urban => "Urban"@,
            LczCategory::Suburban => "Suburban"@,
            LczCategory::Rural => "Rural"@,
        }
    }

    /// The display name of the category.
    pub fn as_ref(&self) -> (r: &'static str)
        ensures
            r@ == self.spec_as_ref(),
    {
        match self {
            LczCategory::Urban => "Urban",
            LczCategory::Suburban => "Suburban",
            LczCategory::Rural => "Rural",
        }
    }
}

/// The taxonomy exposed standalone, for callers that want code-to-name
/// and code-to-category lookups without a raster: the codes 1 to 17 in
/// order, with their display names and simplified categories.
pub fn lcz_info() -> (r: (Vec<u8>, Vec<String>, Vec<String>))
    ensures
        r.0@.len() == 17,
        r.1@.len() == 17,
        r.2@.len() == 17,
        forall|i: int| 0 <= i < 17 ==> r.0@[i] == (i + 1) as u8,
        forall|i: int|
            0 <= i < 17 ==> r.1.deep_view()[i] == Lcz::spec_from_code(
                (i + 1) as u8,
            ).spec_full_name(),
        forall|i: int|
            0 <= i < 17 ==> r.2.deep_view()[i] == Lcz::spec_from_code(
                (i + 1) as u8,
            ).spec_simple_category().spec_as_ref(),
{
    let mut codes: Vec<u8> = Vec::new();
    let mut names: Vec<String> = Vec::new();
    let mut categories: Vec<String> = Vec::new();
    let mut code: u8 = 1;
    while code <= 17
        invariant
            1 <= code <= 18,
            codes@.len() == code - 1,
            names@.len() == code - 1,
            categories@.len() == code - 1,
            forall|i: int| 0 <= i < code - 1 ==> codes@[i] == (i + 1) as u8,
            forall|i: int|
                0 <= i < code - 1 ==> #[trigger] names@[i].deep_view() == Lcz::spec_from_code(
                    (i + 1) as u8,
                ).spec_full_name(),
            forall|i: int|
                0 <= i < code - 1 ==> #[trigger] categories@[i].deep_view() == Lcz::spec_from_code(
                    (i + 1) as u8,
                ).spec_simple_category().spec_as_ref(),
        decreases 18 - code,
    {
        let lcz = Lcz::from_code(code);
        codes.push(code);
        names.push(lcz.full_name().to_owned());
        categories.push(lcz.simple_category().as_ref().to_owned());
        code += 1;
    }
    let r = (codes, names, categories);
    proof {
        assert forall|i: int| 0 <= i < 17 implies r.1.deep_view()[i] == Lcz::spec_from_code(
            (i + 1) as u8,
        ).spec_full_name() by {
            assert(r.1.deep_view()[i] == r.1@[i].deep_view());
        }
        assert forall|i: int| 0 <= i < 17 implies r.2.deep_view()[i] == Lcz::spec_from_code(
            (i + 1) as u8,
        ).spec_simple_category().spec_as_ref() by {
            assert(r.2.deep_view()[i] == r.2@[i].deep_view());
        }
    }
    r
}

/// Law: decoding any code and encoding the result gives the code back.
/// On 1-17 this is the round trip through the named classes; outside that
/// range `Unknown(code)` preserves the code, so the equation is total.
pub proof fn lemma_code_round_trip(code: u8)
    ensures
        Lcz::spec_from_code(code).spec_to_code() == code,
{
}

/// Law: every code outside 1-17 decodes to `Unknown(code)`, and its
/// simplified category is `Rural`.
pub proof fn lemma_unknown_code_is_rural(code: u8)
    requires
        !(1 <= code <= 17),
    ensures
        Lcz::spec_from_code(code) == Lcz::Unknown(code),
        Lcz::spec_from_code(code).spec_simple_category() == LczCategory::Rural,
{
}

/// Law: the simplified categories partition the coded classes: codes 1-6
/// are `Urban`, 7-10 are `Suburban`, and 11-17 are `Rural`.
pub proof fn lemma_category_partition(code: u8)
    ensures
        1 <= code <= 6 ==> Lcz::spec_from_code(code).spec_simple_category()
            == LczCategory::Urban,
        7 <= code <= 10 ==> Lcz::spec_from_code(code).spec_simple_category()
            == LczCategory::Suburban,
        11 <= code <= 17 ==> Lcz::spec_from_code(code).spec_simple_category()
            == LczCategory::Rural,
{
}

} // verus!
