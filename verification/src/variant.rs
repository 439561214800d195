//! The variant of an icon: a base family and the two modifiers.

use vstd::prelude::*;
use vstd::string::*;

verus! {

/// The base family an icon is drawn in.
#[derive(Debug, Clone, Copy, PartialEq, Eq, Structural)]
pub enum FaBaseStyle {
    Solid,
    Regular,
    Light,
    Thin,
    Brands,
}

/// A base family together with the sharp and duotone modifiers.
#[derive(Debug, Clone, Copy, PartialEq, Eq, Structural)]
pub struct FaVariant {
    pub base: FaBaseStyle,
    pub is_sharp: bool,
    pub is_duotone: bool,
}

impl Default for FaVariant {
    fn default() -> (v: Self)
        ensures
            v == (FaVariant { base: FaBaseStyle::Solid, is_sharp: false, is_duotone: false }),
    {
        FaVariant { base: FaBaseStyle::Solid, is_sharp: false, is_duotone: false }
    }
}

/// The name of a base family, as it stands in a slug.
pub open spec fn base_name(base: FaBaseStyle) -> Seq<char> {
    match base {
        FaBaseStyle::Solid => "solid"@,
        FaBaseStyle::Regular => "regular"@,
        FaBaseStyle::Light => "light"@,
        FaBaseStyle::Thin => "thin"@,
        FaBaseStyle::Brands => "brands"@,
    }
}

/// The parts of a variant joined by dashes: `sharp` if set, then `duotone`
/// if set, then the base family's name.
pub open spec fn display_text(v: FaVariant) -> Seq<char> {
    (if v.is_sharp { "sharp-"@ } else { Seq::<char>::empty() })
        + (if v.is_duotone { "duotone-"@ } else { Seq::<char>::empty() })
        + base_name(v.base)
}

/// Whether the variant has a slug of its own. Brand marks exist in one form
/// only, so a brand with a modifier has none.
pub open spec fn is_recognized(v: FaVariant) -> bool {
    v.base == FaBaseStyle::Brands ==> !v.is_sharp && !v.is_duotone
}

/// The canonical slug of a variant, the key its asset is looked up by.
///
/// A recognized variant is keyed by its dash-joined parts, except that plain
/// duotone solid is keyed by the bare word `duotone`. Every other variant
/// falls back to `solid`.
pub open spec fn slug_text(v: FaVariant) -> Seq<char> {
    if !is_recognized(v) {
        "solid"@
    } else if v.base == FaBaseStyle::Solid && !v.is_sharp && v.is_duotone {
        "duotone"@
    } else {
        display_text(v)
    }
}

impl FaVariant {
    /// Whether the variant is drawn with two fills.
    pub fn is_duotone(&self) -> (d: bool)
        ensures
            d == self.is_duotone,
    {
        self.is_duotone
    }

    /// The variant written out: its parts in the order sharp, duotone, base
    /// family, joined by dashes.
    pub fn to_string(&self) -> (s: String)
        ensures
            s@ == display_text(*self),
    {
        let mut s = String::new();
        if self.is_sharp {
            s.append("sharp-");
        }
        if self.is_duotone {
            s.append("duotone-");
        }
        match self.base {
            FaBaseStyle::Solid => s.append("solid"),
            FaBaseStyle::Regular => s.append("regular"),
            FaBaseStyle::Light => s.append("light"),
            FaBaseStyle::Thin => s.append("thin"),
            FaBaseStyle::Brands => s.append("brands"),
        }
        s
    }

    /// The canonical slug of the variant.
    pub fn slug(&self) -> (s: &'static str)
        ensures
            s@ == slug_text(*self),
    {
        proof {
            lemma_slug_literals();
        }
        match (self.base, self.is_sharp, self.is_duotone) {
            (FaBaseStyle::Solid, false, false) => "solid",
            (FaBaseStyle::Regular, false, false) => "regular",
            (FaBaseStyle::Light, false, false) => "light",
            (FaBaseStyle::Thin, false, false) => "thin",
            (FaBaseStyle::Brands, false, false) => "brands",
            (FaBaseStyle::Solid, true, false) => "sharp-solid",
            (FaBaseStyle::Regular, true, false) => "sharp-regular",
            (FaBaseStyle::Light, true, false) => "sharp-light",
            (FaBaseStyle::Thin, true, false) => "sharp-thin",
            (FaBaseStyle::Solid, false, true) => "duotone",
            (FaBaseStyle::Regular, false, true) => "duotone-regular",
            (FaBaseStyle::Light, false, true) => "duotone-light",
            (FaBaseStyle::Thin, false, true) => "duotone-thin",
            (FaBaseStyle::Solid, true, true) => "sharp-duotone-solid",
            (FaBaseStyle::Regular, true, true) => "sharp-duotone-regular",
            (FaBaseStyle::Light, true, true) => "sharp-duotone-light",
            (FaBaseStyle::Thin, true, true) => "sharp-duotone-thin",
            _ => "solid",
        }
    }
}

/// A variant that has a slug of its own is keyed by its parts, in the order
/// sharp, duotone, base family, joined by dashes and with a modifier that is
/// off left out. The one exception is plain duotone solid, which is
/// keyed by the bare word `duotone`.
pub proof fn lemma_slug_spells_variant(v: FaVariant)
    requires
        is_recognized(v),
    ensures
        slug_text(v) == if v.base == FaBaseStyle::Solid && !v.is_sharp && v.is_duotone {
            "duotone"@
        } else {
            display_text(v)
        },
        !v.is_sharp && !v.is_duotone ==> slug_text(v) == base_name(v.base),
        v.is_sharp && !v.is_duotone ==> slug_text(v) == "sharp-"@ + base_name(v.base),
        !v.is_sharp && v.is_duotone && v.base != FaBaseStyle::Solid ==> slug_text(v) == "duotone-"@
            + base_name(v.base),
        v.is_sharp && v.is_duotone ==> slug_text(v) == "sharp-"@ + "duotone-"@ + base_name(v.base),
{
}

/// A brand with a modifier is keyed by `solid`.
pub proof fn lemma_modified_brand_is_solid(v: FaVariant)
    requires
        v.base == FaBaseStyle::Brands,
        v.is_sharp || v.is_duotone,
    ensures
        slug_text(v) == "solid"@,
{
}

/// The slug literals are the dash-joined parts they are written from.
pub proof fn lemma_slug_literals()
    ensures
        "sharp-solid"@ == "sharp-"@ + "solid"@,
        "sharp-regular"@ == "sharp-"@ + "regular"@,
        "sharp-light"@ == "sharp-"@ + "light"@,
        "sharp-thin"@ == "sharp-"@ + "thin"@,
        "duotone-regular"@ == "duotone-"@ + "regular"@,
        "duotone-light"@ == "duotone-"@ + "light"@,
        "duotone-thin"@ == "duotone-"@ + "thin"@,
        "sharp-duotone-solid"@ == "sharp-"@ + "duotone-"@ + "solid"@,
        "sharp-duotone-regular"@ == "sharp-"@ + "duotone-"@ + "regular"@,
        "sharp-duotone-light"@ == "sharp-"@ + "duotone-"@ + "light"@,
        "sharp-duotone-thin"@ == "sharp-"@ + "duotone-"@ + "thin"@,
{
    reveal_strlit("solid");
    reveal_strlit("regular");
    reveal_strlit("light");
    reveal_strlit("thin");
    reveal_strlit("sharp-");
    reveal_strlit("duotone-");
    reveal_strlit("sharp-solid");
    reveal_strlit("sharp-regular");
    reveal_strlit("sharp-light");
    reveal_strlit("sharp-thin");
    reveal_strlit("duotone-regular");
    reveal_strlit("duotone-light");
    reveal_strlit("duotone-thin");
    reveal_strlit("sharp-duotone-solid");
    reveal_strlit("sharp-duotone-regular");
    reveal_strlit("sharp-duotone-light");
    reveal_strlit("sharp-duotone-thin");
    assert("sharp-solid"@ =~= "sharp-"@ + "solid"@);
    assert("sharp-regular"@ =~= "sharp-"@ + "regular"@);
    assert("sharp-light"@ =~= "sharp-"@ + "light"@);
    assert("sharp-thin"@ =~= "sharp-"@ + "thin"@);
    assert("duotone-regular"@ =~= "duotone-"@ + "regular"@);
    assert("duotone-light"@ =~= "duotone-"@ + "light"@);
    assert("duotone-thin"@ =~= "duotone-"@ + "thin"@);
    assert("sharp-duotone-solid"@ =~= "sharp-"@ + "duotone-"@ + "solid"@);
    assert("sharp-duotone-regular"@ =~= "sharp-"@ + "duotone-"@ + "regular"@);
    assert("sharp-duotone-light"@ =~= "sharp-"@ + "duotone-"@ + "light"@);
    assert("sharp-duotone-thin"@ =~= "sharp-"@ + "duotone-"@ + "thin"@);
}

} // verus!
