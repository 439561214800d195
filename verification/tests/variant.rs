use floem_fa::variant::{FaBaseStyle, FaVariant};

fn variant(base: FaBaseStyle, is_sharp: bool, is_duotone: bool) -> FaVariant {
    FaVariant { base, is_sharp, is_duotone }
}

const BASES: [(FaBaseStyle, &str); 5] = [
    (FaBaseStyle::Solid, "solid"),
    (FaBaseStyle::Regular, "regular"),
    (FaBaseStyle::Light, "light"),
    (FaBaseStyle::Thin, "thin"),
    (FaBaseStyle::Brands, "brands"),
];

#[test]
fn default_variant_is_plain_solid() {
    let v = FaVariant::default();
    assert_eq!(v, variant(FaBaseStyle::Solid, false, false));
    assert!(!v.is_duotone());
    assert_eq!(v.slug(), "solid");
    assert_eq!(v.to_string(), "solid");
}

#[test]
fn is_duotone_reads_the_modifier() {
    assert!(variant(FaBaseStyle::Thin, false, true).is_duotone());
    assert!(variant(FaBaseStyle::Thin, true, true).is_duotone());
    assert!(!variant(FaBaseStyle::Thin, true, false).is_duotone());
}

#[test]
fn plain_variants_are_keyed_by_their_family() {
    for (base, name) in BASES {
        assert_eq!(variant(base, false, false).slug(), name);
    }
}

#[test]
fn sharp_variants_are_keyed_with_the_sharp_prefix() {
    assert_eq!(variant(FaBaseStyle::Solid, true, false).slug(), "sharp-solid");
    assert_eq!(variant(FaBaseStyle::Regular, true, false).slug(), "sharp-regular");
    assert_eq!(variant(FaBaseStyle::Light, true, false).slug(), "sharp-light");
    assert_eq!(variant(FaBaseStyle::Thin, true, false).slug(), "sharp-thin");
}

#[test]
fn duotone_variants_are_keyed_with_the_duotone_prefix() {
    assert_eq!(variant(FaBaseStyle::Regular, false, true).slug(), "duotone-regular");
    assert_eq!(variant(FaBaseStyle::Light, false, true).slug(), "duotone-light");
    assert_eq!(variant(FaBaseStyle::Thin, false, true).slug(), "duotone-thin");
}

#[test]
fn plain_duotone_solid_is_keyed_by_the_bare_word() {
    assert_eq!(variant(FaBaseStyle::Solid, false, true).slug(), "duotone");
}

#[test]
fn sharp_duotone_variants_carry_both_prefixes_in_order() {
    assert_eq!(variant(FaBaseStyle::Solid, true, true).slug(), "sharp-duotone-solid");
    assert_eq!(variant(FaBaseStyle::Regular, true, true).slug(), "sharp-duotone-regular");
    assert_eq!(variant(FaBaseStyle::Light, true, true).slug(), "sharp-duotone-light");
    assert_eq!(variant(FaBaseStyle::Thin, true, true).slug(), "sharp-duotone-thin");
}

#[test]
fn a_brand_with_a_modifier_falls_back_to_solid() {
    assert_eq!(variant(FaBaseStyle::Brands, true, false).slug(), "solid");
    assert_eq!(variant(FaBaseStyle::Brands, false, true).slug(), "solid");
    assert_eq!(variant(FaBaseStyle::Brands, true, true).slug(), "solid");
}

#[test]
fn slug_spells_every_variant_with_a_slug_of_its_own() {
    for (base, _) in BASES {
        for is_sharp in [false, true] {
            for is_duotone in [false, true] {
                let v = variant(base, is_sharp, is_duotone);
                if base == FaBaseStyle::Brands && (is_sharp || is_duotone) {
                    continue;
                }
                if base == FaBaseStyle::Solid && !is_sharp && is_duotone {
                    continue;
                }
                assert_eq!(v.slug(), v.to_string());
            }
        }
    }
}

#[test]
fn to_string_joins_sharp_duotone_and_family() {
    for (base, name) in BASES {
        assert_eq!(variant(base, false, false).to_string(), name);
        assert_eq!(variant(base, true, false).to_string(), format!("sharp-{}", name));
        assert_eq!(variant(base, false, true).to_string(), format!("duotone-{}", name));
        assert_eq!(variant(base, true, true).to_string(), format!("sharp-duotone-{}", name));
    }
    assert_eq!(variant(FaBaseStyle::Light, true, true).to_string(), "sharp-duotone-light");
    assert_eq!(variant(FaBaseStyle::Solid, false, true).to_string(), "duotone-solid");
}

#[test]
fn variants_compare_by_their_parts() {
    let a = variant(FaBaseStyle::Light, true, false);
    let b = a;
    assert_eq!(a, b);
    assert_ne!(a, variant(FaBaseStyle::Light, false, false));
    assert_ne!(a, variant(FaBaseStyle::Thin, true, false));
    assert_ne!(FaBaseStyle::Solid, FaBaseStyle::Brands);
}
