use floem_fa::style::{FaBrush, FaStyle, FaStyleExt};
use floem_fa::variant::{FaBaseStyle, FaVariant};

fn single_rule(color: &str) -> String {
    format!(
        r#"
                            svg {{
                              fill: {} !important;
                            }}
                        "#,
        color
    )
}

fn duotone_rules(primary: &str, secondary: &str) -> String {
    format!(
        r#"
                    .fa-primary {{
                      fill: {} !important;
                    }}
                    .fa-secondary {{
                      fill: {} !important;
                    }}
                "#,
        primary, secondary
    )
}

fn read(style: &FaStyle) -> FaStyleExt {
    let mut ext = FaStyleExt::default();
    ext.read(style);
    ext
}

fn paint(b: Option<FaBrush>) -> Option<String> {
    b.map(|b| b.css().to_string())
}

#[test]
fn nothing_configured_gives_no_override() {
    let ext = FaStyleExt::default();
    assert_eq!(ext.variant(), FaVariant::default());
    assert!(ext.color().is_none());
    assert!(ext.primary().is_none());
    assert!(ext.secondary().is_none());
    assert_eq!(ext.css_string(), "");
}

#[test]
fn solid_without_colors_gives_the_empty_string() {
    let mut ext = FaStyleExt::default();
    let changed = ext.read(&FaStyle::new().solid());
    assert!(!changed);
    assert_eq!(ext.css_string(), "");
}

#[test]
fn solid_with_a_color_gives_one_fill_rule() {
    let ext = read(&FaStyle::new().solid().color(FaBrush::new("red")));
    assert_eq!(ext.css_string(), single_rule("red"));
    assert_eq!(
        ext.css_string(),
        "\n                            svg {\n                              fill: red !important;\n                            }\n                        "
    );
}

#[test]
fn single_color_variant_ignores_the_layer_colors() {
    let style = FaStyle::new()
        .light()
        .sharp()
        .primary(FaBrush::new("blue"))
        .secondary(FaBrush::new("green"));
    assert_eq!(read(&style).css_string(), "");
    let style = style.color(FaBrush::new("rgba(1, 2, 3, 255)"));
    assert_eq!(read(&style).css_string(), single_rule("rgba(1, 2, 3, 255)"));
}

#[test]
fn duotone_regular_with_primary_only_inherits_the_secondary() {
    let style = FaStyle::new().regular().duotone().primary(FaBrush::new("blue"));
    let ext = read(&style);
    assert_eq!(ext.css_string(), duotone_rules("blue", "currentColor"));
    assert_eq!(ext.variant().slug(), "duotone-regular");
    assert_eq!(
        ext.css_string(),
        "\n                    .fa-primary {\n                      fill: blue !important;\n                    }\n                    .fa-secondary {\n                      fill: currentColor !important;\n                    }\n                "
    );
}

#[test]
fn duotone_without_colors_inherits_both_layers() {
    let ext = read(&FaStyle::new().duotone());
    assert_eq!(ext.css_string(), duotone_rules("currentColor", "currentColor"));
}

#[test]
fn duotone_with_both_colors_ignores_the_single_color() {
    let style = FaStyle::new()
        .thin()
        .duotone()
        .color(FaBrush::new("red"))
        .primary(FaBrush::new("blue"))
        .secondary(FaBrush::new("green"));
    assert_eq!(read(&style).css_string(), duotone_rules("blue", "green"));
    let style = FaStyle::new().duotone().secondary(FaBrush::new("green"));
    assert_eq!(read(&style).css_string(), duotone_rules("currentColor", "green"));
}

#[test]
fn read_reports_a_change_once() {
    let mut ext = FaStyleExt::default();
    let style = FaStyle::new().regular().duotone().primary(FaBrush::new("blue"));
    assert!(ext.read(&style));
    let first = ext.css_string();
    assert!(!ext.read(&style));
    assert_eq!(ext.css_string(), first);
    assert!(!ext.read_custom(&style.clone()));
    assert_eq!(ext.css_string(), first);
}

#[test]
fn read_detects_a_change_in_each_input() {
    let base = || FaStyle::new().color(FaBrush::new("a")).primary(FaBrush::new("b")).secondary(FaBrush::new("c"));
    let mut ext = FaStyleExt::default();
    assert!(ext.read(&base()));
    assert!(!ext.read(&base()));
    assert!(ext.read(&base().sharp()));
    assert!(ext.read(&base()));
    assert!(ext.read(&base().color(FaBrush::new("x"))));
    assert!(ext.read(&base()));
    assert!(ext.read(&base().primary(FaBrush::new("x"))));
    assert!(ext.read(&base()));
    assert!(ext.read(&base().secondary(FaBrush::new("x"))));
    assert!(ext.read_custom(&base()));
    assert!(!ext.read_custom(&base()));
    assert!(ext.read(&FaStyle::new()));
    assert!(!ext.read(&FaStyle::default()));
}

#[test]
fn read_takes_over_all_four_inputs() {
    let style = FaStyle::new()
        .brands()
        .sharp()
        .duotone()
        .color(FaBrush::new("a"))
        .primary(FaBrush::new("b"))
        .secondary(FaBrush::new("c"));
    let ext = read(&style);
    assert_eq!(
        ext.variant(),
        FaVariant { base: FaBaseStyle::Brands, is_sharp: true, is_duotone: true }
    );
    assert_eq!(paint(ext.color()), Some("a".to_string()));
    assert_eq!(paint(ext.primary()), Some("b".to_string()));
    assert_eq!(paint(ext.secondary()), Some("c".to_string()));
}

#[test]
fn builders_set_one_part_and_keep_the_rest() {
    let v = |s: &FaStyle| read(s).variant();
    let sharp_duo = FaStyle::new().sharp().duotone();
    assert_eq!(v(&sharp_duo), FaVariant { base: FaBaseStyle::Solid, is_sharp: true, is_duotone: true });
    assert_eq!(v(&sharp_duo.clone().regular()).base, FaBaseStyle::Regular);
    assert_eq!(v(&sharp_duo.clone().light()).base, FaBaseStyle::Light);
    assert_eq!(v(&sharp_duo.clone().thin()).base, FaBaseStyle::Thin);
    assert_eq!(v(&sharp_duo.clone().brands()).base, FaBaseStyle::Brands);
    assert_eq!(v(&sharp_duo.clone().brands().solid()).base, FaBaseStyle::Solid);
    assert!(v(&sharp_duo.clone().thin()).is_sharp);
    assert!(v(&sharp_duo.clone().thin()).is_duotone);
    assert_eq!(v(&FaStyle::new().thin()), FaVariant { base: FaBaseStyle::Thin, is_sharp: false, is_duotone: false });
    let painted = FaStyle::new().color(FaBrush::new("a")).regular().sharp();
    assert_eq!(paint(read(&painted).color()), Some("a".to_string()));
    assert!(read(&painted).primary().is_none());
    let repainted = painted.color(FaBrush::new("z"));
    assert_eq!(paint(read(&repainted).color()), Some("z".to_string()));
}

#[test]
fn brushes_compare_by_their_literal() {
    let a = FaBrush::new("rgba(255, 0, 0, 255)");
    assert_eq!(a.css(), "rgba(255, 0, 0, 255)");
    assert!(a.same(&a.clone()));
    assert!(a.same(&FaBrush::new("rgba(255, 0, 0, 255)")));
    assert!(!a.same(&FaBrush::new("rgba(255, 0, 0, 254)")));
}

#[test]
fn from_inputs_sets_all_four() {
    let v = FaVariant { base: FaBaseStyle::Light, is_sharp: true, is_duotone: true };
    let style = FaStyle::from_inputs(v, None, Some(FaBrush::new("p")), Some(FaBrush::new("s")));
    assert_eq!(style.variant(), v);
    let ext = read(&style);
    assert_eq!(ext.variant(), v);
    assert!(ext.color().is_none());
    assert_eq!(paint(ext.primary()), Some("p".to_string()));
    assert_eq!(paint(ext.secondary()), Some("s".to_string()));
    assert_eq!(ext.css_string(), duotone_rules("p", "s"));
    assert_eq!(FaStyle::new().thin().sharp().variant().slug(), "sharp-thin");
}

#[test]
fn builders_can_be_applied_as_functions() {
    fn apply(style: FaStyle, build: impl FnOnce(FaStyle) -> FaStyle) -> FaVariant {
        build(style).variant()
    }
    let start = FaVariant { base: FaBaseStyle::Thin, is_sharp: true, is_duotone: false };
    let style = || FaStyle::from_inputs(start, None, None, None);
    assert_eq!(apply(style(), FaStyle::solid).base, FaBaseStyle::Solid);
    assert_eq!(apply(style(), FaStyle::brands).base, FaBaseStyle::Brands);
    assert!(apply(style(), FaStyle::solid).is_sharp);
    assert!(apply(style(), FaStyle::duotone).is_duotone);
    assert_eq!(apply(style(), FaStyle::sharp), start);
}
