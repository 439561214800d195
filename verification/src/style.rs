//! The style inputs of an icon and the fill overrides that follow from them.

use vstd::prelude::*;
use vstd::string::*;
use crate::variant::{FaBaseStyle, FaVariant};

verus! {

/// Opens the duotone override, up to the primary fill.
pub const DUOTONE_OPEN: &'static str = "\n                    .fa-primary {\n                      fill: ";

/// Closes the primary rule and opens the secondary one, up to its fill.
pub const DUOTONE_BETWEEN: &'static str = " !important;\n                    }\n                    .fa-secondary {\n                      fill: ";

/// Closes the duotone override.
pub const DUOTONE_CLOSE: &'static str = " !important;\n                    }\n                ";

/// Opens the single-colour override, up to the fill.
pub const SINGLE_OPEN: &'static str = "\n                            svg {\n                              fill: ";

/// Closes the single-colour override.
pub const SINGLE_CLOSE: &'static str = " !important;\n                            }\n                        ";

/// The fill that stands for "whatever colour is active where the icon is
/// drawn".
pub const CURRENT_COLOR: &'static str = "currentColor";

/// A paint, held as the colour literal that a style rule writes for it.
#[derive(Debug)]
pub struct FaBrush {
    css: String,
}

impl View for FaBrush {
    type V = Seq<char>;

    closed spec fn view(&self) -> Seq<char> {
        self.css@
    }
}

impl FaBrush {
    /// The paint that is written as `css`.
    pub fn new(css: &str) -> (b: Self)
        ensures
            b@ == css@,
    {
        FaBrush { css: String::from_str(css) }
    }

    /// The literal the paint is written as.
    pub fn css(&self) -> (css: &str)
        ensures
            css@ == self@,
    {
        self.css.as_str()
    }

    /// Whether two paints are written the same.
    pub fn same(&self, other: &FaBrush) -> (same: bool)
        ensures
            same == (self@ == other@),
    {
        self.css == other.css
    }
}

impl Clone for FaBrush {
    fn clone(&self) -> (b: Self)
        ensures
            b@ == self@,
    {
        FaBrush { css: self.css.clone() }
    }
}

/// What an optional paint is written as, if it is set.
pub open spec fn paint_text(b: Option<FaBrush>) -> Option<Seq<char>> {
    match b {
        Some(b) => Some(b@),
        None => None,
    }
}

/// The four style inputs of an icon, by value.
pub struct StyleSnapshot {
    pub variant: FaVariant,
    pub color: Option<Seq<char>>,
    pub primary: Option<Seq<char>>,
    pub secondary: Option<Seq<char>>,
}

/// The snapshot in which nothing is configured.
pub open spec fn default_snapshot() -> StyleSnapshot {
    StyleSnapshot {
        variant: FaVariant { base: FaBaseStyle::Solid, is_sharp: false, is_duotone: false },
        color: None,
        primary: None,
        secondary: None,
    }
}

/// The fill of one duotone layer: its paint if one is configured, else the
/// colour active where the icon is drawn.
pub open spec fn layer_fill(paint: Option<Seq<char>>) -> Seq<char> {
    match paint {
        Some(css) => css,
        None => CURRENT_COLOR@,
    }
}

/// The override text that follows from a snapshot.
///
/// A duotone variant gets two rules, one per layer. Any other variant gets
/// one rule for the whole graphic if a colour is configured, and no text at
/// all if none is.
pub open spec fn override_text(s: StyleSnapshot) -> Seq<char> {
    if s.variant.is_duotone {
        DUOTONE_OPEN@ + layer_fill(s.primary) + DUOTONE_BETWEEN@ + layer_fill(s.secondary)
            + DUOTONE_CLOSE@
    } else {
        match s.color {
            Some(css) => SINGLE_OPEN@ + css + SINGLE_CLOSE@,
            None => Seq::<char>::empty(),
        }
    }
}

/// Copies an optional paint.
fn clone_paint(b: &Option<FaBrush>) -> (c: Option<FaBrush>)
    ensures
        paint_text(c) == paint_text(*b),
{
    match b {
        Some(b) => Some(b.clone()),
        None => None,
    }
}

/// Whether two optional paints are written the same.
fn same_paint(a: &Option<FaBrush>, b: &Option<FaBrush>) -> (same: bool)
    ensures
        same == (paint_text(*a) == paint_text(*b)),
{
    match (a, b) {
        (Some(a), Some(b)) => a.same(b),
        (None, None) => true,
        _ => false,
    }
}

/// The style of an icon as it is configured: the variant and the three
/// paints, each set or left unset.
#[derive(Debug)]
pub struct FaStyle {
    variant: FaVariant,
    color: Option<FaBrush>,
    primary: Option<FaBrush>,
    secondary: Option<FaBrush>,
}

impl View for FaStyle {
    type V = StyleSnapshot;

    closed spec fn view(&self) -> StyleSnapshot {
        StyleSnapshot {
            variant: self.variant,
            color: paint_text(self.color),
            primary: paint_text(self.primary),
            secondary: paint_text(self.secondary),
        }
    }
}

impl Default for FaStyle {
    fn default() -> (s: Self)
        ensures
            s@ == default_snapshot(),
    {
        FaStyle { variant: FaVariant::default(), color: None, primary: None, secondary: None }
    }
}

impl Clone for FaStyle {
    fn clone(&self) -> (s: Self)
        ensures
            s@ == self@,
    {
        FaStyle {
            variant: self.variant,
            color: clone_paint(&self.color),
            primary: clone_paint(&self.primary),
            secondary: clone_paint(&self.secondary),
        }
    }
}

impl FaStyle {
    /// The style with nothing configured.
    pub fn new() -> (s: Self)
        ensures
            s@ == default_snapshot(),
    {
        FaStyle::default()
    }

    /// The style with exactly these inputs.
    pub fn from_inputs(
        variant: FaVariant,
        color: Option<FaBrush>,
        primary: Option<FaBrush>,
        secondary: Option<FaBrush>,
    ) -> (s: Self)
        ensures
            s@ == (StyleSnapshot {
                variant,
                color: paint_text(color),
                primary: paint_text(primary),
                secondary: paint_text(secondary),
            }),
    {
        FaStyle { variant, color, primary, secondary }
    }

    /// The variant that is configured.
    pub fn variant(&self) -> (v: FaVariant)
        ensures
            v == self@.variant,
    {
        self.variant
    }

    /// Sets the base family to solid.
    pub fn solid(self) -> (s: Self)
        ensures
            s@ == (StyleSnapshot {
                variant: FaVariant { base: FaBaseStyle::Solid, ..self@.variant },
                ..self@
            }),
    {
        let mut s = self;
        s.variant.base = FaBaseStyle::Solid;
        s
    }

    /// Sets the base family to regular.
    pub fn regular(self) -> (s: Self)
        ensures
            s@ == (StyleSnapshot {
                variant: FaVariant { base: FaBaseStyle::Regular, ..self@.variant },
                ..self@
            }),
    {
        let mut s = self;
        s.variant.base = FaBaseStyle::Regular;
        s
    }

    /// Sets the base family to light.
    pub fn light(self) -> (s: Self)
        ensures
            s@ == (StyleSnapshot {
                variant: FaVariant { base: FaBaseStyle::Light, ..self@.variant },
                ..self@
            }),
    {
        let mut s = self;
        s.variant.base = FaBaseStyle::Light;
        s
    }

    /// Sets the base family to thin.
    pub fn thin(self) -> (s: Self)
        ensures
            s@ == (StyleSnapshot {
                variant: FaVariant { base: FaBaseStyle::Thin, ..self@.variant },
                ..self@
            }),
    {
        let mut s = self;
        s.variant.base = FaBaseStyle::Thin;
        s
    }

    /// Sets the base family to brands.
    pub fn brands(self) -> (s: Self)
        ensures
            s@ == (StyleSnapshot {
                variant: FaVariant { base: FaBaseStyle::Brands, ..self@.variant },
                ..self@
            }),
    {
        let mut s = self;
        s.variant.base = FaBaseStyle::Brands;
        s
    }

    /// Turns the sharp modifier on.
    pub fn sharp(self) -> (s: Self)
        ensures
            s@ == (StyleSnapshot {
                variant: FaVariant { is_sharp: true, ..self@.variant },
                ..self@
            }),
    {
        let mut s = self;
        s.variant.is_sharp = true;
        s
    }

    /// Turns the duotone modifier on.
    pub fn duotone(self) -> (s: Self)
        ensures
            s@ == (StyleSnapshot {
                variant: FaVariant { is_duotone: true, ..self@.variant },
                ..self@
            }),
    {
        let mut s = self;
        s.variant.is_duotone = true;
        s
    }

    /// Sets the colour of a variant that is drawn with one fill.
    pub fn color(self, color: FaBrush) -> (s: Self)
        ensures
            s@ == (StyleSnapshot { color: Some(color@), ..self@ }),
    {
        let mut s = self;
        s.color = Some(color);
        s
    }

    /// Sets the colour of the primary layer of a duotone variant.
    pub fn primary(self, color: FaBrush) -> (s: Self)
        ensures
            s@ == (StyleSnapshot { primary: Some(color@), ..self@ }),
    {
        let mut s = self;
        s.primary = Some(color);
        s
    }

    /// Sets the colour of the secondary layer of a duotone variant.
    pub fn secondary(self, color: FaBrush) -> (s: Self)
        ensures
            s@ == (StyleSnapshot { secondary: Some(color@), ..self@ }),
    {
        let mut s = self;
        s.secondary = Some(color);
        s
    }
}

/// One reading of the style: the snapshot that is kept afterwards, and
/// whether the reading found a change.
pub open spec fn read_step(before: StyleSnapshot, style: StyleSnapshot) -> (StyleSnapshot, bool) {
    (style, before != style)
}

/// The style inputs as they were last read, kept from one style pass to the
/// next.
#[derive(Debug)]
pub struct FaStyleExt {
    variant: FaVariant,
    color: Option<FaBrush>,
    primary: Option<FaBrush>,
    secondary: Option<FaBrush>,
}

impl View for FaStyleExt {
    type V = StyleSnapshot;

    closed spec fn view(&self) -> StyleSnapshot {
        StyleSnapshot {
            variant: self.variant,
            color: paint_text(self.color),
            primary: paint_text(self.primary),
            secondary: paint_text(self.secondary),
        }
    }
}

impl Default for FaStyleExt {
    fn default() -> (e: Self)
        ensures
            e@ == default_snapshot(),
    {
        FaStyleExt { variant: FaVariant::default(), color: None, primary: None, secondary: None }
    }
}

impl FaStyleExt {
    /// Takes the inputs from `style` and says whether any of the four
    /// differs from what was read before.
    pub fn read(&mut self, style: &FaStyle) -> (changed: bool)
        ensures
            (final(self)@, changed) == read_step(old(self)@, style@),
    {
        let same = self.variant == style.variant && same_paint(&self.color, &style.color)
            && same_paint(&self.primary, &style.primary) && same_paint(
            &self.secondary,
            &style.secondary,
        );
        if !same {
            self.variant = style.variant;
            self.color = clone_paint(&style.color);
            self.primary = clone_paint(&style.primary);
            self.secondary = clone_paint(&style.secondary);
        }
        !same
    }

    /// Reads as [`FaStyleExt::read`] does.
    pub fn read_custom(&mut self, style: &FaStyle) -> (changed: bool)
        ensures
            (final(self)@, changed) == read_step(old(self)@, style@),
    {
        self.read(style)
    }

    /// The variant that was last read.
    pub fn variant(&self) -> (v: FaVariant)
        ensures
            v == self@.variant,
    {
        self.variant
    }

    /// The single colour that was last read.
    pub fn color(&self) -> (c: Option<FaBrush>)
        ensures
            paint_text(c) == self@.color,
    {
        clone_paint(&self.color)
    }

    /// The primary colour that was last read.
    pub fn primary(&self) -> (c: Option<FaBrush>)
        ensures
            paint_text(c) == self@.primary,
    {
        clone_paint(&self.primary)
    }

    /// The secondary colour that was last read.
    pub fn secondary(&self) -> (c: Option<FaBrush>)
        ensures
            paint_text(c) == self@.secondary,
    {
        clone_paint(&self.secondary)
    }

    /// The override text for what was last read.
    pub fn css_string(&self) -> (css: String)
        ensures
            css@ == override_text(self@),
    {
        if self.variant.is_duotone() {
            let mut css = String::from_str(DUOTONE_OPEN);
            match &self.primary {
                Some(brush) => css.append(brush.css()),
                None => css.append(CURRENT_COLOR),
            }
            css.append(DUOTONE_BETWEEN);
            match &self.secondary {
                Some(brush) => css.append(brush.css()),
                None => css.append(CURRENT_COLOR),
            }
            css.append(DUOTONE_CLOSE);
            css
        } else {
            match &self.color {
                Some(brush) => {
                    let mut css = String::from_str(SINGLE_OPEN);
                    css.append(brush.css());
                    css.append(SINGLE_CLOSE);
                    css
                },
                None => String::new(),
            }
        }
    }
}

/// Reading the same style a second time reports no change, and leaves the
/// snapshot, and with it the override text, as the first reading left them.
pub proof fn lemma_read_is_idempotent(before: StyleSnapshot, style: StyleSnapshot)
    ensures
        read_step(read_step(before, style).0, style) == (read_step(before, style).0, false),
        override_text(read_step(read_step(before, style).0, style).0) == override_text(
            read_step(before, style).0,
        ),
{
}

} // verus!
