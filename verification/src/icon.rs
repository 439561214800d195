//! An icon bound to its style: what to show, and when to show it anew.

use vstd::prelude::*;
use vstd::string::*;
use crate::catalog::{resolve_text, IconAssets};
use crate::style::{default_snapshot, override_text, FaStyle, FaStyleExt, StyleSnapshot};
use crate::variant::{slug_text, FaBaseStyle, FaVariant};

verus! {

/// An icon that has content for every variant.
pub trait FaIconTrait {
    /// The content of the icon in `variant`.
    spec fn svg_text(&self, variant: FaVariant) -> Seq<char>;

    fn svg(&self, variant: FaVariant) -> (svg: &'static str)
        ensures
            svg@ == self.svg_text(variant),
    ;
}

impl FaIconTrait for IconAssets {
    /// What is shown for the slug of `variant`.
    open spec fn svg_text(&self, variant: FaVariant) -> Seq<char> {
        resolve_text(self@, slug_text(variant))
    }

    fn svg(&self, variant: FaVariant) -> (svg: &'static str) {
        self.resolve(variant.slug())
    }
}

/// What a style pass hands to the view: the new content and the new
/// overrides, always both.
#[derive(Debug)]
pub struct FaUpdate {
    pub svg: String,
    pub css: String,
}

/// What an icon view remembers between style passes.
pub struct FaIconView {
    /// The style inputs as they were last read.
    pub style: StyleSnapshot,
    /// The variant whose content is shown.
    pub variant: FaVariant,
}

/// One style pass: the state afterwards, and the content and overrides to
/// show, if any.
///
/// A pass that finds the style as it was last read changes nothing and shows
/// nothing. Any other pass takes the style over and shows the content of its
/// variant together with its overrides.
pub open spec fn pass_step<T: FaIconTrait>(icon: T, before: FaIconView, style: StyleSnapshot) -> (
    FaIconView,
    Option<(Seq<char>, Seq<char>)>,
) {
    if before.style == style {
        (before, None)
    } else {
        (
            FaIconView { style, variant: style.variant },
            Some((icon.svg_text(style.variant), override_text(style))),
        )
    }
}

/// What an update holds, as text.
pub open spec fn update_text(update: Option<FaUpdate>) -> Option<(Seq<char>, Seq<char>)> {
    match update {
        Some(u) => Some((u.svg@, u.css@)),
        None => None,
    }
}

/// An icon bound to the style it is drawn with.
pub struct FaIcon<T> {
    style: FaStyleExt,
    icon: T,
    variant: FaVariant,
}

impl<T: FaIconTrait> FaIcon<T> {
    /// What the view remembers.
    pub closed spec fn view(&self) -> FaIconView {
        FaIconView { style: self.style@, variant: self.variant }
    }

    /// The icon that is shown.
    pub closed spec fn spec_icon(&self) -> T {
        self.icon
    }

    /// The icon that is shown.
    pub fn icon(&self) -> (icon: &T)
        ensures
            *icon == self.spec_icon(),
    {
        &self.icon
    }

    /// The variant whose content is shown.
    pub fn variant(&self) -> (v: FaVariant)
        ensures
            v == self.view().variant,
    {
        self.variant
    }

    /// The content that is shown.
    pub fn svg(&self) -> (svg: &'static str)
        ensures
            svg@ == self.spec_icon().svg_text(self.view().variant),
    {
        self.icon.svg(self.variant)
    }

    /// Runs one style pass against `style`. Returns what the view has to
    /// show anew, or nothing if the style is as it was last read.
    pub fn style_pass(&mut self, style: &FaStyle) -> (update: Option<FaUpdate>)
        ensures
            final(self).spec_icon() == old(self).spec_icon(),
            (final(self).view(), update_text(update)) == pass_step(
                old(self).spec_icon(),
                old(self).view(),
                style@,
            ),
    {
        if self.style.read(style) {
            self.variant = self.style.variant();
            let svg = String::from_str(self.icon.svg(self.variant));
            let css = self.style.css_string();
            Some(FaUpdate { svg, css })
        } else {
            None
        }
    }
}

/// Binds `icon` to a style. It starts in the default variant, with nothing
/// read yet.
pub fn fa_icon<T: FaIconTrait>(icon: T) -> (view: FaIcon<T>)
    ensures
        view.spec_icon() == icon,
        view.view() == (FaIconView {
            style: default_snapshot(),
            variant: FaVariant { base: FaBaseStyle::Solid, is_sharp: false, is_duotone: false },
        }),
{
    FaIcon { style: FaStyleExt::default(), icon, variant: FaVariant::default() }
}

/// A second pass against the same style shows nothing and leaves the state
/// as the first pass left it.
pub proof fn lemma_second_pass_is_idle<T: FaIconTrait>(
    icon: T,
    before: FaIconView,
    style: StyleSnapshot,
)
    ensures
        pass_step(icon, pass_step(icon, before, style).0, style) == (
            pass_step(icon, before, style).0,
            None::<(Seq<char>, Seq<char>)>,
        ),
{
}

/// A pass that finds the style changed shows both the content of the new
/// variant and the new overrides, and shows content even where nothing is
/// authored for the variant.
pub proof fn lemma_changed_pass_shows_both<T: FaIconTrait>(
    icon: T,
    before: FaIconView,
    style: StyleSnapshot,
)
    requires
        before.style != style,
    ensures
        pass_step(icon, before, style).1 == Some(
            (icon.svg_text(style.variant), override_text(style)),
        ),
        pass_step(icon, before, style).0.variant == style.variant,
{
}

} // verus!
