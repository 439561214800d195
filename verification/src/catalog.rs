//! The assets of the icons: which content backs an icon in which variant,
//! and what is shown where nothing was authored.

use vstd::prelude::*;
use vstd::string::*;
use crate::text::str_eq;
use crate::variant::{lemma_slug_literals, slug_text, FaBaseStyle, FaVariant};

verus! {

/// What is shown for a variant that has no asset: an empty drawing.
pub const PLACEHOLDER: &'static str =
    "<svg xmlns=\"http://www.w3.org/2000/svg\" viewBox=\"0 0 24 24\"></svg>";

/// The number of asset trees.
pub const TREE_COUNT: usize = 16;

/// The place of an asset tree among the sixteen, if `slug` names one.
///
/// Every slug but `brands` names the tree its assets lie in. Brand marks
/// have no tree of their own.
pub open spec fn tree_of(slug: Seq<char>) -> Option<int> {
    if slug == "solid"@ {
        Some(0)
    } else if slug == "regular"@ {
        Some(1)
    } else if slug == "light"@ {
        Some(2)
    } else if slug == "thin"@ {
        Some(3)
    } else if slug == "duotone"@ {
        Some(4)
    } else if slug == "sharp-solid"@ {
        Some(5)
    } else if slug == "sharp-regular"@ {
        Some(6)
    } else if slug == "sharp-light"@ {
        Some(7)
    } else if slug == "sharp-thin"@ {
        Some(8)
    } else if slug == "sharp-duotone-solid"@ {
        Some(9)
    } else if slug == "sharp-duotone-regular"@ {
        Some(10)
    } else if slug == "sharp-duotone-light"@ {
        Some(11)
    } else if slug == "sharp-duotone-thin"@ {
        Some(12)
    } else if slug == "duotone-regular"@ {
        Some(13)
    } else if slug == "duotone-light"@ {
        Some(14)
    } else if slug == "duotone-thin"@ {
        Some(15)
    } else {
        None
    }
}

/// Whether `slug` names an asset tree.
pub open spec fn is_asset_tree(slug: Seq<char>) -> bool {
    tree_of(slug) is Some
}

/// The place of the asset tree that `slug` names, if it names one.
pub fn tree_index(slug: &str) -> (tree: Option<usize>)
    ensures
        match tree {
            Some(i) => i < TREE_COUNT && tree_of(slug@) == Some(i as int),
            None => tree_of(slug@) is None,
        },
{
    if str_eq(slug, "solid") {
        Some(0)
    } else if str_eq(slug, "regular") {
        Some(1)
    } else if str_eq(slug, "light") {
        Some(2)
    } else if str_eq(slug, "thin") {
        Some(3)
    } else if str_eq(slug, "duotone") {
        Some(4)
    } else if str_eq(slug, "sharp-solid") {
        Some(5)
    } else if str_eq(slug, "sharp-regular") {
        Some(6)
    } else if str_eq(slug, "sharp-light") {
        Some(7)
    } else if str_eq(slug, "sharp-thin") {
        Some(8)
    } else if str_eq(slug, "sharp-duotone-solid") {
        Some(9)
    } else if str_eq(slug, "sharp-duotone-regular") {
        Some(10)
    } else if str_eq(slug, "sharp-duotone-light") {
        Some(11)
    } else if str_eq(slug, "sharp-duotone-thin") {
        Some(12)
    } else if str_eq(slug, "duotone-regular") {
        Some(13)
    } else if str_eq(slug, "duotone-light") {
        Some(14)
    } else if str_eq(slug, "duotone-thin") {
        Some(15)
    } else {
        None
    }
}

/// The content that is shown for `slug`, given the assets authored for one
/// icon: the asset under `slug` itself; for `brands` without one, the asset
/// under `solid`; and the placeholder where neither exists.
pub open spec fn resolve_text(assets: Map<Seq<char>, Seq<char>>, slug: Seq<char>) -> Seq<char> {
    if assets.contains_key(slug) {
        assets[slug]
    } else if slug == "brands"@ && assets.contains_key("solid"@) {
        assets["solid"@]
    } else {
        PLACEHOLDER@
    }
}

/// The content of an optional asset.
pub open spec fn content_text(content: Option<&'static str>) -> Option<Seq<char>> {
    match content {
        Some(c) => Some(c@),
        None => None,
    }
}

/// The assets authored for one icon, one slot per asset tree.
#[derive(Debug, Clone, Copy)]
pub struct IconAssets {
    slots: [Option<&'static str>; 16],
}

impl View for IconAssets {
    type V = Map<Seq<char>, Seq<char>>;

    /// The authored assets, each under the slug of its tree.
    closed spec fn view(&self) -> Map<Seq<char>, Seq<char>> {
        Map::new(
            |slug: Seq<char>| tree_of(slug) is Some && self.slots@[tree_of(slug).unwrap()] is Some,
            |slug: Seq<char>| self.slots@[tree_of(slug).unwrap()].unwrap()@,
        )
    }
}

impl IconAssets {
    /// An icon for which nothing is authored yet.
    pub fn new() -> (assets: Self)
        ensures
            assets@ == Map::<Seq<char>, Seq<char>>::empty(),
    {
        let none: Option<&'static str> = None;
        let assets = IconAssets { slots: [none;16] };
        assert(assets@ =~= Map::<Seq<char>, Seq<char>>::empty());
        assets
    }

    /// Authors `content` under `slug`, in place of what was there. Says
    /// whether it did: only an asset tree can hold an asset.
    pub fn author(&mut self, slug: &str, content: &'static str) -> (done: bool)
        ensures
            done == is_asset_tree(slug@),
            final(self)@ == if done {
                old(self)@.insert(slug@, content@)
            } else {
                old(self)@
            },
    {
        match tree_index(slug) {
            Some(i) => {
                self.slots[i] = Some(content);
                assert(self@ =~= old(self)@.insert(slug@, content@));
                true
            },
            None => false,
        }
    }

    /// The asset authored under `slug`, if there is one.
    pub fn authored(&self, slug: &str) -> (content: Option<&'static str>)
        ensures
            content_text(content) == (if self@.contains_key(slug@) {
                Some(self@[slug@])
            } else {
                None
            }),
    {
        match tree_index(slug) {
            Some(i) => self.slots[i],
            None => None,
        }
    }

    /// The content that is shown for `slug`.
    pub fn resolve(&self, slug: &str) -> (content: &'static str)
        ensures
            content@ == resolve_text(self@, slug@),
    {
        match self.authored(slug) {
            Some(content) => content,
            None => {
                if str_eq(slug, "brands") {
                    match self.authored("solid") {
                        Some(content) => content,
                        None => PLACEHOLDER,
                    }
                } else {
                    PLACEHOLDER
                }
            },
        }
    }
}

/// No asset tree is named `brands`.
pub proof fn lemma_brands_has_no_tree()
    ensures
        !is_asset_tree("brands"@),
{
    reveal_strlit("brands");
    reveal_strlit("solid");
    reveal_strlit("regular");
    reveal_strlit("light");
    reveal_strlit("thin");
    reveal_strlit("duotone");
    reveal_strlit("sharp-solid");
    reveal_strlit("sharp-regular");
    reveal_strlit("sharp-light");
    reveal_strlit("sharp-thin");
    reveal_strlit("sharp-duotone-solid");
    reveal_strlit("sharp-duotone-regular");
    reveal_strlit("sharp-duotone-light");
    reveal_strlit("sharp-duotone-thin");
    reveal_strlit("duotone-regular");
    reveal_strlit("duotone-light");
    reveal_strlit("duotone-thin");
    assert("brands"@.len() == 6);
    assert("solid"@.len() == 5);
    assert("regular"@.len() == 7);
    assert("light"@.len() == 5);
    assert("thin"@.len() == 4);
    assert("duotone"@.len() == 7);
    assert("sharp-solid"@.len() == 11);
    assert("sharp-regular"@.len() == 13);
    assert("sharp-light"@.len() == 11);
    assert("sharp-thin"@.len() == 10);
    assert("sharp-duotone-solid"@.len() == 19);
    assert("sharp-duotone-regular"@.len() == 21);
    assert("sharp-duotone-light"@.len() == 19);
    assert("sharp-duotone-thin"@.len() == 18);
    assert("duotone-regular"@.len() == 15);
    assert("duotone-light"@.len() == 13);
    assert("duotone-thin"@.len() == 12);
}

/// The slug of every variant lies somewhere: it names an asset tree, or it
/// is `brands`, which only the plain brand variant is keyed by.
pub proof fn lemma_every_slug_has_a_dir(v: FaVariant)
    ensures
        asset_dir(slug_text(v)) is Some,
        !is_asset_tree(slug_text(v)) ==> slug_text(v) == "brands"@ && v == (FaVariant {
            base: FaBaseStyle::Brands,
            is_sharp: false,
            is_duotone: false,
        }),
{
    lemma_slug_literals();
}

/// Whatever is authored for an icon lies under the slug of an asset tree.
pub proof fn lemma_assets_lie_in_trees(assets: IconAssets, slug: Seq<char>)
    requires
        assets@.contains_key(slug),
    ensures
        is_asset_tree(slug),
{
}

/// For `brands`, an icon shows what it shows for `solid` if it has a solid
/// asset, and the placeholder if it has none.
pub proof fn lemma_brands_resolves_as_solid(assets: IconAssets)
    ensures
        resolve_text(assets@, "brands"@) == if assets@.contains_key("solid"@) {
            resolve_text(assets@, "solid"@)
        } else {
            PLACEHOLDER@
        },
{
    lemma_brands_has_no_tree();
    if assets@.contains_key("brands"@) {
        lemma_assets_lie_in_trees(assets, "brands"@);
    }
}

/// Where nothing is authored for a slug, neither under the slug itself nor,
/// for `brands`, under `solid`, the placeholder is shown.
pub proof fn lemma_unauthored_resolves_to_placeholder(
    assets: Map<Seq<char>, Seq<char>>,
    slug: Seq<char>,
)
    requires
        !assets.contains_key(slug),
        slug == "brands"@ ==> !assets.contains_key("solid"@),
    ensures
        resolve_text(assets, slug) == PLACEHOLDER@,
{
}

/// Where the asset of `slug` lies: the tree of that name, and for `brands`
/// the solid tree. A slug that is neither lies nowhere.
pub open spec fn asset_dir(slug: Seq<char>) -> Option<Seq<char>> {
    if is_asset_tree(slug) {
        Some(slug)
    } else if slug == "brands"@ {
        Some("solid"@)
    } else {
        None
    }
}

/// The path of the asset file `file` in the tree `dir` below `base`.
pub open spec fn asset_path_text(base: Seq<char>, dir: Seq<char>, file: Seq<char>) -> Seq<char> {
    base + "/"@ + dir + "/"@ + file + ".svg"@
}

/// One declared icon: the name of its asset files, and what is authored
/// for it.
#[verifier::ext_equal]
pub struct IconEntryView {
    pub file: Seq<char>,
    pub assets: Map<Seq<char>, Seq<char>>,
}

/// A catalog: where its assets are stored, and its icons in the order they
/// were declared.
#[verifier::ext_equal]
pub struct IconCatalogView {
    pub base_path: Seq<char>,
    pub icons: Seq<IconEntryView>,
}

/// The content that a catalog shows for the icon `id` in the variant of
/// `slug`. An icon that was never declared has no asset.
pub open spec fn catalog_resolve_text(catalog: IconCatalogView, id: int, slug: Seq<char>) -> Seq<
    char,
> {
    if 0 <= id < catalog.icons.len() {
        resolve_text(catalog.icons[id].assets, slug)
    } else {
        PLACEHOLDER@
    }
}

/// The file that backs the icon `id` in the variant of `slug`, if the icon
/// is declared and the slug lies somewhere.
pub open spec fn catalog_asset_path(catalog: IconCatalogView, id: int, slug: Seq<char>) -> Option<
    Seq<char>,
> {
    if 0 <= id < catalog.icons.len() && asset_dir(slug) is Some {
        Some(asset_path_text(catalog.base_path, asset_dir(slug).unwrap(), catalog.icons[id].file))
    } else {
        None
    }
}

/// For `brands`, a catalog shows for an icon what it shows for `solid` if
/// the icon is declared and has a solid asset, and the placeholder if not.
pub proof fn lemma_catalog_brands_resolves_as_solid(catalog: IconCatalog, id: int)
    ensures
        catalog_resolve_text(catalog@, id, "brands"@) == if 0 <= id < catalog@.icons.len()
            && catalog@.icons[id].assets.contains_key("solid"@) {
            catalog_resolve_text(catalog@, id, "solid"@)
        } else {
            PLACEHOLDER@
        },
{
    if 0 <= id < catalog@.icons.len() {
        lemma_brands_resolves_as_solid(catalog.icons@[id].assets);
    }
}

struct IconEntry {
    file: String,
    assets: IconAssets,
}

impl View for IconEntry {
    type V = IconEntryView;

    closed spec fn view(&self) -> IconEntryView {
        IconEntryView { file: self.file@, assets: self.assets@ }
    }
}

/// The icons of an application: a closed list, each icon known by its
/// place in it.
pub struct IconCatalog {
    base_path: String,
    icons: Vec<IconEntry>,
}

impl View for IconCatalog {
    type V = IconCatalogView;

    closed spec fn view(&self) -> IconCatalogView {
        IconCatalogView {
            base_path: self.base_path@,
            icons: Seq::new(self.icons@.len(), |i: int| self.icons@[i]@),
        }
    }
}

impl IconCatalog {
    /// A catalog without icons, whose assets are stored below `base_path`.
    pub fn new(base_path: &str) -> (catalog: Self)
        ensures
            catalog@ == (IconCatalogView { base_path: base_path@, icons: Seq::empty() }),
    {
        let catalog = IconCatalog { base_path: String::from_str(base_path), icons: Vec::new() };
        assert(catalog@ =~~= (IconCatalogView { base_path: base_path@, icons: Seq::empty() }));
        catalog
    }

    /// The number of declared icons.
    pub fn len(&self) -> (n: usize)
        ensures
            n == self@.icons.len(),
    {
        self.icons.len()
    }

    /// Declares an icon and returns its identity. Its asset files are named
    /// `path` if one is given and `name` if none is. Nothing is authored for
    /// it yet.
    pub fn declare(&mut self, name: &str, path: Option<&str>) -> (id: usize)
        ensures
            id == old(self)@.icons.len(),
            final(self)@ == (IconCatalogView {
                icons: old(self)@.icons.push(
                    IconEntryView {
                        file: match path {
                            Some(p) => p@,
                            None => name@,
                        },
                        assets: Map::empty(),
                    },
                ),
                ..old(self)@
            }),
    {
        let file = match path {
            Some(p) => String::from_str(p),
            None => String::from_str(name),
        };
        let id = self.icons.len();
        self.icons.push(IconEntry { file, assets: IconAssets::new() });
        assert(self@ =~~= (IconCatalogView {
            icons: old(self)@.icons.push(
                IconEntryView {
                    file: match path {
                        Some(p) => p@,
                        None => name@,
                    },
                    assets: Map::empty(),
                },
            ),
            ..old(self)@
        }));
        id
    }

    /// The file that backs the icon `id` in the variant of `slug`.
    pub fn asset_path(&self, id: usize, slug: &str) -> (path: Option<String>)
        ensures
            match path {
                Some(p) => catalog_asset_path(self@, id as int, slug@) == Some(p@),
                None => catalog_asset_path(self@, id as int, slug@) is None,
            },
    {
        if id >= self.icons.len() {
            return None;
        }
        let dir = match tree_index(slug) {
            Some(_) => slug,
            None => {
                if str_eq(slug, "brands") {
                    "solid"
                } else {
                    return None;
                }
            },
        };
        let mut p = self.base_path.clone();
        p.append("/");
        p.append(dir);
        p.append("/");
        p.append(self.icons[id].file.as_str());
        p.append(".svg");
        Some(p)
    }

    /// Authors `content` for the icon `id` under `slug`, in place of what
    /// was there. Says whether it did: the icon must be declared, and only
    /// an asset tree can hold an asset.
    pub fn author(&mut self, id: usize, slug: &str, content: &'static str) -> (done: bool)
        ensures
            done == (id < old(self)@.icons.len() && is_asset_tree(slug@)),
            final(self)@ == if done {
                IconCatalogView {
                    icons: old(self)@.icons.update(
                        id as int,
                        IconEntryView {
                            assets: old(self)@.icons[id as int].assets.insert(slug@, content@),
                            ..old(self)@.icons[id as int]
                        },
                    ),
                    ..old(self)@
                }
            } else {
                old(self)@
            },
    {
        if id >= self.icons.len() {
            return false;
        }
        let mut assets = self.icons[id].assets;
        let done = assets.author(slug, content);
        if done {
            let file = self.icons[id].file.clone();
            self.icons.set(id, IconEntry { file, assets });
            assert(self@ =~~= (IconCatalogView {
                icons: old(self)@.icons.update(
                    id as int,
                    IconEntryView {
                        assets: old(self)@.icons[id as int].assets.insert(slug@, content@),
                        ..old(self)@.icons[id as int]
                    },
                ),
                ..old(self)@
            }));
        }
        done
    }

    /// What is authored for the icon `id`, if it is declared.
    pub fn icon(&self, id: usize) -> (assets: Option<IconAssets>)
        ensures
            match assets {
                Some(a) => id < self@.icons.len() && a@ == self@.icons[id as int].assets,
                None => id >= self@.icons.len(),
            },
    {
        if id < self.icons.len() {
            Some(self.icons[id].assets)
        } else {
            None
        }
    }

    /// The content that is shown for the icon `id` in the variant of `slug`.
    pub fn resolve(&self, id: usize, slug: &str) -> (content: &'static str)
        ensures
            content@ == catalog_resolve_text(self@, id as int, slug@),
    {
        if id < self.icons.len() {
            self.icons[id].assets.resolve(slug)
        } else {
            PLACEHOLDER
        }
    }
}

} // verus!
