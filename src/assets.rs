use crate::geometry::{Size, FIXED_ONE};
use crate::tile::TileTexture;
use vstd::prelude::*;
use vstd::seq_lib::*;
use vstd::string::*;

verus! {

/// A sprite of the palette: its stable id and the texture it is drawn with.
#[derive(Debug, Clone)]
pub struct TileSprite {
    pub name: String,
    pub texture: TileTexture,
}

/// A named group of sprites.
#[derive(Debug)]
pub struct AssetCategory {
    pub name: String,
    pub tiles: Vec<TileSprite>,
}

/// All sprites available to the editor, by category.
#[derive(Debug)]
pub struct AssetCatalog {
    pub categories: Vec<AssetCategory>,
}

/// The first sprite at or after position `i` of `tiles` whose name is `id`.
pub open spec fn find_sprite_from(tiles: Seq<TileSprite>, id: Seq<char>, i: int) -> Option<TileSprite>
    decreases tiles.len() - i,
{
    if i < 0 || i >= tiles.len() {
        None
    } else if tiles[i].name@ == id {
        Some(tiles[i])
    } else {
        find_sprite_from(tiles, id, i + 1)
    }
}

/// The first sprite named `id` in categories `c` onwards, categories and
/// their sprites taken in order.
pub open spec fn find_in_categories_from(
    categories: Seq<AssetCategory>,
    id: Seq<char>,
    c: int,
) -> Option<TileSprite>
    decreases categories.len() - c,
{
    if c < 0 || c >= categories.len() {
        None
    } else {
        match find_sprite_from(categories[c].tiles@, id, 0) {
            Some(s) => Some(s),
            None => find_in_categories_from(categories, id, c + 1),
        }
    }
}

pub open spec fn has_tiles() -> spec_fn(AssetCategory) -> bool {
    |c: AssetCategory| c.tiles@.len() > 0
}

/// Categories that hold at least one sprite, in order.
pub open spec fn kept_categories(s: Seq<AssetCategory>) -> Seq<AssetCategory> {
    s.filter(has_tiles())
}

proof fn lemma_kept_front(s: Seq<AssetCategory>)
    requires
        s.len() > 0,
    ensures
        kept_categories(s) == (if s[0].tiles@.len() > 0 {
            seq![s[0]]
        } else {
            Seq::<AssetCategory>::empty()
        }) + kept_categories(s.drop_first()),
{
    let head = seq![s[0]];
    assert(s == head + s.drop_first());
    Seq::filter_distributes_over_add(head, s.drop_first(), has_tiles());
    reveal_with_fuel(Seq::filter, 2);
    assert(head.drop_last() =~= Seq::<AssetCategory>::empty());
}

/// `c` is `lower` or, for a lowercase ASCII letter `lower`, its uppercase form.
pub open spec fn char_matches_lower(c: char, lower: char) -> bool {
    c == lower || ('a' <= lower <= 'z' && c as u32 + 32 == lower as u32)
}

/// `s` spells `lower` when ASCII letters are compared without case.
pub open spec fn matches_lower(s: Seq<char>, lower: Seq<char>) -> bool {
    &&& s.len() == lower.len()
    &&& forall|i: int| 0 <= i < s.len() ==> char_matches_lower(#[trigger] s[i], lower[i])
}

/// File extensions of the images the editor reads sprites from.
pub open spec fn is_image_extension(e: Seq<char>) -> bool {
    matches_lower(e, "png"@) || matches_lower(e, "jpg"@) || matches_lower(e, "jpeg"@)
}

/// Whether `s` spells `lower` when ASCII letters are compared without case.
fn text_matches_lower(s: &str, lower: &str) -> (r: bool)
    ensures
        r == matches_lower(s@, lower@),
{
    let n = s.unicode_len();
    if n != lower.unicode_len() {
        return false;
    }
    let mut i: usize = 0;
    while i < n
        invariant
            n == s@.len(),
            n == lower@.len(),
            0 <= i <= n,
            forall|j: int| 0 <= j < i ==> char_matches_lower(#[trigger] s@[j], lower@[j]),
        decreases n - i,
    {
        let c = s.get_char(i);
        let l = lower.get_char(i);
        if !(c == l || ('a' <= l && l <= 'z' && c as u32 + 32 == l as u32)) {
            assert(!char_matches_lower(s@[i as int], lower@[i as int]));
            return false;
        }
        i += 1;
    }
    true
}

/// Whether two texts are equal, character by character.
fn same_text(a: &str, b: &str) -> (r: bool)
    ensures
        r == (a@ == b@),
{
    let n = a.unicode_len();
    if n != b.unicode_len() {
        return false;
    }
    let mut i: usize = 0;
    while i < n
        invariant
            n == a@.len(),
            n == b@.len(),
            0 <= i <= n,
            forall|j: int| 0 <= j < i ==> a@[j] == b@[j],
        decreases n - i,
    {
        if a.get_char(i) != b.get_char(i) {
            return false;
        }
        i += 1;
    }
    assert(a@ =~= b@);
    true
}

/// Whether a file with this extension is an image that sprites are read from
/// (png, jpg or jpeg, in any letter case).
pub fn is_supported_image(extension: Option<&str>) -> (r: bool)
    ensures
        r == (extension matches Some(e) && is_image_extension(e@)),
{
    match extension {
        Some(e) => text_matches_lower(e, "png") || text_matches_lower(e, "jpg")
            || text_matches_lower(e, "jpeg"),
        None => false,
    }
}

/// A fixed-point length rounded to whole pixels, half away from zero; a
/// negative length gives zero.
pub open spec fn rounded_pixels(v: int) -> int {
    if v < 0 {
        0
    } else {
        v / FIXED_ONE as int + (if v % FIXED_ONE as int >= FIXED_ONE / 2 {
            1int
        } else {
            0int
        })
    }
}

/// A tile size rounded to whole pixels, unless a side rounds to zero (or
/// past what a `usize` holds).
pub open spec fn pixel_size(size: Size) -> Option<(usize, usize)> {
    let w = rounded_pixels(size.width as int);
    let h = rounded_pixels(size.height as int);
    if w == 0 || h == 0 || w > usize::MAX || h > usize::MAX {
        None
    } else {
        Some((w as usize, h as usize))
    }
}

fn round_to_pixels(v: i64) -> (r: u64)
    ensures
        r == rounded_pixels(v as int),
{
    if v < 0 {
        0
    } else {
        let whole = (v / FIXED_ONE) as u64;
        if v % FIXED_ONE >= FIXED_ONE / 2 {
            whole + 1
        } else {
            whole
        }
    }
}

/// A tile size in whole pixels, or `None` when either side rounds to zero.
pub fn size_to_pixels(size: Size) -> (r: Option<(usize, usize)>)
    ensures
        r == pixel_size(size),
        r matches Some((w, h)) ==> w > 0 && h > 0,
{
    let width = round_to_pixels(size.width);
    let height = round_to_pixels(size.height);
    if width == 0 || height == 0 || width > usize::MAX as u64 || height > usize::MAX as u64 {
        return None;
    }
    Some((width as usize, height as usize))
}

/// The character of decimal digit `d`.
pub open spec fn digit_char(d: nat) -> char {
    if d == 0 {
        '0'
    } else if d == 1 {
        '1'
    } else if d == 2 {
        '2'
    } else if d == 3 {
        '3'
    } else if d == 4 {
        '4'
    } else if d == 5 {
        '5'
    } else if d == 6 {
        '6'
    } else if d == 7 {
        '7'
    } else if d == 8 {
        '8'
    } else {
        '9'
    }
}

/// `n` in decimal, without leading zeros.
pub open spec fn decimal(n: nat) -> Seq<char>
    decreases n,
{
    if n < 10 {
        seq![digit_char(n)]
    } else {
        decimal(n / 10) + seq![digit_char(n % 10)]
    }
}

/// `n` in decimal, padded with a zero to at least two digits.
pub open spec fn two_digit_decimal(n: nat) -> Seq<char> {
    if n < 10 {
        seq!['0', digit_char(n)]
    } else {
        decimal(n)
    }
}

/// Id of sprite `index` of the sheet whose file stem is `stem`.
pub open spec fn sprite_label_of(stem: Seq<char>, index: nat) -> Seq<char> {
    stem + seq!['_'] + two_digit_decimal(index)
}

fn digit_text(d: usize) -> (r: &'static str)
    requires
        d < 10,
    ensures
        r@ == seq![digit_char(d as nat)],
{
    proof {
        reveal_strlit("0");
        reveal_strlit("1");
        reveal_strlit("2");
        reveal_strlit("3");
        reveal_strlit("4");
        reveal_strlit("5");
        reveal_strlit("6");
        reveal_strlit("7");
        reveal_strlit("8");
        reveal_strlit("9");
    }
    let r = if d == 0 {
        "0"
    } else if d == 1 {
        "1"
    } else if d == 2 {
        "2"
    } else if d == 3 {
        "3"
    } else if d == 4 {
        "4"
    } else if d == 5 {
        "5"
    } else if d == 6 {
        "6"
    } else if d == 7 {
        "7"
    } else if d == 8 {
        "8"
    } else {
        "9"
    };
    assert(r@ =~= seq![digit_char(d as nat)]);
    r
}

fn append_decimal(text: &mut String, n: usize)
    ensures
        final(text)@ == old(text)@ + decimal(n as nat),
    decreases n,
{
    if n >= 10 {
        append_decimal(text, n / 10);
    }
    text.append(digit_text(n % 10));
    assert(final(text)@ =~= old(text)@ + decimal(n as nat));
}

/// The id of sprite `index` cut from the sheet with file stem `stem`: the
/// stem, an underscore, and the index in decimal with at least two digits.
pub fn sprite_label(stem: &str, index: usize) -> (r: String)
    ensures
        r@ == sprite_label_of(stem@, index as nat),
{
    let mut label = String::from_str(stem);
    proof {
        reveal_strlit("_");
        reveal_strlit("0");
    }
    label.append("_");
    if index < 10 {
        label.append("0");
    }
    append_decimal(&mut label, index);
    assert(label@ =~= sprite_label_of(stem@, index as nat));
    label
}

/// How a sprite sheet divides into tiles: the tile size in pixels and the
/// number of whole tiles across and down.
#[derive(Debug, Clone, Copy, PartialEq, Eq, Structural)]
pub struct SheetLayout {
    pub tile_width: usize,
    pub tile_height: usize,
    pub columns: usize,
    pub rows: usize,
}

/// Cuts an image of the given pixel size into tiles of `tile_size`; `None`
/// when the tile size rounds to zero or not one whole tile fits.
pub fn sheet_layout(image_width: usize, image_height: usize, tile_size: Size) -> (r: Option<SheetLayout>)
    ensures
        r == (match pixel_size(tile_size) {
            None => None,
            Some((tw, th)) => if image_width / tw == 0 || image_height / th == 0 {
                None
            } else {
                Some(SheetLayout {
                    tile_width: tw,
                    tile_height: th,
                    columns: image_width / tw,
                    rows: image_height / th,
                })
            },
        }),
{
    let (tile_width, tile_height) = match size_to_pixels(tile_size) {
        Some(p) => p,
        None => return None,
    };
    let columns = image_width / tile_width;
    let rows = image_height / tile_height;
    if columns == 0 || rows == 0 {
        return None;
    }
    Some(SheetLayout { tile_width, tile_height, columns, rows })
}

impl AssetCategory {
    pub fn new(name: String, tiles: Vec<TileSprite>) -> (r: Self)
        ensures
            r.name == name,
            r.tiles == tiles,
    {
        AssetCategory { name, tiles }
    }
}

impl AssetCatalog {
    /// The sprite that `sprite_by_id` finds for `id`.
    pub open spec fn lookup(&self, id: Seq<char>) -> Option<TileSprite> {
        find_in_categories_from(self.categories@, id, 0)
    }

    /// Builds the catalog from the sprites found at the assets root (listed
    /// first, under the name "General") and those of its named subfolders;
    /// a category without sprites is left out.
    pub fn assemble(general: Option<AssetCategory>, named: Vec<AssetCategory>) -> (r: Self)
        ensures
            r.categories@ == (match general {
                Some(g) => if g.tiles@.len() > 0 {
                    seq![AssetCategory { name: r.categories@[0].name, tiles: g.tiles }]
                } else {
                    Seq::empty()
                },
                None => Seq::empty(),
            }) + kept_categories(named@),
            general matches Some(g) && g.tiles@.len() > 0 ==> r.categories@[0].name@ == "General"@,
    {
        let mut categories: Vec<AssetCategory> = Vec::new();
        if let Some(g) = general {
            if g.tiles.len() > 0 {
                categories.push(AssetCategory { name: "General".to_owned(), tiles: g.tiles });
            }
        }
        let ghost front = categories@;
        let ghost all_named = named@;
        let mut named = named;
        while named.len() > 0
            invariant
                categories@ + kept_categories(named@) == front + kept_categories(all_named),
            decreases named.len(),
        {
            proof {
                lemma_kept_front(named@);
            }
            let ghost before = named@;
            let c = named.remove(0);
            assert(named@ == before.drop_first());
            if c.tiles.len() > 0 {
                categories.push(c);
            }
        }
        AssetCatalog { categories }
    }

    pub fn categories(&self) -> (r: &[AssetCategory])
        ensures
            r@ == self.categories@,
    {
        self.categories.as_slice()
    }

    pub fn category(&self, index: usize) -> (r: Option<&AssetCategory>)
        ensures
            index < self.categories@.len() ==> r == Some(&self.categories@[index as int]),
            index >= self.categories@.len() ==> r.is_none(),
    {
        if index < self.categories.len() {
            Some(&self.categories[index])
        } else {
            None
        }
    }

    pub fn is_empty(&self) -> (r: bool)
        ensures
            r == (self.categories@.len() == 0),
    {
        self.categories.len() == 0
    }

    /// The first sprite named `id`, categories and their sprites taken in order.
    pub fn sprite_by_id(&self, id: &str) -> (r: Option<&TileSprite>)
        ensures
            match r {
                Some(s) => self.lookup(id@) == Some(*s),
                None => self.lookup(id@).is_none(),
            },
    {
        let mut c: usize = 0;
        while c < self.categories.len()
            invariant
                0 <= c <= self.categories@.len(),
                self.lookup(id@) == find_in_categories_from(self.categories@, id@, c as int),
            decreases self.categories@.len() - c,
        {
            let tiles = &self.categories[c].tiles;
            let mut i: usize = 0;
            while i < tiles.len()
                invariant
                    0 <= c < self.categories@.len(),
                    tiles@ == self.categories@[c as int].tiles@,
                    self.lookup(id@) == find_in_categories_from(self.categories@, id@, c as int),
                    0 <= i <= tiles@.len(),
                    find_sprite_from(tiles@, id@, 0) == find_sprite_from(tiles@, id@, i as int),
                decreases tiles@.len() - i,
            {
                if same_text(tiles[i].name.as_str(), id) {
                    assert(find_sprite_from(tiles@, id@, i as int) == Some(tiles@[i as int]));
                    assert(find_in_categories_from(self.categories@, id@, c as int) == Some(
                        tiles@[i as int],
                    ));
                    return Some(&tiles[i]);
                }
                i += 1;
            }
            c += 1;
        }
        None
    }
}

} // verus!
