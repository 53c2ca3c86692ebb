//! The two fixed palettes as RGB triples, the squared distance between two
//! triples, and the search for the palette entry nearest to a triple.

use vstd::prelude::*;

verus! {

/// The RGB triple of entry `k` of the 16-color palette, in the order
/// black, red, green, yellow, blue, magenta, cyan, white, then the bright
/// eight in the same order.
pub open spec fn spec_ansi16_rgb(k: int) -> (u8, u8, u8) {
    if k == 0 {
        (0, 0, 0)
    } else if k == 1 {
        (128, 0, 0)
    } else if k == 2 {
        (0, 128, 0)
    } else if k == 3 {
        (128, 128, 0)
    } else if k == 4 {
        (0, 0, 128)
    } else if k == 5 {
        (128, 0, 128)
    } else if k == 6 {
        (0, 128, 128)
    } else if k == 7 {
        (192, 192, 192)
    } else if k == 8 {
        (128, 128, 128)
    } else if k == 9 {
        (255, 0, 0)
    } else if k == 10 {
        (0, 255, 0)
    } else if k == 11 {
        (255, 255, 0)
    } else if k == 12 {
        (0, 0, 255)
    } else if k == 13 {
        (255, 0, 255)
    } else if k == 14 {
        (0, 255, 255)
    } else {
        (255, 255, 255)
    }
}

/// Step `d` of the six-step intensity ramp of the color cube.
pub open spec fn spec_cube_value(d: int) -> u8 {
    if d == 0 {
        0x00
    } else if d == 1 {
        0x5f
    } else if d == 2 {
        0x87
    } else if d == 3 {
        0xaf
    } else if d == 4 {
        0xd7
    } else {
        0xff
    }
}

/// The RGB triple of index `idx` of the 256-color palette.
///
/// Indices below 16 are the 16-color palette. Indices 16 to 231 are the
/// color cube: `idx - 16` read as three base-6 digits, red first, each
/// mapped through the intensity ramp. Indices from 232 are the gray ramp:
/// level `8 + 10 * (idx - 232)` on all three channels.
pub open spec fn spec_ansi256_to_rgb(idx: u8) -> (u8, u8, u8) {
    if idx < 16 {
        spec_ansi16_rgb(idx as int)
    } else if idx <= 231 {
        let n = idx - 16;
        (spec_cube_value(n / 36), spec_cube_value((n % 36) / 6), spec_cube_value(n % 6))
    } else {
        let gray = (8 + (idx - 232) * 10) as u8;
        (gray, gray, gray)
    }
}

/// The squared Euclidean distance between two RGB triples.
pub open spec fn distance_sq(a: (u8, u8, u8), b: (u8, u8, u8)) -> int {
    (a.0 - b.0) * (a.0 - b.0) + (a.1 - b.1) * (a.1 - b.1) + (a.2 - b.2) * (a.2 - b.2)
}

/// The 16-color palette as a sequence of RGB triples.
pub open spec fn ansi16_palette() -> Seq<(u8, u8, u8)> {
    Seq::new(16, |k: int| spec_ansi16_rgb(k))
}

/// The 256-color palette as a sequence of RGB triples.
pub open spec fn ansi256_palette() -> Seq<(u8, u8, u8)> {
    Seq::new(256, |i: int| spec_ansi256_to_rgb(i as u8))
}

/// The squared distance from entry `j` of `palette` to `target`.
pub open spec fn entry_distance(palette: Seq<(u8, u8, u8)>, target: (u8, u8, u8), j: int) -> int {
    distance_sq(palette[j], target)
}

/// Entry `k` is the nearest to `target` among the first `n` entries of
/// `palette`, and the first of them at that distance.
pub open spec fn is_nearest_among(
    palette: Seq<(u8, u8, u8)>,
    target: (u8, u8, u8),
    n: int,
    k: int,
) -> bool {
    &&& 0 <= k < n <= palette.len()
    &&& forall|j: int|
        0 <= j < n ==> entry_distance(palette, target, k) <= #[trigger] entry_distance(
            palette,
            target,
            j,
        )
    &&& forall|j: int|
        0 <= j < k ==> entry_distance(palette, target, k) < #[trigger] entry_distance(
            palette,
            target,
            j,
        )
}

/// Entry `k` is the nearest to `target` in the whole of `palette`, and the
/// first at that distance.
pub open spec fn is_nearest(palette: Seq<(u8, u8, u8)>, target: (u8, u8, u8), k: int) -> bool {
    is_nearest_among(palette, target, palette.len() as int, k)
}

/// The index of the entry of `palette` nearest to `target`, the lowest one
/// where several are equally near.
pub open spec fn nearest(palette: Seq<(u8, u8, u8)>, target: (u8, u8, u8)) -> int {
    choose|k: int| is_nearest(palette, target, k)
}

/// No two indices are both the first nearest among the same entries.
pub proof fn lemma_nearest_among_unique(
    palette: Seq<(u8, u8, u8)>,
    target: (u8, u8, u8),
    n: int,
    a: int,
    b: int,
)
    requires
        is_nearest_among(palette, target, n, a),
        is_nearest_among(palette, target, n, b),
    ensures
        a == b,
{
    if a < b {
        assert(entry_distance(palette, target, b) < entry_distance(palette, target, a));
        assert(entry_distance(palette, target, a) <= entry_distance(palette, target, b));
    } else if b < a {
        assert(entry_distance(palette, target, a) < entry_distance(palette, target, b));
        assert(entry_distance(palette, target, b) <= entry_distance(palette, target, a));
    }
}

/// Every non-empty prefix of a palette has a first nearest entry.
pub proof fn lemma_nearest_among_exists(
    palette: Seq<(u8, u8, u8)>,
    target: (u8, u8, u8),
    n: int,
) -> (k: int)
    requires
        0 < n <= palette.len(),
    ensures
        is_nearest_among(palette, target, n, k),
    decreases n,
{
    if n == 1 {
        0
    } else {
        let before = lemma_nearest_among_exists(palette, target, n - 1);
        if entry_distance(palette, target, n - 1) < entry_distance(palette, target, before) {
            n - 1
        } else {
            before
        }
    }
}

/// In a non-empty palette `nearest` is the first nearest entry, and the
/// only index that is.
pub proof fn lemma_nearest_is_nearest(palette: Seq<(u8, u8, u8)>, target: (u8, u8, u8))
    requires
        palette.len() > 0,
    ensures
        is_nearest(palette, target, nearest(palette, target)),
        forall|k: int| is_nearest(palette, target, k) ==> k == nearest(palette, target),
{
    let witness = lemma_nearest_among_exists(palette, target, palette.len() as int);
    assert(is_nearest(palette, target, witness));
    assert forall|k: int| is_nearest(palette, target, k) implies k == nearest(
        palette,
        target,
    ) by {
        lemma_nearest_among_unique(
            palette,
            target,
            palette.len() as int,
            k,
            nearest(palette, target),
        );
    }
}

/// The RGB triple of entry `k` of the 16-color palette.
pub fn ansi16_rgb(k: u8) -> (rgb: (u8, u8, u8))
    ensures
        rgb == spec_ansi16_rgb(k as int),
{
    if k == 0 {
        (0, 0, 0)
    } else if k == 1 {
        (128, 0, 0)
    } else if k == 2 {
        (0, 128, 0)
    } else if k == 3 {
        (128, 128, 0)
    } else if k == 4 {
        (0, 0, 128)
    } else if k == 5 {
        (128, 0, 128)
    } else if k == 6 {
        (0, 128, 128)
    } else if k == 7 {
        (192, 192, 192)
    } else if k == 8 {
        (128, 128, 128)
    } else if k == 9 {
        (255, 0, 0)
    } else if k == 10 {
        (0, 255, 0)
    } else if k == 11 {
        (255, 255, 0)
    } else if k == 12 {
        (0, 0, 255)
    } else if k == 13 {
        (255, 0, 255)
    } else if k == 14 {
        (0, 255, 255)
    } else {
        (255, 255, 255)
    }
}

/// Step `d` of the intensity ramp of the color cube.
fn cube_value(d: u8) -> (v: u8)
    ensures
        v == spec_cube_value(d as int),
{
    if d == 0 {
        0x00
    } else if d == 1 {
        0x5f
    } else if d == 2 {
        0x87
    } else if d == 3 {
        0xaf
    } else if d == 4 {
        0xd7
    } else {
        0xff
    }
}

/// The RGB triple of index `idx` of the 256-color palette.
pub fn ansi256_to_rgb(idx: u8) -> (rgb: (u8, u8, u8))
    ensures
        rgb == spec_ansi256_to_rgb(idx),
{
    if idx < 16 {
        ansi16_rgb(idx)
    } else if idx <= 231 {
        let n: u8 = idx - 16;
        let r: u8 = n / 36;
        let rem: u8 = n % 36;
        let g: u8 = rem / 6;
        let b: u8 = rem % 6;
        (cube_value(r), cube_value(g), cube_value(b))
    } else {
        let gray_level: u8 = idx - 232;
        let gray_value: u8 = 8 + gray_level * 10;
        (gray_value, gray_value, gray_value)
    }
}

/// The square of the difference of two channel values.
fn channel_distance_sq(x: u8, y: u8) -> (d: u32)
    ensures
        d == (x - y) * (x - y),
        d <= 65025,
{
    let gap: u32 = if x >= y {
        (x - y) as u32
    } else {
        (y - x) as u32
    };
    assert(gap * gap == (x - y) * (x - y)) by (nonlinear_arith)
        requires
            gap == x - y || gap == y - x,
    ;
    assert(gap * gap <= 65025) by (nonlinear_arith)
        requires
            0 <= gap <= 255,
    ;
    gap * gap
}

/// The squared Euclidean distance between two RGB triples.
pub fn rgb_distance_sq(a: (u8, u8, u8), b: (u8, u8, u8)) -> (d: u32)
    ensures
        d == distance_sq(a, b),
        d <= 195075,
{
    channel_distance_sq(a.0, b.0) + channel_distance_sq(a.1, b.1) + channel_distance_sq(a.2, b.2)
}

/// The index of the entry of the 16-color palette nearest to `(r, g, b)`,
/// the lowest one where several are equally near.
pub fn nearest_ansi16(r: u8, g: u8, b: u8) -> (k: u8)
    ensures
        k < 16,
        is_nearest(ansi16_palette(), (r, g, b), k as int),
        k == nearest(ansi16_palette(), (r, g, b)),
{
    let target = (r, g, b);
    let ghost palette = ansi16_palette();
    let mut min_distance_sq: u32 = rgb_distance_sq(ansi16_rgb(0), target);
    let mut closest: u8 = 0;
    let mut k: u8 = 1;
    while k < 16
        invariant
            1 <= k <= 16,
            palette == ansi16_palette(),
            target == (r, g, b),
            min_distance_sq == entry_distance(palette, target, closest as int),
            is_nearest_among(palette, target, k as int, closest as int),
        decreases 16 - k,
    {
        let distance_sq = rgb_distance_sq(ansi16_rgb(k), target);
        assert(distance_sq == entry_distance(palette, target, k as int));
        if distance_sq < min_distance_sq {
            min_distance_sq = distance_sq;
            closest = k;
        }
        k = k + 1;
    }
    proof {
        lemma_nearest_is_nearest(palette, target);
    }
    closest
}

/// The index of the 256-color palette nearest to `(r, g, b)`, the lowest
/// one where several are equally near.
pub fn nearest_ansi256(r: u8, g: u8, b: u8) -> (idx: u8)
    ensures
        is_nearest(ansi256_palette(), (r, g, b), idx as int),
        idx == nearest(ansi256_palette(), (r, g, b)),
{
    let target = (r, g, b);
    let ghost palette = ansi256_palette();
    let mut min_distance_sq: u32 = rgb_distance_sq(ansi256_to_rgb(0), target);
    let mut closest: u8 = 0;
    let mut i: u16 = 1;
    while i < 256
        invariant
            1 <= i <= 256,
            palette == ansi256_palette(),
            target == (r, g, b),
            min_distance_sq == entry_distance(palette, target, closest as int),
            is_nearest_among(palette, target, i as int, closest as int),
        decreases 256 - i,
    {
        let idx: u8 = i as u8;
        let distance_sq = rgb_distance_sq(ansi256_to_rgb(idx), target);
        assert(distance_sq == entry_distance(palette, target, i as int));
        if distance_sq < min_distance_sq {
            min_distance_sq = distance_sq;
            closest = idx;
        }
        i = i + 1;
    }
    proof {
        lemma_nearest_is_nearest(palette, target);
    }
    closest
}

/// The squared distance is never negative, and it is zero between equal
/// triples only.
pub proof fn lemma_distance_sq_zero(a: (u8, u8, u8), b: (u8, u8, u8))
    ensures
        distance_sq(a, b) >= 0,
        distance_sq(a, b) == 0 <==> a == b,
        distance_sq(a, b) == distance_sq(b, a),
{
    let x = a.0 - b.0;
    let y = a.1 - b.1;
    let z = a.2 - b.2;
    assert(x * x >= 0 && (x * x == 0 <==> x == 0)) by (nonlinear_arith);
    assert(y * y >= 0 && (y * y == 0 <==> y == 0)) by (nonlinear_arith);
    assert(z * z >= 0 && (z * z == 0 <==> z == 0)) by (nonlinear_arith);
    assert((0 - x) * (0 - x) == x * x) by (nonlinear_arith);
    assert((0 - y) * (0 - y) == y * y) by (nonlinear_arith);
    assert((0 - z) * (0 - z) == z * z) by (nonlinear_arith);
}

/// The entry nearest to a triple that the palette holds is the first entry
/// with that triple.
pub proof fn lemma_nearest_of_entry(palette: Seq<(u8, u8, u8)>, k: int)
    requires
        0 <= k < palette.len(),
    ensures
        0 <= nearest(palette, palette[k]) <= k,
        palette[nearest(palette, palette[k])] == palette[k],
        forall|j: int| 0 <= j < nearest(palette, palette[k]) ==> palette[j] != palette[k],
{
    let target = palette[k];
    let found = nearest(palette, target);
    lemma_nearest_is_nearest(palette, target);
    lemma_distance_sq_zero(target, target);
    assert(entry_distance(palette, target, k) == 0);
    assert(entry_distance(palette, target, found) <= entry_distance(palette, target, k));
    lemma_distance_sq_zero(palette[found], target);
    if k < found {
        assert(entry_distance(palette, target, found) < entry_distance(palette, target, k));
    }
    assert forall|j: int| 0 <= j < found implies palette[j] != target by {
        assert(entry_distance(palette, target, found) < entry_distance(palette, target, j));
        lemma_distance_sq_zero(palette[j], target);
    }
}

/// Where no earlier entry holds the same triple, the entry nearest to the
/// triple of entry `k` is entry `k` itself.
pub proof fn lemma_nearest_of_first_entry(palette: Seq<(u8, u8, u8)>, k: int)
    requires
        0 <= k < palette.len(),
        forall|j: int| 0 <= j < k ==> palette[j] != palette[k],
    ensures
        nearest(palette, palette[k]) == k,
{
    lemma_nearest_of_entry(palette, k);
    let found = nearest(palette, palette[k]);
    if found < k {
        assert(palette[found] != palette[k]);
    }
}

/// The 16 entries of the 16-color palette are 16 different triples.
pub proof fn lemma_ansi16_distinct(j: int, k: int)
    requires
        0 <= j < 16,
        0 <= k < 16,
        j != k,
    ensures
        spec_ansi16_rgb(j) != spec_ansi16_rgb(k),
{
}

/// Each entry of the 16-color palette is the entry nearest to its own
/// triple.
pub proof fn lemma_ansi16_exact(k: int)
    requires
        0 <= k < 16,
    ensures
        nearest(ansi16_palette(), spec_ansi16_rgb(k)) == k,
{
    let palette = ansi16_palette();
    assert forall|j: int| 0 <= j < k implies palette[j] != palette[k] by {
        lemma_ansi16_distinct(j, k);
    }
    lemma_nearest_of_first_entry(palette, k);
}

/// The color cube reads `36 * r + 6 * g + b` as the three digits `r`, `g`
/// and `b`, each mapped through the intensity ramp.
pub proof fn lemma_cube_digits(r: int, g: int, b: int)
    requires
        0 <= r < 6,
        0 <= g < 6,
        0 <= b < 6,
    ensures
        spec_ansi256_to_rgb((16 + 36 * r + 6 * g + b) as u8) == (
            spec_cube_value(r),
            spec_cube_value(g),
            spec_cube_value(b),
        ),
{
    let n = 36 * r + 6 * g + b;
    assert(n / 36 == r && (n % 36) / 6 == g && n % 6 == b);
}

/// Whether a lower index of the 256-color palette holds the same triple as
/// `idx`: the eight corners of the color cube and one step of the gray
/// ramp repeat a triple of the 16-color palette.
pub open spec fn repeats_lower_index(idx: u8) -> bool {
    idx == 16 || idx == 21 || idx == 46 || idx == 51 || idx == 196 || idx == 201 || idx == 226
        || idx == 231 || idx == 244
}

/// The lowest index of the 256-color palette that holds the same triple as
/// `idx`.
pub open spec fn first_index_of(idx: u8) -> u8 {
    if idx == 16 {
        0
    } else if idx == 21 {
        12
    } else if idx == 46 {
        10
    } else if idx == 51 {
        14
    } else if idx == 196 {
        9
    } else if idx == 201 {
        13
    } else if idx == 226 {
        11
    } else if idx == 231 {
        15
    } else if idx == 244 {
        8
    } else {
        idx
    }
}

/// Two indices of the 256-color palette hold the same triple only where
/// the higher one repeats the lower one.
pub proof fn lemma_ansi256_same_triple(j: u8, idx: u8)
    requires
        j < idx,
        spec_ansi256_to_rgb(j) == spec_ansi256_to_rgb(idx),
    ensures
        repeats_lower_index(idx),
        j == first_index_of(idx),
{
    if idx < 16 {
        lemma_ansi16_distinct(j as int, idx as int);
    } else if idx <= 231 {
        let n = idx - 16;
        let r = n / 36;
        let g = (n % 36) / 6;
        let b = n % 6;
        assert(n == 36 * r + 6 * g + b);
        if j >= 16 {
            let m = j - 16;
            assert(m == 36 * (m / 36) + 6 * ((m % 36) / 6) + m % 6);
        }
    } else {
        if j >= 232 {
        } else if j >= 16 {
            let m = j - 16;
            assert(m == 36 * (m / 36) + 6 * ((m % 36) / 6) + m % 6);
        }
    }
}

/// The index nearest to the triple of index `idx` is the lowest index that
/// holds that triple: `idx` itself but for the nine that repeat a lower one.
pub proof fn lemma_ansi256_exact(idx: u8)
    ensures
        nearest(ansi256_palette(), spec_ansi256_to_rgb(idx)) == first_index_of(idx),
        spec_ansi256_to_rgb(first_index_of(idx)) == spec_ansi256_to_rgb(idx),
        !repeats_lower_index(idx) ==> nearest(ansi256_palette(), spec_ansi256_to_rgb(idx)) == idx,
{
    let palette = ansi256_palette();
    let first = first_index_of(idx);
    assert(spec_ansi256_to_rgb(first) == spec_ansi256_to_rgb(idx));
    assert(palette[first as int] == palette[idx as int]);
    assert forall|j: int| 0 <= j < first implies palette[j] != palette[first as int] by {
        if palette[j] == palette[first as int] {
            lemma_ansi256_same_triple(j as u8, idx);
        }
    }
    lemma_nearest_of_first_entry(palette, first as int);
}

} // verus!
