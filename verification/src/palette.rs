//! The controller's fixed palette and the search for the entry nearest to a
//! requested colour.
//!
//! The controller shows a grid cell in one of a fixed set of colours, each
//! selected by a velocity byte. A request for an arbitrary RGB value is answered
//! with the first palette entry at the least distance, where the distance
//! between two colours is the sum over the three channels of the absolute
//! difference of the squared channel values.

use crate::seq_lemmas::lemma_filter_first;
use itertools::Itertools;
use vstd::prelude::*;

verus! {

/// Number of entries in [`PALETTE`].
pub const PALETTE_LEN: usize = 129;

/// The palette in declaration order: each entry is an RGB value and the
/// velocity that selects it. Seven RGB values occur twice; the search settles
/// on the earlier entry.
pub const PALETTE: [(u32, u32); 129] = [
    (0x000000, 0),
    (0x1E1E1E, 1),
    (0x7F7F7F, 2),
    (0xFFFFFF, 3),
    (0xFF4C4C, 4),
    (0xFF0000, 5),
    (0x590000, 6),
    (0x190000, 7),
    (0xFFBD6C, 8),
    (0xFF5400, 9),
    (0x591D00, 10),
    (0x271B00, 11),
    (0xFFFF4C, 12),
    (0xFFFF00, 13),
    (0x595900, 14),
    (0x191900, 15),
    (0x88FF4C, 16),
    (0x54FF00, 17),
    (0x1D5900, 18),
    (0x142B00, 19),
    (0x4CFF4C, 20),
    (0x00FF00, 21),
    (0x005900, 22),
    (0x001900, 23),
    (0x4CFF5E, 24),
    (0x00FF19, 25),
    (0x00590D, 26),
    (0x001902, 27),
    (0x4CFF88, 28),
    (0x00FF55, 28),
    (0x00591D, 29),
    (0x001F12, 30),
    (0x4CFFB7, 31),
    (0x00FF99, 32),
    (0x005935, 33),
    (0x001912, 34),
    (0x4CC3FF, 35),
    (0x00A9FF, 36),
    (0x004152, 37),
    (0x001019, 38),
    (0x4C88FF, 40),
    (0x0055FF, 41),
    (0x001D59, 42),
    (0x000819, 43),
    (0x4C4CFF, 44),
    (0x0000FF, 45),
    (0x000059, 46),
    (0x000019, 47),
    (0x874CFF, 48),
    (0x5400FF, 49),
    (0x190064, 50),
    (0x0F0030, 51),
    (0xFF4CFF, 52),
    (0xFF00FF, 53),
    (0x590059, 54),
    (0x190019, 55),
    (0xFF4C87, 56),
    (0xFF0054, 57),
    (0x59001D, 58),
    (0x220013, 59),
    (0xFF1500, 60),
    (0x993500, 61),
    (0x795100, 62),
    (0x795100, 62),
    (0x436400, 63),
    (0x033900, 64),
    (0x005735, 65),
    (0x00547F, 66),
    (0x0000FF, 67),
    (0x00454F, 68),
    (0x2500CC, 69),
    (0x7F7F7F, 70),
    (0x202020, 71),
    (0xFF0000, 72),
    (0xBDFF2D, 73),
    (0xAFED06, 74),
    (0x64FF09, 75),
    (0x108B00, 76),
    (0x00FF87, 77),
    (0x00A9FF, 78),
    (0x002AFF, 79),
    (0x3F00FF, 80),
    (0x7A00FF, 81),
    (0xB21A7D, 82),
    (0x402100, 83),
    (0xFF4A00, 84),
    (0x88E106, 85),
    (0x72FF15, 86),
    (0x00FF00, 87),
    (0x3BFF26, 88),
    (0x59FF71, 89),
    (0x38FFCC, 90),
    (0x5B8AFF, 91),
    (0x3151C6, 92),
    (0x877FE9, 93),
    (0xD31DFF, 94),
    (0xFF005D, 95),
    (0xFF7F00, 96),
    (0xB9B000, 97),
    (0x90FF00, 98),
    (0x835D07, 99),
    (0x392B00, 100),
    (0x144C10, 101),
    (0x0D5038, 102),
    (0x15152A, 103),
    (0x16205A, 104),
    (0x693C1C, 105),
    (0xA8000A, 106),
    (0xDE513D, 107),
    (0xD86A1C, 108),
    (0xFFE126, 109),
    (0x9EE12F, 110),
    (0x67B50F, 111),
    (0x1E1E30, 112),
    (0xDCFF6B, 113),
    (0x80FFBD, 114),
    (0x9A99FF, 115),
    (0x8E66FF, 116),
    (0x404040, 117),
    (0x757575, 118),
    (0xE0FFFF, 119),
    (0xA00000, 120),
    (0x350000, 121),
    (0x1AD000, 122),
    (0x074200, 123),
    (0xB9B000, 124),
    (0x3F3100, 125),
    (0xB35F00, 126),
    (0x4B1502, 127),
];

/// Largest value of a squared channel.
pub const CHANNEL_SQUARE_MAX: u32 = 65025;

/// The red channel of a colour: bits 23 to 16.
pub open spec fn red(rgb: u32) -> u32 {
    (rgb >> 16) & 0xff
}

/// The green channel of a colour: bits 15 to 8.
pub open spec fn green(rgb: u32) -> u32 {
    (rgb >> 8) & 0xff
}

/// The blue channel of a colour: bits 7 to 0.
pub open spec fn blue(rgb: u32) -> u32 {
    rgb & 0xff
}

/// The squared channel values `(r², g², b²)` of a colour.
pub open spec fn squares(rgb: u32) -> (int, int, int) {
    (red(rgb) * red(rgb), green(rgb) * green(rgb), blue(rgb) * blue(rgb))
}

/// The absolute difference of two numbers.
pub open spec fn abs_diff(a: int, b: int) -> int {
    if a >= b {
        a - b
    } else {
        b - a
    }
}

/// Sum of the absolute differences of the three components.
pub open spec fn distance(a: (int, int, int), b: (int, int, int)) -> int {
    abs_diff(a.0, b.0) + abs_diff(a.1, b.1) + abs_diff(a.2, b.2)
}

/// Distance between a requested colour and the palette entry at `i`.
pub open spec fn palette_distance(rgb: u32, i: int) -> int {
    distance(squares(rgb), squares(PALETTE[i].0))
}

/// Each channel of a colour is a byte.
pub proof fn lemma_channels_are_bytes(rgb: u32)
    ensures
        red(rgb) <= 255,
        green(rgb) <= 255,
        blue(rgb) <= 255,
{
    assert((rgb >> 16) & 0xff <= 255) by (bit_vector);
    assert((rgb >> 8) & 0xff <= 255) by (bit_vector);
    assert(rgb & 0xff <= 255) by (bit_vector);
}

/// Each squared channel of a colour is at most 255².
pub proof fn lemma_squares_bounded(rgb: u32)
    ensures
        0 <= squares(rgb).0 <= CHANNEL_SQUARE_MAX,
        0 <= squares(rgb).1 <= CHANNEL_SQUARE_MAX,
        0 <= squares(rgb).2 <= CHANNEL_SQUARE_MAX,
{
    lemma_channels_are_bytes(rgb);
    let (r, g, b) = (red(rgb) as int, green(rgb) as int, blue(rgb) as int);
    assert(0 <= r * r <= 65025) by (nonlinear_arith)
        requires
            0 <= r <= 255,
    ;
    assert(0 <= g * g <= 65025) by (nonlinear_arith)
        requires
            0 <= g <= 255,
    ;
    assert(0 <= b * b <= 65025) by (nonlinear_arith)
        requires
            0 <= b <= 255,
    ;
}

/// The squared channel values of a colour, each at most 255².
pub fn color_square(rgb: u32) -> (sq: (u32, u32, u32))
    ensures
        (sq.0 as int, sq.1 as int, sq.2 as int) == squares(rgb),
        sq.0 <= CHANNEL_SQUARE_MAX,
        sq.1 <= CHANNEL_SQUARE_MAX,
        sq.2 <= CHANNEL_SQUARE_MAX,
{
    let r: u32 = (rgb >> 16) & 0xff;
    let g: u32 = (rgb >> 8) & 0xff;
    let b: u32 = rgb & 0xff;
    proof {
        lemma_squares_bounded(rgb);
    }
    (r * r, g * g, b * b)
}

/// Sum of the absolute differences of the three components.
pub fn color_distance(a: (u32, u32, u32), b: (u32, u32, u32)) -> (d: u32)
    requires
        distance((a.0 as int, a.1 as int, a.2 as int), (b.0 as int, b.1 as int, b.2 as int))
            <= u32::MAX,
    ensures
        d == distance((a.0 as int, a.1 as int, a.2 as int), (b.0 as int, b.1 as int, b.2 as int)),
{
    let d0: u32 = if a.0 >= b.0 { a.0 - b.0 } else { b.0 - a.0 };
    let d1: u32 = if a.1 >= b.1 { a.1 - b.1 } else { b.1 - a.1 };
    let d2: u32 = if a.2 >= b.2 { a.2 - b.2 } else { b.2 - a.2 };
    d0 + d1 + d2
}

/// Whether `m` is the position of the first least element of `s`.
pub open spec fn is_first_minimum(s: Seq<int>, m: int) -> bool {
    &&& 0 <= m < s.len()
    &&& forall|j: int| 0 <= j < s.len() ==> s[m] <= #[trigger] s[j]
    &&& forall|j: int| 0 <= j < m ==> s[m] < #[trigger] s[j]
}

/// Position of the first least element of `s`; 0 for the empty sequence.
pub open spec fn first_minimum(s: Seq<int>) -> int
    decreases s.len(),
{
    if s.len() <= 1 {
        0
    } else {
        let k = first_minimum(s.drop_last());
        if s.last() < s[k] {
            s.len() - 1
        } else {
            k
        }
    }
}

/// In a sequence that is not empty, `first_minimum` is the position of the
/// first least element.
pub proof fn lemma_first_minimum(s: Seq<int>)
    requires
        s.len() > 0,
    ensures
        is_first_minimum(s, first_minimum(s)),
    decreases s.len(),
{
    if s.len() > 1 {
        let front = s.drop_last();
        lemma_first_minimum(front);
        let k = first_minimum(front);
        let m = first_minimum(s);
        assert forall|j: int| 0 <= j < s.len() implies s[m] <= #[trigger] s[j] by {
            if j < front.len() {
                assert(front[k] <= front[j]);
            }
        }
        assert forall|j: int| 0 <= j < m implies s[m] < #[trigger] s[j] by {
            if m == k {
                assert(front[k] < front[j]);
            } else {
                assert(front[k] <= front[j]);
            }
        }
    }
}

/// A sequence has at most one first least element.
pub proof fn lemma_first_minimum_unique(s: Seq<int>, a: int, b: int)
    requires
        is_first_minimum(s, a),
        is_first_minimum(s, b),
    ensures
        a == b,
{
    // The later of two different positions would hold a value below the
    // earlier one, which is least.
    if a < b {
        assert(s[b] < s[a]);
        assert(s[a] <= s[b]);
    } else if b < a {
        assert(s[a] < s[b]);
        assert(s[b] <= s[a]);
    }
}

/// The entries at distance `d`: the test that a stable sort keeps in order.
pub open spec fn at_distance(d: u32) -> spec_fn((u32, u32)) -> bool {
    |entry: (u32, u32)| entry.1 == d
}

/// The distances of a sequence of `(index, distance)` entries.
pub open spec fn distances_of(entries: Seq<(u32, u32)>) -> Seq<int> {
    entries.map_values(|entry: (u32, u32)| entry.1 as int)
}

/// Whether `output` is `input` sorted by distance with equal distances left in
/// their order: the lengths agree, the distances ascend, and for each distance
/// the entries at that distance are the same sequence in both.
pub open spec fn stably_sorted_by_distance(input: Seq<(u32, u32)>, output: Seq<(u32, u32)>) -> bool {
    &&& output.len() == input.len()
    &&& forall|i: int, j: int|
        0 <= i <= j < output.len() ==> (#[trigger] output[i]).1 <= (#[trigger] output[j]).1
    &&& forall|d: u32|
        #![trigger at_distance(d)]
        output.filter(at_distance(d)) == input.filter(at_distance(d))
}

/// Sorts `(index, distance)` entries by distance with
/// `itertools::Itertools::sorted_by_key`, which collects the items, sorts them
/// with the stable `slice::sort_by_key` and hands them back in that order. The
/// contract claims exactly that: a stable ascending sort on the second
/// component.
#[verifier::external_body]
fn sorted_by_distance(entries: Vec<(u32, u32)>) -> (sorted: Vec<(u32, u32)>)
    ensures
        stably_sorted_by_distance(entries@, sorted@),
{
    entries.into_iter().sorted_by_key(|entry| entry.1).collect()
}

/// A stable sort by distance puts the first entry of least distance in front.
pub proof fn lemma_stable_sort_front(input: Seq<(u32, u32)>, output: Seq<(u32, u32)>)
    requires
        stably_sorted_by_distance(input, output),
        input.len() > 0,
    ensures
        output[0] == input[first_minimum(distances_of(input))],
{
    let keys = distances_of(input);
    lemma_first_minimum(keys);
    let m = first_minimum(keys);
    let d = input[m].1;
    let e = output[0].1;
    // The least distance occurs in the output, so the output starts no higher.
    assert(e <= d) by {
        input.lemma_filter_contains(at_distance(d), m);
        output.lemma_filter_contains_rev(at_distance(d), input[m]);
        let j = choose|j: int| 0 <= j < output.len() && output[j] == input[m];
        assert(output[0].1 <= output[j].1);
    }
    // The output's first distance occurs in the input, so it is no lower.
    assert(d <= e) by {
        output.lemma_filter_contains(at_distance(e), 0);
        input.lemma_filter_contains_rev(at_distance(e), output[0]);
        let j = choose|j: int| 0 <= j < input.len() && input[j] == output[0];
        assert(keys[m] <= keys[j]);
    }
    assert forall|j: int| 0 <= j < m implies !at_distance(d)(#[trigger] input[j]) by {
        assert(keys[m] < keys[j]);
    }
    lemma_filter_first(input, at_distance(d), m);
    lemma_filter_first(output, at_distance(d), 0);
}

/// The distance from `rgb` to each palette entry, in palette order.
pub open spec fn palette_distances(rgb: u32) -> Seq<int> {
    Seq::new(PALETTE.len() as nat, |i: int| palette_distance(rgb, i))
}

/// Index of the palette entry nearest to `rgb`: the first at the least distance.
pub open spec fn nearest_index(rgb: u32) -> int {
    first_minimum(palette_distances(rgb))
}

/// RGB value of the palette entry that stands for `rgb`. Black stands for
/// itself without a search.
pub open spec fn nearest_color_spec(rgb: u32) -> u32 {
    if rgb == 0 {
        0
    } else {
        PALETTE[nearest_index(rgb)].0
    }
}

/// Velocity of the palette entry that stands for `rgb`. Black is velocity 0
/// without a search.
pub open spec fn nearest_velocity_spec(rgb: u32) -> u32 {
    if rgb == 0 {
        0
    } else {
        PALETTE[nearest_index(rgb)].1
    }
}

/// Every palette entry is a 24-bit colour with a velocity of at most 127.
pub proof fn lemma_palette_entries(i: int)
    requires
        0 <= i < PALETTE.len(),
    ensures
        PALETTE[i].0 <= 0xffffff,
        PALETTE[i].1 <= 127,
{
}

/// The nearest entry is an entry of the palette, no other entry is nearer, and
/// every earlier entry is farther.
pub proof fn lemma_nearest_index(rgb: u32)
    ensures
        is_first_minimum(palette_distances(rgb), nearest_index(rgb)),
        0 <= nearest_index(rgb) < PALETTE.len(),
{
    lemma_first_minimum(palette_distances(rgb));
}

/// Index of the palette entry nearest to `rgb`.
pub fn nearest_entry(rgb: u32) -> (index: usize)
    ensures
        index == nearest_index(rgb),
        index < PALETTE_LEN,
{
    let target = color_square(rgb);
    let mut entries: Vec<(u32, u32)> = Vec::new();
    let mut i: usize = 0;
    while i < PALETTE_LEN
        invariant
            i <= PALETTE_LEN,
            entries@.len() == i,
            (target.0 as int, target.1 as int, target.2 as int) == squares(rgb),
            forall|k: int|
                0 <= k < i ==> (#[trigger] entries@[k]).0 == k && entries@[k].1 == palette_distance(
                    rgb,
                    k,
                ),
        decreases PALETTE_LEN - i,
    {
        let fixed = color_square(PALETTE[i].0);
        proof {
            lemma_squares_bounded(rgb);
            lemma_squares_bounded(PALETTE[i as int].0);
        }
        let d = color_distance(target, fixed);
        entries.push((i as u32, d));
        i += 1;
    }
    let ghost unsorted = entries@;
    let sorted = sorted_by_distance(entries);
    proof {
        lemma_stable_sort_front(unsorted, sorted@);
        assert(distances_of(unsorted) =~= palette_distances(rgb));
        lemma_nearest_index(rgb);
    }
    if sorted.len() > 0 {
        sorted[0].0 as usize
    } else {
        0
    }
}

/// RGB value of the palette entry that stands for `rgb`.
pub fn nearest_color(rgb: u32) -> (nearest: u32)
    ensures
        nearest == nearest_color_spec(rgb),
        nearest <= 0xffffff,
{
    if rgb == 0 {
        return 0;
    }
    let index = nearest_entry(rgb);
    proof {
        lemma_palette_entries(index as int);
    }
    PALETTE[index].0
}

/// Velocity that makes the controller show the palette entry nearest to `rgb`.
pub fn nearest_velocity(rgb: u32) -> (velocity: u32)
    ensures
        velocity == nearest_velocity_spec(rgb),
        velocity <= 127,
{
    if rgb == 0 {
        return 0;
    }
    let index = nearest_entry(rgb);
    proof {
        lemma_palette_entries(index as int);
    }
    PALETTE[index].1
}

/// Whether `j` is the first palette entry whose RGB value is `rgb`.
pub open spec fn is_first_occurrence(rgb: u32, j: int) -> bool {
    &&& 0 <= j < PALETTE.len()
    &&& PALETTE[j].0 == rgb
    &&& forall|k: int| 0 <= k < j ==> (#[trigger] PALETTE[k]).0 != rgb
}

/// Numbers that are not negative and have the same square are the same.
proof fn lemma_equal_squares(a: int, b: int)
    by (nonlinear_arith)
    requires
        0 <= a,
        0 <= b,
        a * a == b * b,
    ensures
        a == b,
{
}

/// Two colours are at distance 0 exactly when their three channels agree.
pub proof fn lemma_distance_zero(a: u32, b: u32)
    ensures
        distance(squares(a), squares(b)) >= 0,
        distance(squares(a), squares(b)) == 0 <==> a & 0xffffff == b & 0xffffff,
{
    if distance(squares(a), squares(b)) == 0 {
        lemma_equal_squares(red(a) as int, red(b) as int);
        lemma_equal_squares(green(a) as int, green(b) as int);
        lemma_equal_squares(blue(a) as int, blue(b) as int);
        assert(a & 0xffffff == b & 0xffffff) by (bit_vector)
            requires
                (a >> 16) & 0xff == (b >> 16) & 0xff,
                (a >> 8) & 0xff == (b >> 8) & 0xff,
                a & 0xff == b & 0xff,
        ;
    }
    if a & 0xffffff == b & 0xffffff {
        assert((a >> 16) & 0xff == (b >> 16) & 0xff && (a >> 8) & 0xff == (b >> 8) & 0xff && a
            & 0xff == b & 0xff) by (bit_vector)
            requires
                a & 0xffffff == b & 0xffffff,
        ;
    }
}

/// The velocity found for any colour is a MIDI data byte, and black is
/// velocity 0.
pub proof fn lemma_nearest_velocity_range(rgb: u32)
    ensures
        nearest_velocity_spec(rgb) <= 127,
        nearest_velocity_spec(0) == 0,
{
    lemma_nearest_index(rgb);
    lemma_palette_entries(nearest_index(rgb));
}

/// A colour of the palette stands for itself: the search for the RGB value of
/// an entry ends at the first entry with that value, and so gives that entry's
/// velocity. Where an RGB value is declared twice, the earlier entry wins.
pub proof fn lemma_palette_color_is_its_own_nearest(rgb: u32, j: int)
    requires
        is_first_occurrence(rgb, j),
    ensures
        nearest_color_spec(rgb) == rgb,
        nearest_velocity_spec(rgb) == PALETTE[j].1,
        rgb != 0 ==> nearest_index(rgb) == j,
{
    if rgb != 0 {
        let dists = palette_distances(rgb);
        lemma_palette_entries(j);
        assert(rgb & 0xffffff == rgb) by (bit_vector)
            requires
                rgb <= 0xffffff,
        ;
        assert forall|k: int| 0 <= k < dists.len() implies dists[j] <= #[trigger] dists[k] by {
            lemma_distance_zero(rgb, rgb);
            lemma_distance_zero(rgb, PALETTE[k].0);
        }
        assert forall|k: int| 0 <= k < j implies dists[j] < #[trigger] dists[k] by {
            lemma_distance_zero(rgb, rgb);
            lemma_distance_zero(rgb, PALETTE[k].0);
            lemma_palette_entries(k);
            let other = PALETTE[k].0;
            assert(other & 0xffffff == other) by (bit_vector)
                requires
                    other <= 0xffffff,
            ;
        }
        lemma_nearest_index(rgb);
        lemma_first_minimum_unique(dists, j, nearest_index(rgb));
    }
}

/// The first palette entry with the RGB value of the entry at `i`. Seven
/// entries repeat the RGB value of an earlier one; every other entry is the
/// first with its value.
pub open spec fn first_declared(i: int) -> int {
    if i == 63 {
        62
    } else if i == 68 {
        45
    } else if i == 71 {
        2
    } else if i == 73 {
        5
    } else if i == 79 {
        37
    } else if i == 88 {
        21
    } else if i == 125 {
        98
    } else {
        i
    }
}

/// `first_declared` names, for every palette entry, the first entry with the
/// same RGB value.
pub proof fn lemma_first_declared(i: int)
    requires
        0 <= i < PALETTE.len(),
    ensures
        is_first_occurrence(PALETTE[i].0, first_declared(i)),
{
}

/// The search for the RGB value of a palette entry gives the velocity of the
/// first entry declared with that value: the entry's own velocity, but for the
/// seven entries that repeat an earlier one.
pub proof fn lemma_palette_entry_velocity(i: int)
    requires
        0 <= i < PALETTE.len(),
    ensures
        nearest_velocity_spec(PALETTE[i].0) == PALETTE[first_declared(i)].1,
        nearest_color_spec(PALETTE[i].0) == PALETTE[i].0,
{
    lemma_first_declared(i);
    lemma_palette_color_is_its_own_nearest(PALETTE[i].0, first_declared(i));
}

} // verus!
