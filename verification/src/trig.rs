use vstd::prelude::*;

verus! {

/// Scale of the sine table: a table entry of `TRIG_SCALE` stands for 1.
pub const TRIG_SCALE: i64 = 1_000_000;

/// Sines of the whole degrees from 0 to 90, in millionths, rounded to nearest.
pub const SINE_PPM: [u32; 91] = [
    0, 17452, 34899, 52336, 69756, 87156, 104528,
    121869, 139173, 156434, 173648, 190809, 207912, 224951,
    241922, 258819, 275637, 292372, 309017, 325568, 342020,
    358368, 374607, 390731, 406737, 422618, 438371, 453990,
    469472, 484810, 500000, 515038, 529919, 544639, 559193,
    573576, 587785, 601815, 615661, 629320, 642788, 656059,
    669131, 681998, 694658, 707107, 719340, 731354, 743145,
    754710, 766044, 777146, 788011, 798636, 809017, 819152,
    829038, 838671, 848048, 857167, 866025, 874620, 882948,
    891007, 898794, 906308, 913545, 920505, 927184, 933580,
    939693, 945519, 951057, 956305, 961262, 965926, 970296,
    974370, 978148, 981627, 984808, 987688, 990268, 992546,
    994522, 996195, 997564, 998630, 999391, 999848, 1000000,
];

/// Sine of `deg` degrees in millionths, for an angle in the first quadrant.
pub open spec fn sin_ppm(deg: int) -> int
    recommends
        0 <= deg <= 90,
{
    SINE_PPM@[deg] as int
}

/// Cosine of `deg` degrees in millionths, for an angle in the first quadrant.
pub open spec fn cos_ppm(deg: int) -> int
    recommends
        0 <= deg <= 90,
{
    sin_ppm(90 - deg)
}

/// Horizontal part, in millionths, of the unit vector that points `deg`
/// degrees counter-clockwise from the positive x axis, for an angle in the
/// third quadrant. It is never positive.
pub open spec fn unit_x_ppm(deg: int) -> int
    recommends
        180 <= deg <= 270,
{
    -cos_ppm(deg - 180)
}

/// Vertical part of the same unit vector. It is never positive.
pub open spec fn unit_y_ppm(deg: int) -> int
    recommends
        180 <= deg <= 270,
{
    -sin_ppm(deg - 180)
}

/// Sine of `deg` degrees in millionths.
pub fn sine(deg: u32) -> (r: i64)
    requires
        deg <= 90,
    ensures
        r == sin_ppm(deg as int),
        0 <= r <= TRIG_SCALE,
{
    let table: [u32; 91] = SINE_PPM;
    proof {
        lemma_sine_bounds();
    }
    table[deg as usize] as i64
}

/// Cosine of `deg` degrees in millionths.
pub fn cosine(deg: u32) -> (r: i64)
    requires
        deg <= 90,
    ensures
        r == cos_ppm(deg as int),
        0 <= r <= TRIG_SCALE,
{
    sine(90 - deg)
}

/// The unit vector of a third-quadrant angle, both parts in millionths.
pub fn unit_vector(deg: u32) -> (r: (i64, i64))
    requires
        180 <= deg <= 270,
    ensures
        r.0 == unit_x_ppm(deg as int),
        r.1 == unit_y_ppm(deg as int),
        -TRIG_SCALE <= r.0 <= 0,
        -TRIG_SCALE <= r.1 <= 0,
{
    let c: i64 = cosine(deg - 180);
    let s: i64 = sine(deg - 180);
    (-c, -s)
}

/// Every entry of the table lies between 0 and the scale, and the table
/// starts at 0 and ends at the scale.
pub proof fn lemma_sine_bounds()
    ensures
        sin_ppm(0) == 0,
        sin_ppm(30) == TRIG_SCALE / 2,
        sin_ppm(90) == TRIG_SCALE,
        forall|d: int| 0 <= d <= 90 ==> 0 <= #[trigger] sin_ppm(d) <= TRIG_SCALE,
{
}

/// The table rises strictly from each degree to the next.
pub proof fn lemma_sine_increasing()
    ensures
        forall|d: int| 0 <= d < 90 ==> #[trigger] sin_ppm(d) < sin_ppm(d + 1),
{
}

/// Whether `s` and `c`, taken as a sine and a cosine in millionths, lie on
/// the unit circle up to rounding: the sum of their squares differs from the
/// square of the scale by less than two millionths of it.
pub open spec fn near_unit_circle(s: int, c: int) -> bool {
    -2 * TRIG_SCALE < s * s + c * c - TRIG_SCALE * TRIG_SCALE < 2 * TRIG_SCALE
}

proof fn lemma_circle_at(deg: int, s: int, c: int)
    requires
        0 <= deg <= 90,
        sin_ppm(deg) == s,
        cos_ppm(deg) == c,
        near_unit_circle(s, c),
    ensures
        near_unit_circle(sin_ppm(deg), cos_ppm(deg)),
{
}

/// The table's sine and cosine of every angle lie on the unit circle up to
/// rounding.
pub proof fn lemma_unit_circle()
    ensures
        forall|d: int| 0 <= d <= 90 ==> near_unit_circle(#[trigger] sin_ppm(d), cos_ppm(d)),
{
    lemma_circle_at(0, 0, 1000000);
    lemma_circle_at(1, 17452, 999848);
    lemma_circle_at(2, 34899, 999391);
    lemma_circle_at(3, 52336, 998630);
    lemma_circle_at(4, 69756, 997564);
    lemma_circle_at(5, 87156, 996195);
    lemma_circle_at(6, 104528, 994522);
    lemma_circle_at(7, 121869, 992546);
    lemma_circle_at(8, 139173, 990268);
    lemma_circle_at(9, 156434, 987688);
    lemma_circle_at(10, 173648, 984808);
    lemma_circle_at(11, 190809, 981627);
    lemma_circle_at(12, 207912, 978148);
    lemma_circle_at(13, 224951, 974370);
    lemma_circle_at(14, 241922, 970296);
    lemma_circle_at(15, 258819, 965926);
    lemma_circle_at(16, 275637, 961262);
    lemma_circle_at(17, 292372, 956305);
    lemma_circle_at(18, 309017, 951057);
    lemma_circle_at(19, 325568, 945519);
    lemma_circle_at(20, 342020, 939693);
    lemma_circle_at(21, 358368, 933580);
    lemma_circle_at(22, 374607, 927184);
    lemma_circle_at(23, 390731, 920505);
    lemma_circle_at(24, 406737, 913545);
    lemma_circle_at(25, 422618, 906308);
    lemma_circle_at(26, 438371, 898794);
    lemma_circle_at(27, 453990, 891007);
    lemma_circle_at(28, 469472, 882948);
    lemma_circle_at(29, 484810, 874620);
    lemma_circle_at(30, 500000, 866025);
    lemma_circle_at(31, 515038, 857167);
    lemma_circle_at(32, 529919, 848048);
    lemma_circle_at(33, 544639, 838671);
    lemma_circle_at(34, 559193, 829038);
    lemma_circle_at(35, 573576, 819152);
    lemma_circle_at(36, 587785, 809017);
    lemma_circle_at(37, 601815, 798636);
    lemma_circle_at(38, 615661, 788011);
    lemma_circle_at(39, 629320, 777146);
    lemma_circle_at(40, 642788, 766044);
    lemma_circle_at(41, 656059, 754710);
    lemma_circle_at(42, 669131, 743145);
    lemma_circle_at(43, 681998, 731354);
    lemma_circle_at(44, 694658, 719340);
    lemma_circle_at(45, 707107, 707107);
    lemma_circle_at(46, 719340, 694658);
    lemma_circle_at(47, 731354, 681998);
    lemma_circle_at(48, 743145, 669131);
    lemma_circle_at(49, 754710, 656059);
    lemma_circle_at(50, 766044, 642788);
    lemma_circle_at(51, 777146, 629320);
    lemma_circle_at(52, 788011, 615661);
    lemma_circle_at(53, 798636, 601815);
    lemma_circle_at(54, 809017, 587785);
    lemma_circle_at(55, 819152, 573576);
    lemma_circle_at(56, 829038, 559193);
    lemma_circle_at(57, 838671, 544639);
    lemma_circle_at(58, 848048, 529919);
    lemma_circle_at(59, 857167, 515038);
    lemma_circle_at(60, 866025, 500000);
    lemma_circle_at(61, 874620, 484810);
    lemma_circle_at(62, 882948, 469472);
    lemma_circle_at(63, 891007, 453990);
    lemma_circle_at(64, 898794, 438371);
    lemma_circle_at(65, 906308, 422618);
    lemma_circle_at(66, 913545, 406737);
    lemma_circle_at(67, 920505, 390731);
    lemma_circle_at(68, 927184, 374607);
    lemma_circle_at(69, 933580, 358368);
    lemma_circle_at(70, 939693, 342020);
    lemma_circle_at(71, 945519, 325568);
    lemma_circle_at(72, 951057, 309017);
    lemma_circle_at(73, 956305, 292372);
    lemma_circle_at(74, 961262, 275637);
    lemma_circle_at(75, 965926, 258819);
    lemma_circle_at(76, 970296, 241922);
    lemma_circle_at(77, 974370, 224951);
    lemma_circle_at(78, 978148, 207912);
    lemma_circle_at(79, 981627, 190809);
    lemma_circle_at(80, 984808, 173648);
    lemma_circle_at(81, 987688, 156434);
    lemma_circle_at(82, 990268, 139173);
    lemma_circle_at(83, 992546, 121869);
    lemma_circle_at(84, 994522, 104528);
    lemma_circle_at(85, 996195, 87156);
    lemma_circle_at(86, 997564, 69756);
    lemma_circle_at(87, 998630, 52336);
    lemma_circle_at(88, 999391, 34899);
    lemma_circle_at(89, 999848, 17452);
    lemma_circle_at(90, 1000000, 0);
}

} // verus!
