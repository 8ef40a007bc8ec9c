//! The CPU temperature: which counter it is read from, which readings count, and
//! which of the thermal zones stands for the CPU.

use crate::double::{exponent_of, rounded_to_u32, significand_of, Double};
use vstd::arithmetic::power2::{lemma2_to64, lemma2_to64_rest, pow2};
use vstd::prelude::*;
use vstd::string::*;

verus! {

/// The counter of all thermal zones in tenths of a Kelvin.
pub const HIGH_PRECISION_PATH: &'static str =
    "\\Thermal Zone Information(*)\\High Precision Temperature";

/// The counter of all thermal zones in whole Kelvin.
pub const WHOLE_KELVIN_PATH: &'static str = "\\Thermal Zone Information(*)\\Temperature";

/// The status with which the size of the buffer is answered.
pub const PDH_MORE_DATA: u32 = 0x8000_07d2;

/// 5 degrees Celsius. A zone that no sensor is wired to reports 0 Kelvin.
pub const MIN_PLAUSIBLE_BITS: u64 = 0x4014_0000_0000_0000;

/// 125 degrees Celsius.
pub const MAX_PLAUSIBLE_BITS: u64 = 0x405f_4000_0000_0000;

// ---------------------------------------------------------------------------
// Counters
// ---------------------------------------------------------------------------

/// The unit that a counter reports in.
#[derive(Clone, Copy, PartialEq, Eq, Structural, Debug)]
pub enum Scale {
    /// Tenths of a Kelvin.
    DeciKelvin,
    /// Whole Kelvin.
    Kelvin,
}

impl Scale {
    /// The path of the counter.
    pub fn counter_path(self) -> (path: &'static str)
        ensures
            path@ == match self {
                Scale::DeciKelvin => HIGH_PRECISION_PATH@,
                Scale::Kelvin => WHOLE_KELVIN_PATH@,
            },
    {
        match self {
            Scale::DeciKelvin => HIGH_PRECISION_PATH,
            Scale::Kelvin => WHOLE_KELVIN_PATH,
        }
    }

    /// The counter to try when `failed` could not be added, or the first one to
    /// try: the finer one is preferred.
    pub fn next(failed: Option<Scale>) -> (r: Option<Scale>)
        ensures
            r == match failed {
                None => Some(Scale::DeciKelvin),
                Some(Scale::DeciKelvin) => Some(Scale::Kelvin),
                Some(Scale::Kelvin) => None,
            },
    {
        match failed {
            None => Some(Scale::DeciKelvin),
            Some(Scale::DeciKelvin) => Some(Scale::Kelvin),
            Some(Scale::Kelvin) => None,
        }
    }
}

// ---------------------------------------------------------------------------
// Samples
// ---------------------------------------------------------------------------

/// How many items of `item_size` bytes hold `buffer_size` bytes; at least one.
pub open spec fn capacity(buffer_size: int, item_size: int) -> int {
    let items = (buffer_size + item_size - 1) / item_size;
    if items >= 1 {
        items
    } else {
        1
    }
}

/// How many items to allocate for the answer of the size query, where the query
/// answered with a size.
pub fn buffer_capacity(status: u32, buffer_size: u32, item_size: usize) -> (r: Option<usize>)
    requires
        item_size > 0,
    ensures
        r is Some <==> status == PDH_MORE_DATA && buffer_size != 0,
        r matches Some(n) ==> n == capacity(buffer_size as int, item_size as int),
{
    if status != PDH_MORE_DATA || buffer_size == 0 {
        return None;
    }
    let size: usize = buffer_size as usize;
    let whole: usize = size / item_size;
    let rest: usize = size % item_size;
    proof {
        let (s, d) = (size as int, item_size as int);
        vstd::arithmetic::div_mod::lemma_fundamental_div_mod(s, d);
        assert(whole <= size) by (nonlinear_arith)
            requires
                size == item_size * whole + rest,
                item_size > 0,
                rest >= 0,
        ;
        if rest == 0 {
            assert(s + d - 1 == d * whole + (d - 1));
            vstd::arithmetic::div_mod::lemma_fundamental_div_mod_converse(
                s + d - 1,
                d,
                whole as int,
                d - 1,
            );
        } else {
            assert(whole < size) by (nonlinear_arith)
                requires
                    size == item_size * whole + rest,
                    item_size > 0,
                    rest > 0,
            ;
            assert(s + d - 1 == d * (whole + 1) + (rest - 1)) by (nonlinear_arith)
                requires
                    s == d * whole + rest,
            ;
            vstd::arithmetic::div_mod::lemma_fundamental_div_mod_converse(
                s + d - 1,
                d,
                whole + 1,
                rest - 1,
            );
        }
    }
    let items: usize = if rest == 0 {
        whole
    } else {
        whole + 1
    };
    if items >= 1 {
        Some(items)
    } else {
        Some(1)
    }
}

/// The allocated items hold all of the bytes that were asked for.
pub proof fn the_buffer_is_big_enough(buffer_size: u32, item_size: int)
    requires
        item_size > 0,
    ensures
        capacity(buffer_size as int, item_size) * item_size >= buffer_size,
        capacity(buffer_size as int, item_size) >= 1,
{
    let s = buffer_size as int;
    let q = (s + item_size - 1) / item_size;
    vstd::arithmetic::div_mod::lemma_fundamental_div_mod(s + item_size - 1, item_size);
    assert(q * item_size == item_size * q) by (nonlinear_arith);
    if q < 1 {
        assert(item_size * q <= 0) by (nonlinear_arith)
            requires
                q < 1,
                item_size > 0,
        ;
    }
}

/// One item of a sample: a thermal zone, the status of its value, and the value in
/// degrees Celsius.
pub struct ZoneItem {
    pub status: u32,
    pub name: String,
    pub celsius: Double,
}

/// The zones of a sample that have a valid value, in order.
pub open spec fn valid_zones(items: Seq<ZoneItem>) -> Seq<(Seq<char>, Double)>
    decreases items.len(),
{
    if items.len() == 0 {
        Seq::empty()
    } else {
        let before = valid_zones(items.drop_last());
        if items.last().status == 0 {
            before.push((items.last().name@, items.last().celsius))
        } else {
            before
        }
    }
}

/// Names and temperatures of zones.
pub open spec fn zones_view(zones: Seq<(String, Double)>) -> Seq<(Seq<char>, Double)> {
    zones.map_values(|z: (String, Double)| (z.0@, z.1))
}

/// The zones of a sample, where taking it succeeded. One whose value is not valid
/// this time is left out.
pub fn sample_zones(status: u32, items: &Vec<ZoneItem>) -> (r: Option<Vec<(String, Double)>>)
    ensures
        match r {
            Some(zones) => status == 0 && zones_view(zones@) == valid_zones(items@),
            None => status != 0,
        },
{
    if status != 0 {
        return None;
    }
    let mut zones: Vec<(String, Double)> = Vec::new();
    let n: usize = items.len();
    proof {
        assert(zones_view(zones@) =~= valid_zones(items@.take(0)));
    }
    for i in 0..n
        invariant
            n == items@.len(),
            zones_view(zones@) == valid_zones(items@.take(i as int)),
    {
        proof {
            assert(items@.take(i + 1).drop_last() =~= items@.take(i as int));
            assert(items@.take(i + 1).last() == items@[i as int]);
        }
        let item = &items[i];
        if item.status == 0 {
            let ghost before = zones@;
            zones.push((String::from_str(item.name.as_str()), item.celsius));
            proof {
                assert(zones_view(zones@) =~= zones_view(before).push((item.name@, item.celsius)));
            }
        }
    }
    proof {
        assert(items@.take(n as int) =~= items@);
    }
    Some(zones)
}

// ---------------------------------------------------------------------------
// Choosing a zone
// ---------------------------------------------------------------------------

/// Whether a temperature is one that a machine can have.
pub open spec fn plausible(celsius: Double) -> bool {
    MIN_PLAUSIBLE_BITS <= celsius.bits <= MAX_PLAUSIBLE_BITS
}

fn is_plausible(celsius: Double) -> (b: bool)
    ensures
        b == plausible(celsius),
{
    celsius.is_between(Double { bits: MIN_PLAUSIBLE_BITS }, Double { bits: MAX_PLAUSIBLE_BITS })
}

/// Whether `cpu` stands at place `i` of a name, in any mixture of cases.
pub open spec fn names_cpu_at(name: Seq<char>, i: int) -> bool {
    &&& 0 <= i && i + 2 < name.len()
    &&& name[i] == 'C' || name[i] == 'c'
    &&& name[i + 1] == 'P' || name[i + 1] == 'p'
    &&& name[i + 2] == 'U' || name[i + 2] == 'u'
}

/// Whether a zone names itself as the CPU's.
pub open spec fn names_cpu(name: Seq<char>) -> bool {
    exists|i: int| #[trigger] names_cpu_at(name, i)
}

/// Whether a zone names itself as the CPU's.
pub fn is_cpu_name(name: &str) -> (b: bool)
    ensures
        b == names_cpu(name@),
{
    let chars = crate::text::chars_of(name);
    let n: usize = chars.len();
    let mut i: usize = 0;
    while n - i > 2
        invariant
            i <= n,
            n == chars@.len(),
            chars@ == name@,
            forall|j: int| 0 <= j < i ==> !#[trigger] names_cpu_at(name@, j),
        decreases n - i,
    {
        if (chars[i] == 'C' || chars[i] == 'c') && (chars[i + 1] == 'P' || chars[i + 1] == 'p') && (
        chars[i + 2] == 'U' || chars[i + 2] == 'u') {
            assert(names_cpu_at(name@, i as int));
            return true;
        }
        i = i + 1;
    }
    false
}

/// Whether a zone has a plausible reading.
pub open spec fn usable(zones: Seq<(String, Double)>, i: int) -> bool {
    0 <= i < zones.len() && plausible(zones[i].1)
}

/// Whether a zone has a plausible reading and names itself as the CPU's.
pub open spec fn usable_cpu(zones: Seq<(String, Double)>, i: int) -> bool {
    usable(zones, i) && names_cpu(zones[i].0@)
}

/// Whether `i` is the first zone with a plausible reading that names itself as the
/// CPU's.
pub open spec fn first_cpu(zones: Seq<(String, Double)>, i: int) -> bool {
    usable_cpu(zones, i) && forall|j: int| 0 <= j < i ==> !#[trigger] usable_cpu(zones, j)
}

/// Whether `i` is a zone with a plausible reading that none is hotter than.
pub open spec fn hottest(zones: Seq<(String, Double)>, i: int) -> bool {
    usable(zones, i) && forall|j: int| #[trigger]
        usable(zones, j) ==> zones[j].1.bits <= zones[i].1.bits
}

/// Whether `r` is the temperature to show for some zones: that of the first
/// plausible one that names itself as the CPU's; without one, that of the hottest
/// plausible one; and none where no reading is plausible.
pub open spec fn is_pick(zones: Seq<(String, Double)>, r: Option<Double>) -> bool {
    match r {
        None => forall|i: int| !#[trigger] usable(zones, i),
        Some(c) => {
            ||| exists|i: int| #[trigger] first_cpu(zones, i) && zones[i].1 == c
            ||| (forall|i: int| !#[trigger] usable_cpu(zones, i)) && exists|i: int| #[trigger]
                hottest(zones, i) && zones[i].1 == c
        },
    }
}

/// The temperature to show for some zones.
pub fn pick_cpu_zone(zones: &Vec<(String, Double)>) -> (r: Option<Double>)
    ensures
        is_pick(zones@, r),
{
    let n: usize = zones.len();
    let mut best: Option<usize> = None;
    for i in 0..n
        invariant
            n == zones@.len(),
            forall|j: int| 0 <= j < i ==> !#[trigger] usable_cpu(zones@, j),
            match best {
                None => forall|j: int| 0 <= j < i ==> !#[trigger] usable(zones@, j),
                Some(b) => b < i && usable(zones@, b as int) && forall|j: int|
                    0 <= j < i && #[trigger] usable(zones@, j) ==> zones@[j].1.bits
                        <= zones@[b as int].1.bits,
            },
    {
        let (name, celsius) = &zones[i];
        if is_plausible(*celsius) {
            assert(usable(zones@, i as int));
            if is_cpu_name(name.as_str()) {
                assert(first_cpu(zones@, i as int));
                return Some(*celsius);
            }
            let hotter = match best {
                Some(b) => zones[b].1.bits <= celsius.bits,
                None => true,
            };
            if hotter {
                best = Some(i);
            }
        }
    }
    match best {
        Some(b) => {
            assert(hottest(zones@, b as int));
            Some(zones[b].1)
        },
        None => None,
    }
}

/// There is only one temperature to show.
pub proof fn the_pick_is_unique(zones: Seq<(String, Double)>, a: Option<Double>, b: Option<Double>)
    requires
        is_pick(zones, a),
        is_pick(zones, b),
    ensures
        a == b,
{
    if a is Some && b is None {
        the_pick_is_plausible(zones, a->0);
    }
    if b is Some && a is None {
        the_pick_is_plausible(zones, b->0);
    }
    if a is Some && b is Some {
        if exists|i: int| #[trigger] first_cpu(zones, i) && zones[i].1 == a->0 {
            let i = choose|i: int| #[trigger] first_cpu(zones, i) && zones[i].1 == a->0;
            assert(usable_cpu(zones, i));
            let j = choose|j: int| #[trigger] first_cpu(zones, j) && zones[j].1 == b->0;
            assert(usable_cpu(zones, j));
            assert(!(i < j) && !(j < i));
        } else {
            let i = choose|i: int| #[trigger] hottest(zones, i) && zones[i].1 == a->0;
            assert(!exists|j: int| #[trigger] first_cpu(zones, j)) by {
                if exists|j: int| #[trigger] first_cpu(zones, j) {
                    let j = choose|j: int| #[trigger] first_cpu(zones, j);
                    assert(usable_cpu(zones, j));
                }
            }
            let j = choose|j: int| #[trigger] hottest(zones, j) && zones[j].1 == b->0;
            assert(usable(zones, i) && usable(zones, j));
        }
    }
}

/// What is shown is a plausible reading of one of the zones; broken ones, also a
/// broken one of the CPU, are never shown.
pub proof fn the_pick_is_plausible(zones: Seq<(String, Double)>, celsius: Double)
    requires
        is_pick(zones, Some(celsius)),
    ensures
        plausible(celsius),
        exists|i: int| #[trigger] usable(zones, i) && zones[i].1 == celsius,
{
    if exists|i: int| #[trigger] first_cpu(zones, i) && zones[i].1 == celsius {
        let i = choose|i: int| #[trigger] first_cpu(zones, i) && zones[i].1 == celsius;
        assert(usable_cpu(zones, i));
        assert(usable(zones, i));
    } else {
        let i = choose|i: int| #[trigger] hottest(zones, i) && zones[i].1 == celsius;
        assert(usable(zones, i));
    }
}

/// A reading that is labelled as the CPU's is not displaced by a hotter zone, and
/// where no zone is so labelled, what is shown is never too low.
pub proof fn the_pick_never_misleads(zones: Seq<(String, Double)>, celsius: Double, i: int)
    requires
        is_pick(zones, Some(celsius)),
        usable(zones, i),
    ensures
        zones[i].1.bits <= celsius.bits || exists|j: int| #[trigger]
            usable_cpu(zones, j) && zones[j].1 == celsius,
{
    if exists|j: int| #[trigger] first_cpu(zones, j) && zones[j].1 == celsius {
        let j = choose|j: int| #[trigger] first_cpu(zones, j) && zones[j].1 == celsius;
        assert(usable_cpu(zones, j));
    } else {
        let j = choose|j: int| #[trigger] hottest(zones, j) && zones[j].1 == celsius;
        assert(usable(zones, j));
    }
}

/// A temperature in whole degrees.
pub open spec fn whole_degrees(celsius: Option<Double>) -> Option<u32> {
    match celsius {
        Some(c) => Some(rounded_to_u32(c.bits)),
        None => None,
    }
}

/// Whether `r` is the temperature to show for some zones, in whole degrees.
pub open spec fn is_whole_pick(zones: Seq<(String, Double)>, r: Option<u32>) -> bool {
    exists|pick: Option<Double>| #[trigger] is_pick(zones, pick) && r == whole_degrees(pick)
}

/// Whether `r` is what one collection of the counters comes to in whole degrees: the
/// temperature of the zone to show, where the collection succeeded and gave zones.
pub open spec fn is_reading(
    status: u32,
    zones: Option<Seq<(String, Double)>>,
    r: Option<u32>,
) -> bool {
    match zones {
        Some(zones) => if status == 0 {
            is_whole_pick(zones, r)
        } else {
            r is None
        },
        None => r is None,
    }
}

/// The temperature that one collection of the counters comes to, in whole degrees.
pub fn read_celsius(status: u32, zones: Option<Vec<(String, Double)>>) -> (r: Option<u32>)
    ensures
        is_reading(
            status,
            match zones {
                Some(zones) => Some(zones@),
                None => None,
            },
            r,
        ),
{
    if status != 0 {
        return None;
    }
    match zones {
        Some(zones) => {
            let pick = pick_cpu_zone(&zones);
            let degrees: Option<u32> = match pick {
                Some(c) => Some(c.round_to_u32()),
                None => None,
            };
            assert(is_pick(zones@, pick));
            assert(is_whole_pick(zones@, degrees));
            degrees
        },
        None => None,
    }
}

/// A reading lies within the plausible range, and there is none where no zone has a
/// plausible one.
pub proof fn readings_are_plausible(
    status: u32,
    zones: Option<Seq<(String, Double)>>,
    r: Option<u32>,
)
    requires
        is_reading(status, zones, r),
    ensures
        r matches Some(degrees) ==> 5 <= degrees <= 125,
        r is Some <==> status == 0 && zones is Some && exists|i: int| #[trigger]
            usable(zones->0, i),
{
    if status == 0 && zones is Some {
        let pick = choose|pick: Option<Double>| #[trigger]
            is_pick(zones->0, pick) && r == whole_degrees(pick);
        if let Some(c) = pick {
            the_pick_is_plausible(zones->0, c);
            crate::double::rounding_is_monotone(MIN_PLAUSIBLE_BITS, c.bits);
            crate::double::rounding_is_monotone(c.bits, MAX_PLAUSIBLE_BITS);
            range_ends();
        }
    }
}

/// The ends of the plausible range are whole degrees.
proof fn range_ends()
    ensures
        rounded_to_u32(MIN_PLAUSIBLE_BITS) == 5,
        rounded_to_u32(MAX_PLAUSIBLE_BITS) == 125,
{
    lemma2_to64();
    lemma2_to64_rest();
    assert(exponent_of(MIN_PLAUSIBLE_BITS) == 1025);
    assert(exponent_of(MAX_PLAUSIBLE_BITS) == 1029);
    assert(significand_of(MIN_PLAUSIBLE_BITS) == 5 * 0x4_0000_0000_0000);
    assert(significand_of(MAX_PLAUSIBLE_BITS) == 125 * 0x4000_0000_0000);
    let (low, high) = (pow2(50) as int, pow2(46) as int);
    vstd::arithmetic::div_mod::lemma_fundamental_div_mod_converse(
        2 * significand_of(MIN_PLAUSIBLE_BITS) + low,
        2 * low,
        5,
        low,
    );
    vstd::arithmetic::div_mod::lemma_fundamental_div_mod_converse(
        2 * significand_of(MAX_PLAUSIBLE_BITS) + high,
        2 * high,
        125,
        high,
    );
}

// ---------------------------------------------------------------------------
// The worker
// ---------------------------------------------------------------------------

/// The thread that samples the temperature.
pub struct CpuTempWorker {
    /// What was logged last.
    pub last_logged: Option<u32>,
}

impl CpuTempWorker {
    pub fn new() -> (w: CpuTempWorker)
        ensures
            w.last_logged is None,
    {
        CpuTempWorker { last_logged: None }
    }

    /// Takes in a sample. Says whether it is to be logged: only where it has changed.
    pub fn after_sample(&mut self, celsius: Option<u32>) -> (changed: bool)
        ensures
            changed == (celsius != old(self).last_logged),
            final(self).last_logged == celsius,
    {
        let changed = match (celsius, self.last_logged) {
            (Some(a), Some(b)) => a != b,
            (None, None) => false,
            _ => true,
        };
        self.last_logged = celsius;
        changed
    }
}

// ---------------------------------------------------------------------------
// What a reading promises
// ---------------------------------------------------------------------------

/// No more items are allocated than the bytes need: one less would not hold them, or there
/// is only one.
pub proof fn the_buffer_is_no_bigger_than_needed(buffer_size: u32, item_size: int)
    requires
        item_size > 0,
    ensures
        ({
            let n = capacity(buffer_size as int, item_size);
            n == 1 || (n - 1) * item_size < buffer_size
        }),
{
    let s = buffer_size as int;
    let q = (s + item_size - 1) / item_size;
    vstd::arithmetic::div_mod::lemma_fundamental_div_mod(s + item_size - 1, item_size);
    assert((q - 1) * item_size == item_size * q - item_size) by (nonlinear_arith);
}

/// A sample has its zones with a valid value, and those alone, in order: one more item adds
/// its zone at the end, by its name and temperature, where its value is valid.
pub proof fn samples_keep_the_valid_zones(items: Seq<ZoneItem>, item: ZoneItem)
    ensures
        valid_zones(Seq::<ZoneItem>::empty()) == Seq::<(Seq<char>, Double)>::empty(),
        item.status == 0 ==> valid_zones(items.push(item)) == valid_zones(items).push(
            (item.name@, item.celsius),
        ),
        item.status != 0 ==> valid_zones(items.push(item)) == valid_zones(items),
{
    assert(items.push(item).drop_last() =~= items);
}

/// Zones are seen by their names and temperatures, each in its place.
pub proof fn zones_are_seen_in_place(zones: Seq<(String, Double)>, i: int)
    requires
        0 <= i < zones.len(),
    ensures
        zones_view(zones).len() == zones.len(),
        zones_view(zones)[i].0 == zones[i].0@,
        zones_view(zones)[i].1 == zones[i].1,
{
}

/// A zone is the CPU's where its name has these three letters in a row, each of them in
/// upper or in lower case, wherever they stand; a name without them is not.
pub proof fn cpu_zones_are_known_by_name(
    before: Seq<char>,
    c: char,
    p: char,
    u: char,
    after: Seq<char>,
)
    requires
        c == 'C' || c == 'c',
        p == 'P' || p == 'p',
        u == 'U' || u == 'u',
    ensures
        names_cpu(before + seq![c, p, u] + after),
{
    assert(names_cpu_at(before + seq![c, p, u] + after, before.len() as int));
}

/// A name in which no `u` stands two behind a `c`, with a `p` between them, is not the
/// CPU's.
pub proof fn other_zones_are_known_by_name(name: Seq<char>)
    requires
        forall|i: int|
            #![trigger name[i]]
            0 <= i && i + 2 < name.len() ==> (name[i] != 'C' && name[i] != 'c') || (name[i + 1] != 'P'
                && name[i + 1] != 'p') || (name[i + 2] != 'U' && name[i + 2] != 'u'),
    ensures
        !names_cpu(name),
{
    if names_cpu(name) {
        let i = choose|i: int| #[trigger] names_cpu_at(name, i);
        assert(name[i] == name[i]);
    }
}

/// A temperature is plausible from 5 to 125 degrees: positive numbers are ordered as their
/// patterns, and these two are the patterns of the ends.
pub proof fn plausible_temperatures_have_their_range(celsius: Double)
    ensures
        plausible(celsius) <==> 0x4014_0000_0000_0000 <= celsius.bits <= 0x405f_4000_0000_0000,
        plausible(celsius) ==> 5 <= rounded_to_u32(celsius.bits) <= 125,
        rounded_to_u32(0x4014_0000_0000_0000) == 5,
        rounded_to_u32(0x405f_4000_0000_0000) == 125,
{
    range_ends();
    if plausible(celsius) {
        crate::double::rounding_is_monotone(MIN_PLAUSIBLE_BITS, celsius.bits);
        crate::double::rounding_is_monotone(celsius.bits, MAX_PLAUSIBLE_BITS);
    }
}

/// Where a zone of the CPU has a plausible reading, the first of them is shown, however hot
/// any other zone is.
pub proof fn the_first_cpu_zone_is_shown(
    zones: Seq<(String, Double)>,
    r: Option<Double>,
    i: int,
)
    requires
        is_pick(zones, r),
        0 <= i < zones.len(),
        plausible(zones[i].1),
        names_cpu(zones[i].0@),
        forall|j: int|
            0 <= j < i ==> !(plausible((#[trigger] zones[j]).1) && names_cpu(zones[j].0@)),
    ensures
        r == Some(zones[i].1),
{
    assert(usable(zones, i) && usable_cpu(zones, i));
    assert(first_cpu(zones, i)) by {
        assert forall|j: int| 0 <= j < i implies !#[trigger] usable_cpu(zones, j) by {
            assert(zones[j] == zones[j]);
        }
    }
    assert(is_pick(zones, Some(zones[i].1)));
    the_pick_is_unique(zones, r, Some(zones[i].1));
}

/// Where no zone of the CPU has a plausible reading, the hottest of the plausible ones is
/// shown.
pub proof fn the_hottest_zone_is_shown(zones: Seq<(String, Double)>, r: Option<Double>, i: int)
    requires
        is_pick(zones, r),
        0 <= i < zones.len(),
        plausible(zones[i].1),
        forall|j: int|
            0 <= j < zones.len() ==> !(plausible((#[trigger] zones[j]).1) && names_cpu(
                zones[j].0@,
            )),
        forall|j: int|
            0 <= j < zones.len() && plausible((#[trigger] zones[j]).1) ==> zones[j].1.bits
                <= zones[i].1.bits,
    ensures
        r == Some(zones[i].1),
{
    assert(usable(zones, i));
    assert forall|j: int| !#[trigger] usable_cpu(zones, j) by {
        if usable_cpu(zones, j) {
            assert(zones[j] == zones[j]);
        }
    }
    assert(hottest(zones, i));
    assert(is_pick(zones, Some(zones[i].1)));
    the_pick_is_unique(zones, r, Some(zones[i].1));
}

/// Nothing is shown exactly where no zone has a plausible reading.
pub proof fn nothing_is_shown_without_a_plausible_zone(zones: Seq<(String, Double)>, r: Option<Double>)
    requires
        is_pick(zones, r),
    ensures
        r is None <==> forall|i: int| 0 <= i < zones.len() ==> !plausible((#[trigger] zones[i]).1),
{
    if r is None {
        assert forall|i: int| 0 <= i < zones.len() implies !plausible((#[trigger] zones[i]).1) by {
            assert(!usable(zones, i));
        }
    } else {
        the_pick_is_plausible(zones, r->0);
        let i = choose|i: int| #[trigger] usable(zones, i) && zones[i].1 == r->0;
        assert(plausible(zones[i].1));
    }
}

/// A reading is the temperature of the zone to show, rounded to whole degrees, where the
/// collection succeeded and gave zones; and there is none otherwise.
pub proof fn readings_are_of_the_zone_shown(
    status: u32,
    zones: Option<Seq<(String, Double)>>,
    r: Option<u32>,
    pick: Option<Double>,
)
    requires
        is_reading(status, zones, r),
    ensures
        status != 0 || zones is None ==> r is None,
        status == 0 && zones is Some && is_pick(zones->0, pick) ==> {
            &&& r is Some <==> pick is Some
            &&& pick is Some ==> r->0 == rounded_to_u32(pick->0.bits)
        },
{
    if status == 0 && zones is Some && is_pick(zones->0, pick) {
        let own = choose|own: Option<Double>| #[trigger]
            is_pick(zones->0, own) && r == whole_degrees(own);
        the_pick_is_unique(zones->0, own, pick);
    }
}

} // verus!
