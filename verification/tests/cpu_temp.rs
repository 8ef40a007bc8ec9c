use usage_widget::cpu_temp::{
    buffer_capacity, is_cpu_name, pick_cpu_zone, read_celsius, sample_zones, CpuTempWorker, Scale,
    ZoneItem, HIGH_PRECISION_PATH, MAX_PLAUSIBLE_BITS, MIN_PLAUSIBLE_BITS, PDH_MORE_DATA,
    WHOLE_KELVIN_PATH,
};
use usage_widget::double::Double;
use windows_sys::Win32::System::Performance;

fn double(x: f64) -> Double {
    Double { bits: x.to_bits() }
}

fn zones(pairs: &[(&str, f64)]) -> Vec<(String, Double)> {
    pairs.iter().map(|(n, c)| (n.to_string(), double(*c))).collect()
}

fn picked(pairs: &[(&str, f64)]) -> Option<f64> {
    pick_cpu_zone(&zones(pairs)).map(|c| f64::from_bits(c.bits))
}

#[test]
fn a_cpu_named_zone_wins_even_when_another_zone_is_hotter() {
    let picked = picked(&[("\\_TZ.GFXZ", 91.0), ("\\_TZ.CPUZ", 61.0)]);
    assert_eq!(picked, Some(61.0));
}

#[test]
fn unwired_zones_reporting_absolute_zero_are_ignored() {
    let picked = picked(&[("\\_TZ.CHGZ", -273.15), ("\\_TZ.LOCZ", 44.0)]);
    assert_eq!(picked, Some(44.0));
}

#[test]
fn falls_back_to_the_hottest_zone_when_none_is_cpu_named() {
    let picked = picked(&[("\\_TZ.TZ00", 48.0), ("\\_TZ.TZ01", 55.0)]);
    assert_eq!(picked, Some(55.0));
}

#[test]
fn no_plausible_zone_yields_nothing_rather_than_a_wrong_number() {
    assert_eq!(picked(&[("\\_TZ.CHGZ", -273.15)]), None);
    assert_eq!(picked(&[]), None);
    assert_eq!(picked(&[("\\_TZ.CPUZ", 400.0)]), None);
}

#[test]
fn a_cpu_zone_is_still_skipped_when_its_own_reading_is_implausible() {
    let picked = picked(&[("\\_TZ.CPUZ", -273.15), ("\\_TZ.TZ00", 52.0)]);
    assert_eq!(picked, Some(52.0));
}

#[test]
fn the_plausible_range_includes_its_ends() {
    assert_eq!(MIN_PLAUSIBLE_BITS, 5.0f64.to_bits());
    assert_eq!(MAX_PLAUSIBLE_BITS, 125.0f64.to_bits());
    assert_eq!(picked(&[("a", 5.0)]), Some(5.0));
    assert_eq!(picked(&[("a", 125.0)]), Some(125.0));
    assert_eq!(picked(&[("a", 4.999999999999999)]), None);
    assert_eq!(picked(&[("a", 125.00000000000001)]), None);
    assert_eq!(picked(&[("a", f64::NAN), ("b", f64::INFINITY), ("c", -61.0)]), None);
}

#[test]
fn the_first_cpu_zone_counts_in_any_case() {
    assert_eq!(picked(&[("x", 99.0), ("my cPu zone", 40.0), ("CPU2", 90.0)]), Some(40.0));
    assert!(is_cpu_name("CPU"));
    assert!(is_cpu_name("ccpu"));
    assert!(is_cpu_name("\\_TZ.CPUZ"));
    assert!(!is_cpu_name("CP"));
    assert!(!is_cpu_name("C PU"));
    assert!(!is_cpu_name(""));
    // Only ASCII letters have another case here.
    assert!(!is_cpu_name("\u{ff23}PU"));
}

#[test]
fn the_finer_counter_is_tried_first() {
    assert_eq!(Scale::next(None), Some(Scale::DeciKelvin));
    assert_eq!(Scale::next(Some(Scale::DeciKelvin)), Some(Scale::Kelvin));
    assert_eq!(Scale::next(Some(Scale::Kelvin)), None);
    assert_eq!(Scale::DeciKelvin.counter_path(), HIGH_PRECISION_PATH);
    assert_eq!(Scale::Kelvin.counter_path(), WHOLE_KELVIN_PATH);
    assert_eq!(WHOLE_KELVIN_PATH, r"\Thermal Zone Information(*)\Temperature");
    assert_eq!(HIGH_PRECISION_PATH, r"\Thermal Zone Information(*)\High Precision Temperature");
}

#[test]
fn the_buffer_holds_what_was_asked_for() {
    assert_eq!(PDH_MORE_DATA, Performance::PDH_MORE_DATA);
    assert_eq!(buffer_capacity(PDH_MORE_DATA, 100, 24), Some(5));
    assert_eq!(buffer_capacity(PDH_MORE_DATA, 96, 24), Some(4));
    assert_eq!(buffer_capacity(PDH_MORE_DATA, 1, 24), Some(1));
    assert_eq!(buffer_capacity(PDH_MORE_DATA, 0, 24), None);
    assert_eq!(buffer_capacity(0, 100, 24), None);
    assert_eq!(buffer_capacity(PDH_MORE_DATA, u32::MAX, 1), Some(u32::MAX as usize));
}

fn item(status: u32, name: &str, celsius: f64) -> ZoneItem {
    ZoneItem { status, name: name.to_string(), celsius: double(celsius) }
}

#[test]
fn zones_without_a_valid_value_are_left_out() {
    let items = vec![item(0, "a", 40.0), item(3, "cpu", 90.0), item(0, "b", 50.0)];
    let zones = sample_zones(0, &items).unwrap();
    assert_eq!(zones, vec![("a".to_string(), double(40.0)), ("b".to_string(), double(50.0))]);
    assert!(sample_zones(1, &items).is_none());
    assert_eq!(read_celsius(0, Some(zones)), Some(50));
    assert_eq!(read_celsius(5, sample_zones(0, &items)), None);
    assert_eq!(read_celsius(0, None), None);
}

#[test]
fn a_reading_is_in_whole_degrees() {
    let read = |c: f64| read_celsius(0, Some(zones(&[("a", c)])));
    assert_eq!(read(61.05), Some(61));
    assert_eq!(read(61.5), Some(62));
    assert_eq!(read(5.0), Some(5));
    assert_eq!(read(125.0), Some(125));
    assert_eq!(read(4.9), None);
    assert_eq!(read_celsius(0, Some(Vec::new())), None);
}

#[test]
fn a_temperature_is_logged_only_when_it_changes() {
    let mut w = CpuTempWorker::new();
    assert!(!w.after_sample(None));
    assert!(w.after_sample(Some(61)));
    assert!(!w.after_sample(Some(61)));
    assert!(w.after_sample(Some(62)));
    assert!(w.after_sample(None));
    assert!(!w.after_sample(None));
    assert_eq!(w.last_logged, None);
}
