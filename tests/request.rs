use std::str::FromStr;
use wasmedge_stable_diffusion::names::{same_name, ParseError};
use wasmedge_stable_diffusion::params::{RngTypeT, SampleMethodT, ScheduleT, SdTypeT};
use wasmedge_stable_diffusion::request::{check_ranges, normalize_seed, pick_seed, RangeError};
use wasmedge_stable_diffusion::scalar::Real32;
use wasmedge_stable_diffusion::task::Task;

fn num(x: f32) -> Real32 {
    Real32::from_bits(x.to_bits())
}

const SAMPLE_METHODS: [&str; 8] =
    ["euler_a", "euler", "heun", "dpm2", "dpm++2s_a", "dpm++2m", "dpm++2mv2", "lcm"];

const SCHEDULES: [&str; 4] = ["default", "discrete", "karras", "ays"];

#[test]
fn every_sampling_method_name_resolves_by_position() {
    for (i, name) in SAMPLE_METHODS.iter().enumerate() {
        let m = SampleMethodT::from_name(name).unwrap();
        assert_eq!(m.index(), i);
        assert_eq!(SampleMethodT::from_index(i), Ok(m));
    }
    assert_eq!(SampleMethodT::from_name("dpm++2m"), Ok(SampleMethodT::DPMPP2M));
}

#[test]
fn every_schedule_name_resolves_by_position() {
    for (i, name) in SCHEDULES.iter().enumerate() {
        let k = ScheduleT::from_name(name).unwrap();
        assert_eq!(k.index(), i);
        assert_eq!(ScheduleT::from_index(i), Ok(k));
    }
    assert_eq!(ScheduleT::from_name("karras"), Ok(ScheduleT::KARRAS));
}

#[test]
fn unknown_names_are_errors_not_defaults() {
    assert_eq!(
        SampleMethodT::from_name("euler_b"),
        Err(ParseError::UnknownSampleMethod("euler_b".to_string()))
    );
    assert_eq!(ScheduleT::from_name(""), Err(ParseError::UnknownSchedule(String::new())));
    assert_eq!(RngTypeT::from_name("gpu"), Err(ParseError::UnknownRng("gpu".to_string())));
    assert_eq!(SampleMethodT::from_index(8), Err(ParseError::SampleMethodIndexOutOfRange(8)));
    assert_eq!(ScheduleT::from_index(4), Err(ParseError::ScheduleIndexOutOfRange(4)));
}

#[test]
fn rng_names_and_codes() {
    assert_eq!(RngTypeT::from_name("std_default"), Ok(RngTypeT::StdDefaultRng));
    assert_eq!(RngTypeT::from_name("cuda"), Ok(RngTypeT::CUDARng));
    assert_eq!(RngTypeT::CUDARng.code(), 1);
}

#[test]
fn task_modes_parse() {
    assert_eq!(Task::from_str("txt2img"), Ok(Task::TextToImage));
    assert_eq!(Task::from_str("img2img"), Ok(Task::ImageToImage));
    assert_eq!(Task::from_str("convert"), Err(ParseError::UnknownMode("convert".to_string())));
}

#[test]
fn precision_codes_skip_retired_numbers() {
    assert_eq!(SdTypeT::SdTypeF32.code(), 0);
    assert_eq!(SdTypeT::SdTypeQ4_1.code(), 3);
    assert_eq!(SdTypeT::SdTypeQ5_0.code(), 6);
    assert_eq!(SdTypeT::SdTypeQ8K.code(), 15);
}

#[test]
fn names_compare_exactly() {
    assert!(same_name("lcm", "lcm"));
    assert!(!same_name("lcm", "lcm "));
}

#[test]
fn out_of_range_parameters_are_rejected() {
    let ok = check_ranges(num(0.75), num(20.0), num(0.9), 20);
    assert_eq!(ok, Ok(()));
    assert_eq!(check_ranges(num(1.0), num(100.0), num(1.0), 0), Ok(()));
    assert_eq!(check_ranges(num(1.5), num(20.0), num(0.9), 20), Err(RangeError::Strength));
    assert_eq!(check_ranges(num(0.5), num(100.5), num(0.9), 20), Err(RangeError::StyleRatio));
    assert_eq!(
        check_ranges(num(0.5), num(20.0), num(1.01), 20),
        Err(RangeError::ControlStrength)
    );
    assert_eq!(check_ranges(num(0.5), num(20.0), num(0.9), -1), Err(RangeError::SampleSteps));
    assert_eq!(
        check_ranges(num(f32::INFINITY), num(20.0), num(0.9), 20),
        Err(RangeError::Strength)
    );
    assert_eq!(check_ranges(num(-3.0), num(-1.0), num(f32::NAN), 1), Ok(()));
}

#[test]
fn range_check_agrees_with_float_comparison() {
    let samples = [0.0f32, 0.5, 0.999, 1.0, 1.0001, 2.0, 99.9, 100.0, 100.01, -5.0, f32::INFINITY];
    for x in samples {
        let strength_ok = check_ranges(num(x), num(1.0), num(1.0), 0) != Err(RangeError::Strength);
        assert_eq!(strength_ok, !(x > 1.0));
        let style = check_ranges(num(0.0), num(x), num(0.0), 0);
        assert_eq!(style == Err(RangeError::StyleRatio), x > 100.0);
    }
}

#[test]
fn negative_seed_is_replaced_by_a_non_negative_one() {
    assert_eq!(normalize_seed(42, 123, 456), 42);
    assert_eq!(normalize_seed(0, 123, 456), 0);
    assert_eq!(normalize_seed(-1, 0xFFFF_FFFF, 0), i32::MAX);
    assert_eq!(normalize_seed(-1, 0b1010, 0b0110), 0b1100);
    assert_eq!(normalize_seed(-7, 0x8000_0001, 0x1_0000_0000), 1);
    for _ in 0..32 {
        let s = pick_seed(-1, 1_700_000_000);
        assert!(s >= 0);
    }
    assert_eq!(pick_seed(1234, 99), 1234);
}
