use vstd::prelude::*;
use crate::names::{same_name, ParseError};

verus! {

/// Sampling method of the denoiser, in the order of the backend's table.
#[derive(Debug, Clone, Copy, PartialEq, Eq, Structural)]
pub enum SampleMethodT {
    EULERA,
    EULER,
    HEUN,
    DPM2,
    DPMPP2SA,
    DPMPP2M,
    DPMPP2Mv2,
    LCM,
}

/// Number of entries of the sampling-method table.
pub const SAMPLE_METHOD_COUNT: usize = 8;

/// Position of a sampling method in the backend's table.
pub open spec fn sample_method_index(m: SampleMethodT) -> nat {
    match m {
        SampleMethodT::EULERA => 0,
        SampleMethodT::EULER => 1,
        SampleMethodT::HEUN => 2,
        SampleMethodT::DPM2 => 3,
        SampleMethodT::DPMPP2SA => 4,
        SampleMethodT::DPMPP2M => 5,
        SampleMethodT::DPMPP2Mv2 => 6,
        SampleMethodT::LCM => 7,
    }
}

/// The name by which a caller selects a sampling method.
pub open spec fn sample_method_name(m: SampleMethodT) -> Seq<char> {
    match m {
        SampleMethodT::EULERA => "euler_a"@,
        SampleMethodT::EULER => "euler"@,
        SampleMethodT::HEUN => "heun"@,
        SampleMethodT::DPM2 => "dpm2"@,
        SampleMethodT::DPMPP2SA => "dpm++2s_a"@,
        SampleMethodT::DPMPP2M => "dpm++2m"@,
        SampleMethodT::DPMPP2Mv2 => "dpm++2mv2"@,
        SampleMethodT::LCM => "lcm"@,
    }
}

impl SampleMethodT {
    /// The sampling method at a position of the table.
    pub fn from_index(i: usize) -> (r: Result<SampleMethodT, ParseError>)
        ensures
            i < SAMPLE_METHOD_COUNT <==> r is Ok,
            r is Ok ==> sample_method_index(r->Ok_0) == i,
            r is Err ==> r == Err::<SampleMethodT, ParseError>(ParseError::SampleMethodIndexOutOfRange(i)),
    {
        match i {
            0 => Ok(SampleMethodT::EULERA),
            1 => Ok(SampleMethodT::EULER),
            2 => Ok(SampleMethodT::HEUN),
            3 => Ok(SampleMethodT::DPM2),
            4 => Ok(SampleMethodT::DPMPP2SA),
            5 => Ok(SampleMethodT::DPMPP2M),
            6 => Ok(SampleMethodT::DPMPP2Mv2),
            7 => Ok(SampleMethodT::LCM),
            _ => Err(ParseError::SampleMethodIndexOutOfRange(i)),
        }
    }

    /// The position of this method in the table.
    pub fn index(&self) -> (r: usize)
        ensures
            r == sample_method_index(*self),
            r < SAMPLE_METHOD_COUNT,
    {
        match self {
            SampleMethodT::EULERA => 0,
            SampleMethodT::EULER => 1,
            SampleMethodT::HEUN => 2,
            SampleMethodT::DPM2 => 3,
            SampleMethodT::DPMPP2SA => 4,
            SampleMethodT::DPMPP2M => 5,
            SampleMethodT::DPMPP2Mv2 => 6,
            SampleMethodT::LCM => 7,
        }
    }

    /// Resolves a sampling-method name; an unknown name is an error that
    /// carries it, never a fallback to some default method.
    pub fn from_name(name: &str) -> (r: Result<SampleMethodT, ParseError>)
        ensures
            match parse_sample_method(name@) {
                Some(m) => r == Ok::<SampleMethodT, ParseError>(m),
                None => r matches Err(ParseError::UnknownSampleMethod(s)) && s@ == name@,
            },
    {
        if same_name(name, "euler_a") {
            Ok(SampleMethodT::EULERA)
        } else if same_name(name, "euler") {
            Ok(SampleMethodT::EULER)
        } else if same_name(name, "heun") {
            Ok(SampleMethodT::HEUN)
        } else if same_name(name, "dpm2") {
            Ok(SampleMethodT::DPM2)
        } else if same_name(name, "dpm++2s_a") {
            Ok(SampleMethodT::DPMPP2SA)
        } else if same_name(name, "dpm++2m") {
            Ok(SampleMethodT::DPMPP2M)
        } else if same_name(name, "dpm++2mv2") {
            Ok(SampleMethodT::DPMPP2Mv2)
        } else if same_name(name, "lcm") {
            Ok(SampleMethodT::LCM)
        } else {
            Err(ParseError::UnknownSampleMethod(name.to_owned()))
        }
    }
}

/// The sampling method that a name selects, if any.
pub open spec fn parse_sample_method(s: Seq<char>) -> Option<SampleMethodT> {
    if s == "euler_a"@ {
        Some(SampleMethodT::EULERA)
    } else if s == "euler"@ {
        Some(SampleMethodT::EULER)
    } else if s == "heun"@ {
        Some(SampleMethodT::HEUN)
    } else if s == "dpm2"@ {
        Some(SampleMethodT::DPM2)
    } else if s == "dpm++2s_a"@ {
        Some(SampleMethodT::DPMPP2SA)
    } else if s == "dpm++2m"@ {
        Some(SampleMethodT::DPMPP2M)
    } else if s == "dpm++2mv2"@ {
        Some(SampleMethodT::DPMPP2Mv2)
    } else if s == "lcm"@ {
        Some(SampleMethodT::LCM)
    } else {
        None
    }
}

/// The sampling-method table is a bijection between names and methods: every
/// method's name resolves to that method and only that one, a name resolves
/// to a method only if it is that method's name, and no two methods share a
/// position.
pub proof fn lemma_sample_method_names(m: SampleMethodT, n: SampleMethodT, s: Seq<char>)
    ensures
        parse_sample_method(sample_method_name(m)) == Some(m),
        parse_sample_method(s) == Some(m) <==> sample_method_name(m) == s,
        sample_method_index(m) == sample_method_index(n) ==> m == n,
{
    reveal_strlit("euler_a");
    reveal_strlit("euler");
    reveal_strlit("heun");
    reveal_strlit("dpm2");
    reveal_strlit("dpm++2s_a");
    reveal_strlit("dpm++2m");
    reveal_strlit("dpm++2mv2");
    reveal_strlit("lcm");
    assert("euler_a"@.len() == 7 && "euler"@.len() == 5 && "lcm"@.len() == 3);
    assert("heun"@.len() == 4 && "dpm2"@.len() == 4 && "dpm++2m"@.len() == 7);
    assert("dpm++2s_a"@.len() == 9 && "dpm++2mv2"@.len() == 9);
    assert("euler_a"@[0] != "dpm++2m"@[0]);
    assert("heun"@[0] != "dpm2"@[0]);
    assert("dpm++2s_a"@[6] != "dpm++2mv2"@[6]);
}

/// Noise schedule of the denoiser, in the order of the backend's table.
#[derive(Debug, Clone, Copy, PartialEq, Eq, Structural)]
pub enum ScheduleT {
    DEFAULT,
    DISCRETE,
    KARRAS,
    AYS,
}

/// Number of entries of the schedule table.
pub const SCHEDULE_COUNT: usize = 4;

/// Position of a schedule in the backend's table.
pub open spec fn schedule_index(k: ScheduleT) -> nat {
    match k {
        ScheduleT::DEFAULT => 0,
        ScheduleT::DISCRETE => 1,
        ScheduleT::KARRAS => 2,
        ScheduleT::AYS => 3,
    }
}

/// The name by which a caller selects a schedule.
pub open spec fn schedule_name(k: ScheduleT) -> Seq<char> {
    match k {
        ScheduleT::DEFAULT => "default"@,
        ScheduleT::DISCRETE => "discrete"@,
        ScheduleT::KARRAS => "karras"@,
        ScheduleT::AYS => "ays"@,
    }
}

/// The schedule that a name selects, if any.
pub open spec fn parse_schedule(s: Seq<char>) -> Option<ScheduleT> {
    if s == "default"@ {
        Some(ScheduleT::DEFAULT)
    } else if s == "discrete"@ {
        Some(ScheduleT::DISCRETE)
    } else if s == "karras"@ {
        Some(ScheduleT::KARRAS)
    } else if s == "ays"@ {
        Some(ScheduleT::AYS)
    } else {
        None
    }
}

impl ScheduleT {
    /// The schedule at a position of the table.
    pub fn from_index(i: usize) -> (r: Result<ScheduleT, ParseError>)
        ensures
            i < SCHEDULE_COUNT <==> r is Ok,
            r is Ok ==> schedule_index(r->Ok_0) == i,
            r is Err ==> r == Err::<ScheduleT, ParseError>(ParseError::ScheduleIndexOutOfRange(i)),
    {
        match i {
            0 => Ok(ScheduleT::DEFAULT),
            1 => Ok(ScheduleT::DISCRETE),
            2 => Ok(ScheduleT::KARRAS),
            3 => Ok(ScheduleT::AYS),
            _ => Err(ParseError::ScheduleIndexOutOfRange(i)),
        }
    }

    /// The position of this schedule in the table.
    pub fn index(&self) -> (r: usize)
        ensures
            r == schedule_index(*self),
            r < SCHEDULE_COUNT,
    {
        match self {
            ScheduleT::DEFAULT => 0,
            ScheduleT::DISCRETE => 1,
            ScheduleT::KARRAS => 2,
            ScheduleT::AYS => 3,
        }
    }

    /// Resolves a schedule name; an unknown name is an error that carries it.
    pub fn from_name(name: &str) -> (r: Result<ScheduleT, ParseError>)
        ensures
            match parse_schedule(name@) {
                Some(k) => r == Ok::<ScheduleT, ParseError>(k),
                None => r matches Err(ParseError::UnknownSchedule(s)) && s@ == name@,
            },
    {
        if same_name(name, "default") {
            Ok(ScheduleT::DEFAULT)
        } else if same_name(name, "discrete") {
            Ok(ScheduleT::DISCRETE)
        } else if same_name(name, "karras") {
            Ok(ScheduleT::KARRAS)
        } else if same_name(name, "ays") {
            Ok(ScheduleT::AYS)
        } else {
            Err(ParseError::UnknownSchedule(name.to_owned()))
        }
    }
}

/// The schedule table is a bijection between names and schedules, and no
/// two schedules share a position.
pub proof fn lemma_schedule_names(k: ScheduleT, l: ScheduleT, s: Seq<char>)
    ensures
        parse_schedule(schedule_name(k)) == Some(k),
        parse_schedule(s) == Some(k) <==> schedule_name(k) == s,
        schedule_index(k) == schedule_index(l) ==> k == l,
{
    reveal_strlit("default");
    reveal_strlit("discrete");
    reveal_strlit("karras");
    reveal_strlit("ays");
    assert("default"@.len() == 7 && "discrete"@.len() == 8);
    assert("karras"@.len() == 6 && "ays"@.len() == 3);
}

/// Random number generator that the backend seeds.
#[derive(Debug, Clone, Copy, PartialEq, Eq, Structural)]
pub enum RngTypeT {
    StdDefaultRng,
    CUDARng,
}

/// The generator that a name selects, if any.
pub open spec fn parse_rng(s: Seq<char>) -> Option<RngTypeT> {
    if s == "std_default"@ {
        Some(RngTypeT::StdDefaultRng)
    } else if s == "cuda"@ {
        Some(RngTypeT::CUDARng)
    } else {
        None
    }
}

impl RngTypeT {
    /// Resolves a generator name; an unknown name is an error that carries it.
    pub fn from_name(name: &str) -> (r: Result<RngTypeT, ParseError>)
        ensures
            match parse_rng(name@) {
                Some(k) => r == Ok::<RngTypeT, ParseError>(k),
                None => r matches Err(ParseError::UnknownRng(s)) && s@ == name@,
            },
    {
        if same_name(name, "std_default") {
            Ok(RngTypeT::StdDefaultRng)
        } else if same_name(name, "cuda") {
            Ok(RngTypeT::CUDARng)
        } else {
            Err(ParseError::UnknownRng(name.to_owned()))
        }
    }

    /// The numeric value the backend expects for this generator.
    pub fn code(&self) -> (r: u32)
        ensures
            r == (if *self == RngTypeT::StdDefaultRng { 0u32 } else { 1u32 }),
    {
        match self {
            RngTypeT::StdDefaultRng => 0,
            RngTypeT::CUDARng => 1,
        }
    }
}

/// Weight precision of a model, as the backend numbers its tensor types.
#[derive(Debug, Clone, Copy, PartialEq, Eq, Structural)]
pub enum SdTypeT {
    SdTypeF32,
    SdTypeF16,
    SdTypeQ4_0,
    SdTypeQ4_1,
    SdTypeQ5_0,
    SdTypeQ5_1,
    SdTypeQ8_0,
    SdTypeQ8_1,
    SdTypeQ2K,
    SdTypeQ3K,
    SdTypeQ4K,
    SdTypeQ5K,
    SdTypeQ6K,
    SdTypeQ8K,
}

/// The backend's number for a precision type; the two numbers between
/// `SdTypeQ4_1` and `SdTypeQ5_0` are retired and belong to no type.
pub open spec fn sd_type_code(t: SdTypeT) -> u32 {
    match t {
        SdTypeT::SdTypeF32 => 0,
        SdTypeT::SdTypeF16 => 1,
        SdTypeT::SdTypeQ4_0 => 2,
        SdTypeT::SdTypeQ4_1 => 3,
        SdTypeT::SdTypeQ5_0 => 6,
        SdTypeT::SdTypeQ5_1 => 7,
        SdTypeT::SdTypeQ8_0 => 8,
        SdTypeT::SdTypeQ8_1 => 9,
        SdTypeT::SdTypeQ2K => 10,
        SdTypeT::SdTypeQ3K => 11,
        SdTypeT::SdTypeQ4K => 12,
        SdTypeT::SdTypeQ5K => 13,
        SdTypeT::SdTypeQ6K => 14,
        SdTypeT::SdTypeQ8K => 15,
    }
}

impl SdTypeT {
    /// The numeric value the backend expects for this precision type.
    pub fn code(&self) -> (r: u32)
        ensures
            r == sd_type_code(*self),
    {
        match self {
            SdTypeT::SdTypeF32 => 0,
            SdTypeT::SdTypeF16 => 1,
            SdTypeT::SdTypeQ4_0 => 2,
            SdTypeT::SdTypeQ4_1 => 3,
            SdTypeT::SdTypeQ5_0 => 6,
            SdTypeT::SdTypeQ5_1 => 7,
            SdTypeT::SdTypeQ8_0 => 8,
            SdTypeT::SdTypeQ8_1 => 9,
            SdTypeT::SdTypeQ2K => 10,
            SdTypeT::SdTypeQ3K => 11,
            SdTypeT::SdTypeQ4K => 12,
            SdTypeT::SdTypeQ5K => 13,
            SdTypeT::SdTypeQ6K => 14,
            SdTypeT::SdTypeQ8K => 15,
        }
    }
}

/// A source image handed to the backend: a file path, or encoded bytes held
/// in memory. An empty path or an empty buffer counts as no image.
#[derive(Debug, Clone, PartialEq, Eq)]
pub enum ImageType {
    Path(String),
    Bytes(Vec<u8>),
}

/// Whether an image reference is absent.
pub open spec fn image_is_empty(img: ImageType) -> bool {
    match img {
        ImageType::Path(p) => p@.len() == 0,
        ImageType::Bytes(b) => b@.len() == 0,
    }
}

impl ImageType {
    /// The reference that stands for "no image": an empty path.
    pub fn none() -> (r: ImageType)
        ensures
            r matches ImageType::Path(p) && p@.len() == 0,
    {
        ImageType::Path(String::new())
    }

    /// Whether this reference is absent.
    pub fn is_empty(&self) -> (r: bool)
        ensures
            r == image_is_empty(*self),
    {
        match self {
            ImageType::Path(p) => p.as_str().is_empty(),
            ImageType::Bytes(b) => b.len() == 0,
        }
    }
}

} // verus!
