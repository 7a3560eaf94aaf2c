//! Microphone capture decisions: which input device and which stream
//! configuration to use. The capture itself runs outside the library.
use vstd::prelude::*;
use vstd::string::*;
use crate::error::{AppError, AppErrorView, join_str};

verus! {

/// Target sample rate for all ASR engines.
pub const TARGET_SAMPLE_RATE: u32 = 16_000;

/// Sample formats a device may deliver, as far as capture distinguishes them.
#[derive(Debug, Clone, Copy, PartialEq, Eq)]
pub enum SampleFormat {
    F32,
    I16,
    Other,
}

/// One range of input configurations a device supports.
#[derive(Debug, Clone, Copy)]
pub struct ConfigRange {
    pub channels: u16,
    pub sample_format: SampleFormat,
    pub min_sample_rate: u32,
    pub max_sample_rate: u32,
}

/// Whether a range offers 16 kHz mono `f32`.
pub open spec fn is_preferred(r: ConfigRange) -> bool {
    r.channels == 1 && r.sample_format == SampleFormat::F32 && r.min_sample_rate
        <= TARGET_SAMPLE_RATE <= r.max_sample_rate
}

/// Index of the first range that offers 16 kHz mono `f32`; `None` means the
/// device's default input configuration is to be used instead.
pub fn preferred_config(ranges: &Vec<ConfigRange>) -> (r: Option<usize>)
    ensures
        match r {
            Some(i) => i < ranges@.len() && is_preferred(ranges@[i as int]) && forall|k: int|
                0 <= k < i ==> !is_preferred(#[trigger] ranges@[k]),
            None => forall|k: int| 0 <= k < ranges@.len() ==> !is_preferred(#[trigger] ranges@[k]),
        },
{
    let mut i: usize = 0;
    while i < ranges.len()
        invariant
            i <= ranges@.len(),
            forall|k: int| 0 <= k < i ==> !is_preferred(#[trigger] ranges@[k]),
        decreases ranges@.len() - i,
    {
        let c = ranges[i];
        let fmt_ok = match c.sample_format {
            SampleFormat::F32 => true,
            _ => false,
        };
        if c.channels == 1 && fmt_ok && c.min_sample_rate <= TARGET_SAMPLE_RATE
            && c.max_sample_rate >= TARGET_SAMPLE_RATE {
            return Some(i);
        }
        i = i + 1;
    }
    None
}

/// Which device to capture from.
#[derive(Debug, Clone, Copy, PartialEq, Eq)]
pub enum DeviceChoice {
    /// The system's default input device.
    Default,
    /// The device at this index of the enumeration.
    Index(usize),
}

/// Pick the input device named `name` among the enumerated devices (each
/// with its name, when it could be read). An empty name picks the system
/// default; otherwise the first device with that exact name, or an error.
pub fn find_device(name: &str, devices: &Vec<Option<String>>) -> (r: Result<DeviceChoice, AppError>)
    ensures
        name@.len() == 0 ==> r == Ok::<DeviceChoice, AppError>(DeviceChoice::Default),
        name@.len() > 0 ==> match r {
            Ok(DeviceChoice::Index(i)) => i < devices@.len() && (devices@[i as int] matches Some(
                n,
            ) && n@ == name@) && forall|k: int|
                0 <= k < i ==> !(#[trigger] devices@[k] matches Some(n) && n@ == name@),
            Ok(DeviceChoice::Default) => false,
            Err(e) => e@ == AppErrorView::Internal("audio device not found: '"@ + name@ + "'"@)
                && forall|k: int|
                0 <= k < devices@.len() ==> !(#[trigger] devices@[k] matches Some(n) && n@
                    == name@),
        },
{
    if name.is_empty() {
        return Ok(DeviceChoice::Default);
    }
    let target = String::from_str(name);
    let mut i: usize = 0;
    while i < devices.len()
        invariant
            i <= devices@.len(),
            target@ == name@,
            name@.len() > 0,
            forall|k: int| 0 <= k < i ==> !(#[trigger] devices@[k] matches Some(n) && n@ == name@),
        decreases devices@.len() - i,
    {
        match &devices[i] {
            Some(n) => {
                if n.eq(&target) {
                    return Ok(DeviceChoice::Index(i));
                }
            },
            None => {},
        }
        i = i + 1;
    }
    let mut msg = join_str("audio device not found: '", name);
    msg.append("'");
    Err(AppError::Internal(msg))
}

/// The error for a failed audio-device operation: what was attempted, then
/// the audio host's error text.
pub fn device_error(context: &str, err: &str) -> (r: AppError)
    ensures
        r@ == AppErrorView::Internal(context@ + ": "@ + err@),
{
    let mut s = join_str(context, ": ");
    s.append(err);
    AppError::Internal(s)
}

/// The names of the devices whose name could be read, in order.
pub open spec fn readable_names(names: Seq<Option<Seq<char>>>) -> Seq<Seq<char>>
    decreases names.len(),
{
    if names.len() == 0 {
        Seq::empty()
    } else {
        let rest = readable_names(names.drop_last());
        match names.last() {
            Some(n) => rest.push(n),
            None => rest,
        }
    }
}

pub open spec fn opt_views(s: Seq<Option<String>>) -> Seq<Option<Seq<char>>> {
    s.map_values(|o: Option<String>| match o {
        Some(n) => Some(n@),
        None => None,
    })
}

/// The input device names to show in the settings UI: those that could be
/// read, in enumeration order.
pub fn list_input_devices(names: Vec<Option<String>>) -> (r: Vec<String>)
    ensures
        r@.map_values(|s: String| s@) == readable_names(opt_views(names@)),
{
    let mut out: Vec<String> = Vec::new();
    let mut i: usize = 0;
    while i < names.len()
        invariant
            i <= names@.len(),
            out@.map_values(|s: String| s@) == readable_names(opt_views(names@).take(i as int)),
        decreases names@.len() - i,
    {
        assert(opt_views(names@).take(i + 1).drop_last() == opt_views(names@).take(i as int));
        match &names[i] {
            Some(n) => {
                out.push(n.clone());
                assert(out@.map_values(|s: String| s@) == readable_names(
                    opt_views(names@).take(i as int),
                ).push(n@));
            },
            None => {},
        }
        i = i + 1;
    }
    assert(opt_views(names@).take(names@.len() as int) == opt_views(names@));
    out
}

/// How captured samples reach the engines.
#[derive(Debug, Clone, Copy, PartialEq, Eq)]
pub enum Conversion {
    /// The device delivers `f32` samples; they are passed on as they are.
    Direct,
    /// The device delivers `i16` samples; they are scaled to `f32` first.
    FromI16,
}

/// How a stream in `format` is captured; formats other than `f32` and
/// `i16` are refused, naming the format (`format_name`).
pub fn capture_conversion(format: SampleFormat, format_name: &str) -> (r: Result<Conversion, AppError>)
    ensures
        format == SampleFormat::F32 ==> r == Ok::<Conversion, AppError>(Conversion::Direct),
        format == SampleFormat::I16 ==> r == Ok::<Conversion, AppError>(Conversion::FromI16),
        format == SampleFormat::Other ==> (r matches Err(e) && e@ == AppErrorView::Internal(
            "unsupported sample format: "@ + format_name@,
        )),
{
    match format {
        SampleFormat::F32 => Ok(Conversion::Direct),
        SampleFormat::I16 => Ok(Conversion::FromI16),
        SampleFormat::Other => Err(AppError::Internal(join_str("unsupported sample format: ", format_name))),
    }
}

} // verus!
