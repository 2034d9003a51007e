//! Options that apply to the whole ffmpeg invocation.
use vstd::prelude::*;

use crate::hw_accel::{accel_init_args, HardwareAccel};
use crate::text::{arg_texts, args1, args2, args_with, decimal, decimal_string};

verus! {

/// How much ffmpeg logs.
#[derive(Clone, Copy, Debug, PartialEq, Eq, Structural)]
pub enum LogLevel {
    Error,
    Warning,
    Info,
}

/// ffmpeg's name of a log level.
pub open spec fn log_level_name(l: LogLevel) -> Seq<char> {
    match l {
        LogLevel::Error => "error"@,
        LogLevel::Warning => "warning"@,
        LogLevel::Info => "info"@,
    }
}

/// An option of the whole invocation.
#[derive(Clone, Debug)]
pub enum GlobalOption {
    /// The number of threads; 0 lets ffmpeg choose.
    Threads(u32),
    NoStdIn,
    HideBanner,
    LogLevel(LogLevel),
    /// Timestamp generation and tolerance of damaged input.
    StandardFormatFlags,
    /// Sets up a hardware device.
    InitHwDevice(HardwareAccel),
}

/// The arguments of a global option.
pub open spec fn global_option_args(o: GlobalOption) -> Seq<Seq<char>> {
    match o {
        GlobalOption::Threads(n) => seq!["-threads"@, decimal(n as nat)],
        GlobalOption::NoStdIn => seq!["-nostdin"@],
        GlobalOption::HideBanner => seq!["-hide_banner"@],
        GlobalOption::LogLevel(l) => seq!["-loglevel"@, log_level_name(l)],
        GlobalOption::StandardFormatFlags => seq!["-fflags"@, "+genpts+discardcorrupt+igndts"@],
        GlobalOption::InitHwDevice(a) => accel_init_args(a),
    }
}

impl GlobalOption {
    /// The option's arguments.
    pub fn as_arg(&self) -> (res: Vec<String>)
        ensures
            arg_texts(res@) == global_option_args(*self),
    {
        match self {
            GlobalOption::Threads(n) => args_with("-threads", decimal_string(*n as u128)),
            GlobalOption::NoStdIn => args1("-nostdin"),
            GlobalOption::HideBanner => args1("-hide_banner"),
            GlobalOption::LogLevel(l) => {
                let name = match l {
                    LogLevel::Error => "error",
                    LogLevel::Warning => "warning",
                    LogLevel::Info => "info",
                };
                args2("-loglevel", name)
            },
            GlobalOption::StandardFormatFlags => args2("-fflags", "+genpts+discardcorrupt+igndts"),
            GlobalOption::InitHwDevice(a) => a.init_hw_device(),
        }
    }
}

} // verus!
