use vstd::prelude::*;
use crate::text::{
    str_eq, strip_prefix, has_prefix, parse_u64, parse_u8, parse_u8_hex, trim_hex_markers,
    parse_u64_chars, parse_u8_chars, parse_u8_hex_chars, strip_hex_markers,
};

verus! {

/// Runtime configuration drawn from the command line.
#[derive(Clone, Copy, Debug, PartialEq, Eq, Structural)]
pub struct Config {
    /// Seconds between display refreshes.
    pub interval_seconds: u64,
    /// Clear the display and exit.
    pub clear_only: bool,
    /// Detach and run in the background.
    pub daemon_mode: bool,
    /// Route the display through the multiplexer.
    pub use_multiplexer: bool,
    /// The multiplexer channel the display sits on.
    pub mux_channel: u8,
    /// The multiplexer's 7-bit I2C address.
    pub mux_address: u8,
}

/// The configuration before any flag is read: a five-second refresh,
/// no clearing, no daemon, no multiplexer, channel 0, address 0x70.
pub open spec fn default_config() -> Config {
    Config {
        interval_seconds: 5,
        clear_only: false,
        daemon_mode: false,
        use_multiplexer: false,
        mux_channel: 0,
        mux_address: 0x70,
    }
}

/// The starting configuration, before any flag is read.
pub fn initial_config() -> (c: Config)
    ensures
        c == default_config(),
{
    Config {
        interval_seconds: 5,
        clear_only: false,
        daemon_mode: false,
        use_multiplexer: false,
        mux_channel: 0,
        mux_address: 0x70,
    }
}

/// How one argument changes the configuration. Flags that read a value
/// look at the following argument (`next`) without consuming it; a
/// value that fails to parse, or a channel above 7, leaves the
/// configuration as it was.
pub open spec fn apply_arg(cfg: Config, arg: Seq<char>, next: Option<Seq<char>>) -> Config {
    if arg == "--clear"@ {
        Config { clear_only: true, ..cfg }
    } else if arg == "--daemon"@ || arg == "-d"@ {
        Config { daemon_mode: true, ..cfg }
    } else if arg == "--mux"@ {
        Config { use_multiplexer: true, ..cfg }
    } else if arg == "--mux-channel"@ {
        match next {
            Some(v) => match parse_u8_chars(v) {
                Some(c) => if c <= 7 {
                    Config { mux_channel: c, use_multiplexer: true, ..cfg }
                } else {
                    cfg
                },
                None => cfg,
            },
            None => cfg,
        }
    } else if arg == "--mux-address"@ {
        match next {
            Some(v) => match parse_u8_hex_chars(strip_hex_markers(v)) {
                Some(a) => Config { mux_address: a, ..cfg },
                None => cfg,
            },
            None => cfg,
        }
    } else if arg == "--interval"@ || arg == "-i"@ {
        match next {
            Some(v) => match parse_u64_chars(v) {
                Some(s) => Config { interval_seconds: s, ..cfg },
                None => cfg,
            },
            None => cfg,
        }
    } else if has_prefix(arg, "--interval="@) {
        match parse_u64_chars(arg.subrange("--interval="@.len() as int, arg.len() as int)) {
            Some(s) => Config { interval_seconds: s, ..cfg },
            None => cfg,
        }
    } else if has_prefix(arg, "--mux-channel="@) {
        match parse_u8_chars(arg.subrange("--mux-channel="@.len() as int, arg.len() as int)) {
            Some(c) => if c <= 7 {
                Config { mux_channel: c, use_multiplexer: true, ..cfg }
            } else {
                cfg
            },
            None => cfg,
        }
    } else {
        cfg
    }
}

/// The fold of `apply_arg` over the arguments from position `i` on,
/// stopping with the help flag: the resulting configuration and
/// whether help was asked for.
pub open spec fn parse_args_from(args: Seq<Seq<char>>, i: int, cfg: Config) -> (Config, bool)
    decreases args.len() - i,
{
    if !(0 <= i < args.len()) {
        (cfg, false)
    } else {
        let a = args[i];
        if a == "--help"@ || a == "-h"@ {
            (cfg, true)
        } else {
            let next = if i + 1 < args.len() {
                Some(args[i + 1])
            } else {
                None
            };
            parse_args_from(args, i + 1, apply_arg(cfg, a, next))
        }
    }
}

/// What the command line (program name first) configures: the folded
/// configuration and whether help was asked for.
pub open spec fn parse_args_chars(args: Seq<Seq<char>>) -> (Config, bool) {
    parse_args_from(args, 1, default_config())
}

/// Read the command line, program name first: every flag in order,
/// unknown arguments ignored, stopping at the first help flag.
pub fn parse_args(args: &Vec<String>) -> (r: (Config, bool))
    ensures
        r == parse_args_chars(args.deep_view()),
{
    let ghost vargs = args.deep_view();
    let mut cfg = initial_config();
    let n = args.len();
    proof {
        assert(vargs.len() == args@.len());
    }
    if n < 2 {
        return (cfg, false);
    }
    let mut i: usize = 1;
    while i < n
        invariant
            1 <= i <= n,
            n == vargs.len(),
            vargs == args.deep_view(),
            forall|k: int| 0 <= k < n ==> vargs[k] == #[trigger] args@[k]@,
            parse_args_chars(vargs) == parse_args_from(vargs, i as int, cfg),
        decreases n - i,
    {
        let a: &str = args[i].as_str();
        if str_eq(a, "--help") || str_eq(a, "-h") {
            return (cfg, true);
        }
        let ghost next = if i + 1 < vargs.len() {
            Some(vargs[i + 1])
        } else {
            None
        };
        let mut c2 = cfg;
        if str_eq(a, "--clear") {
            c2.clear_only = true;
        } else if str_eq(a, "--daemon") || str_eq(a, "-d") {
            c2.daemon_mode = true;
        } else if str_eq(a, "--mux") {
            c2.use_multiplexer = true;
        } else if str_eq(a, "--mux-channel") {
            if i + 1 < n {
                match parse_u8(args[i + 1].as_str()) {
                    Some(c) => if c <= 7 {
                        c2.mux_channel = c;
                        c2.use_multiplexer = true;
                    },
                    None => {},
                }
            }
        } else if str_eq(a, "--mux-address") {
            if i + 1 < n {
                match parse_u8_hex(trim_hex_markers(args[i + 1].as_str())) {
                    Some(ad) => c2.mux_address = ad,
                    None => {},
                }
            }
        } else if str_eq(a, "--interval") || str_eq(a, "-i") {
            if i + 1 < n {
                match parse_u64(args[i + 1].as_str()) {
                    Some(s) => c2.interval_seconds = s,
                    None => {},
                }
            }
        } else {
            match strip_prefix(a, "--interval=") {
                Some(rest) => {
                    match parse_u64(rest) {
                        Some(s) => c2.interval_seconds = s,
                        None => {},
                    }
                },
                None => {
                    match strip_prefix(a, "--mux-channel=") {
                        Some(rest) => {
                            match parse_u8(rest) {
                                Some(c) => if c <= 7 {
                                    c2.mux_channel = c;
                                    c2.use_multiplexer = true;
                                },
                                None => {},
                            }
                        },
                        None => {},
                    }
                },
            }
        }
        proof {
            assert(c2 == apply_arg(cfg, vargs[i as int], next));
        }
        cfg = c2;
        i = i + 1;
    }
    (cfg, false)
}

} // verus!
