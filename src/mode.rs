use vstd::prelude::*;

use crate::text::str_eq;

verus! {

/// The way the watchdog hands a request to the user's function.
#[derive(Clone, Copy, Debug, PartialEq, Eq, Structural)]
pub enum WatchdogMode {
    ModeUnknown,
    ModeStreaming,
    ModeAfterBurn,
    ModeSerializing,
    ModeHTTP,
    ModeStatic,
    ModeWasm,
}

/// The mode at position `i` of the mode table; every other position is unknown.
pub open spec fn mode_at(i: int) -> WatchdogMode {
    if i == 1 {
        WatchdogMode::ModeStreaming
    } else if i == 2 {
        WatchdogMode::ModeAfterBurn
    } else if i == 3 {
        WatchdogMode::ModeSerializing
    } else if i == 4 {
        WatchdogMode::ModeHTTP
    } else if i == 5 {
        WatchdogMode::ModeStatic
    } else if i == 6 {
        WatchdogMode::ModeWasm
    } else {
        WatchdogMode::ModeUnknown
    }
}

/// The name that configuration text uses for a mode.
pub open spec fn mode_name(m: WatchdogMode) -> Seq<char> {
    match m {
        WatchdogMode::ModeUnknown => "unknown"@,
        WatchdogMode::ModeStreaming => "streaming"@,
        WatchdogMode::ModeAfterBurn => "afterburn"@,
        WatchdogMode::ModeSerializing => "serializing"@,
        WatchdogMode::ModeHTTP => "http"@,
        WatchdogMode::ModeStatic => "static"@,
        WatchdogMode::ModeWasm => "wasm"@,
    }
}

/// The mode named by `s`; a name outside the table gives `ModeUnknown`.
pub open spec fn mode_of_name(s: Seq<char>) -> WatchdogMode {
    if s == "streaming"@ {
        WatchdogMode::ModeStreaming
    } else if s == "afterburn"@ {
        WatchdogMode::ModeAfterBurn
    } else if s == "serializing"@ {
        WatchdogMode::ModeSerializing
    } else if s == "http"@ {
        WatchdogMode::ModeHTTP
    } else if s == "static"@ {
        WatchdogMode::ModeStatic
    } else if s == "wasm"@ {
        WatchdogMode::ModeWasm
    } else {
        WatchdogMode::ModeUnknown
    }
}

impl WatchdogMode {
    /// The mode at a position of the mode table.
    pub fn from_index(num: usize) -> (r: WatchdogMode)
        ensures
            r == mode_at(num as int),
    {
        match num {
            1 => WatchdogMode::ModeStreaming,
            2 => WatchdogMode::ModeAfterBurn,
            3 => WatchdogMode::ModeSerializing,
            4 => WatchdogMode::ModeHTTP,
            5 => WatchdogMode::ModeStatic,
            6 => WatchdogMode::ModeWasm,
            _ => WatchdogMode::ModeUnknown,
        }
    }

    /// The mode named by `s`.
    pub fn from_name(s: &str) -> (r: WatchdogMode)
        ensures
            r == mode_of_name(s@),
    {
        if str_eq(s, "streaming") {
            WatchdogMode::ModeStreaming
        } else if str_eq(s, "afterburn") {
            WatchdogMode::ModeAfterBurn
        } else if str_eq(s, "serializing") {
            WatchdogMode::ModeSerializing
        } else if str_eq(s, "http") {
            WatchdogMode::ModeHTTP
        } else if str_eq(s, "static") {
            WatchdogMode::ModeStatic
        } else if str_eq(s, "wasm") {
            WatchdogMode::ModeWasm
        } else {
            WatchdogMode::ModeUnknown
        }
    }

    /// The name of this mode.
    pub fn name(&self) -> (r: &'static str)
        ensures
            r@ == mode_name(*self),
    {
        match self {
            WatchdogMode::ModeUnknown => "unknown",
            WatchdogMode::ModeStreaming => "streaming",
            WatchdogMode::ModeAfterBurn => "afterburn",
            WatchdogMode::ModeSerializing => "serializing",
            WatchdogMode::ModeHTTP => "http",
            WatchdogMode::ModeStatic => "static",
            WatchdogMode::ModeWasm => "wasm",
        }
    }

    /// The name of this mode, as an owned string.
    pub fn to_string(&self) -> (r: String)
        ensures
            r@ == mode_name(*self),
    {
        String::from_str(self.name())
    }
}

impl From<usize> for WatchdogMode {
    fn from(num: usize) -> (r: WatchdogMode) {
        WatchdogMode::from_index(num)
    }
}

impl vstd::std_specs::convert::FromSpecImpl<usize> for WatchdogMode {
    open spec fn obeys_from_spec() -> bool {
        true
    }

    open spec fn from_spec(num: usize) -> WatchdogMode {
        mode_at(num as int)
    }
}

impl From<&str> for WatchdogMode {
    fn from(s: &str) -> (r: WatchdogMode) {
        WatchdogMode::from_name(s)
    }
}

impl vstd::std_specs::convert::FromSpecImpl<&str> for WatchdogMode {
    open spec fn obeys_from_spec() -> bool {
        true
    }

    open spec fn from_spec(s: &str) -> WatchdogMode {
        mode_of_name(s@)
    }
}

impl From<String> for WatchdogMode {
    fn from(s: String) -> (r: WatchdogMode) {
        WatchdogMode::from_name(s.as_str())
    }
}

impl vstd::std_specs::convert::FromSpecImpl<String> for WatchdogMode {
    open spec fn obeys_from_spec() -> bool {
        true
    }

    open spec fn from_spec(s: String) -> WatchdogMode {
        mode_of_name(s@)
    }
}

impl From<WatchdogMode> for String {
    fn from(mode: WatchdogMode) -> (r: String) {
        mode.to_string()
    }
}

impl vstd::std_specs::convert::FromSpecImpl<WatchdogMode> for String {
    open spec fn obeys_from_spec() -> bool {
        false
    }

    open spec fn from_spec(mode: WatchdogMode) -> String {
        arbitrary()
    }
}

/// A mode's name reads back as the same mode.
pub proof fn lemma_name_round_trip(m: WatchdogMode)
    ensures
        mode_of_name(mode_name(m)) == m,
{
    reveal_strlit("unknown");
    reveal_strlit("streaming");
    reveal_strlit("afterburn");
    reveal_strlit("serializing");
    reveal_strlit("http");
    reveal_strlit("static");
    reveal_strlit("wasm");
    let names = seq!["unknown"@, "streaming"@, "afterburn"@, "serializing"@, "http"@, "static"@, "wasm"@];
    assert(names[0].len() == 7 && names[1].len() == 9 && names[2].len() == 9);
    assert(names[3].len() == 11 && names[4].len() == 4 && names[5].len() == 6);
    assert(names[6].len() == 4);
    assert(names[1][1] != names[2][1]);
    assert(names[4][0] != names[6][0]);
}

} // verus!
