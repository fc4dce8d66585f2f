//! The platform-facing capabilities: the platform identifier, and the
//! distillation of the OS answers for the foreground application name and
//! the current selection. The OS queries themselves happen outside the
//! library; these functions receive their raw answers as plain values.

use vstd::prelude::*;
use vstd::string::StringExecFns;
use crate::text::{all_ws, str_is_blank, trim_seq, trim_str};

verus! {

/// The operating-system families the capture feature distinguishes.
#[derive(Clone, Copy, Debug, PartialEq, Eq, Structural)]
pub enum OsFamily {
    MacOs,
    Windows,
    Linux,
    Other,
}

/// The fixed identifier reported for each family, with "unknown" for any
/// unrecognized one.
pub open spec fn platform_id_spec(f: OsFamily) -> Seq<char> {
    match f {
        OsFamily::MacOs => "macos"@,
        OsFamily::Windows => "windows"@,
        OsFamily::Linux => "linux"@,
        OsFamily::Other => "unknown"@,
    }
}

/// The platform identifier for the running family.
pub fn get_platform(family: OsFamily) -> (r: String)
    ensures
        r@ == platform_id_spec(family),
{
    match family {
        OsFamily::MacOs => String::from_str("macos"),
        OsFamily::Windows => String::from_str("windows"),
        OsFamily::Linux => String::from_str("linux"),
        OsFamily::Other => String::from_str("unknown"),
    }
}

/// The foreground application name, distilled from the raw answer of the
/// OS query (`None` where the platform has no implementation or the query
/// failed): the answer trimmed, or `None` when nothing visible is left.
pub fn get_active_app(query: Option<String>) -> (r: Option<String>)
    ensures
        (r is Some) <==> (query matches Some(a) && trim_seq(a@).len() > 0),
        r matches Some(name) ==> (query matches Some(a) && name@ == trim_seq(a@)),
{
    match query {
        Option::None => Option::None,
        Option::Some(a) => {
            let name = trim_str(a.as_str());
            if name.as_str().is_empty() {
                Option::None
            } else {
                Option::Some(name)
            }
        },
    }
}

/// The current selection, distilled from the raw answer of the OS
/// clipboard read (`None` where the platform has no implementation or the
/// read failed): the text exactly as read, or `None` when it is blank.
pub fn get_selected_text(clipboard: Option<String>) -> (r: Option<String>)
    ensures
        (r is Some) <==> (clipboard matches Some(t) && !all_ws(t@)),
        r matches Some(u) ==> (clipboard matches Some(t) && u == t),
{
    match clipboard {
        Option::None => Option::None,
        Option::Some(t) => {
            if str_is_blank(t.as_str()) {
                Option::None
            } else {
                Option::Some(t)
            }
        },
    }
}

} // verus!
