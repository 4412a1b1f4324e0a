//! What the program is asked to do.

use std::str::FromStr;
use vstd::prelude::*;
use crate::text::chars_of;

verus! {

/// The options of the program.
#[derive(Debug)]
pub struct Opts {
    pub subcmd: SubCommand,
}

/// What the program is to do.
#[derive(Debug)]
pub enum SubCommand {
    /// Read the pointer devices of this machine.
    Host(HostOpts),
}

/// The input system that the pointer devices are read from.
#[derive(Clone, Copy, Debug, PartialEq, Eq, Structural)]
pub enum HostDriver {
    X11,
}

/// The options of the `Host` subcommand.
#[derive(Debug)]
pub struct HostOpts {
    pub driver: HostDriver,
}

impl HostDriver {
    /// The driver of a given name. The one name that is known is `x11`, in
    /// lower case; any other string is turned away with the message
    /// `no match`.
    pub fn parse(s: &str) -> (r: Result<HostDriver, &'static str>)
        ensures
            s@ == "x11"@ ==> r == Ok::<HostDriver, &'static str>(HostDriver::X11),
            s@ != "x11"@ ==> r is Err && r->Err_0@ == "no match"@,
    {
        proof {
            reveal_strlit("x11");
        }
        let chars = chars_of(s);
        if chars.len() == 3 && chars[0] == 'x' && chars[1] == '1' && chars[2] == '1' {
            assert(s@ =~= "x11"@);
            Ok(HostDriver::X11)
        } else {
            Err("no match")
        }
    }
}

impl FromStr for HostDriver {
    type Err = &'static str;

    /// The driver of a given name, as `parse` finds it.
    fn from_str(s: &str) -> (r: Result<Self, Self::Err>)
        ensures
            s@ == "x11"@ ==> r == Ok::<HostDriver, &'static str>(HostDriver::X11),
            s@ != "x11"@ ==> r is Err && r->Err_0@ == "no match"@,
    {
        HostDriver::parse(s)
    }
}

} // verus!
