//! Interpretation of the argument vector.
use vstd::prelude::*;
use vstd::utf8::encode_utf8_decode_utf8;

verus! {

/// The audio endpoint a command addresses.
#[derive(Clone, Copy, Debug, PartialEq, Eq, Structural)]
pub enum Device {
    /// The default rendering endpoint, selected by `out`.
    Output,
    /// The default capture endpoint, selected by `in`.
    Input,
}

/// How the volume scalar of the addressed endpoint is to change.
#[derive(Clone, Copy, Debug, PartialEq, Eq, Structural)]
pub enum Change {
    /// `inc`: one step of a hundredth up from the current scalar.
    Increment,
    /// `dec`: one step of a hundredth down from the current scalar.
    Decrement,
    /// Any other word: the word itself is to be read as the new scalar.
    Absolute,
}

/// What one run of the tool is asked to do.
#[derive(Clone, Copy, Debug, PartialEq, Eq, Structural)]
pub enum Invocation {
    /// Print the current volume of the default output endpoint, then that of
    /// the default input endpoint.
    Report,
    /// Change the volume of one endpoint.
    Adjust { device: Device, change: Change },
    /// Print the usage text.
    Usage,
}

/// The endpoint that a device word names, if it names one.
pub open spec fn device_of(word: Seq<char>) -> Option<Device> {
    if word == "out"@ {
        Some(Device::Output)
    } else if word == "in"@ {
        Some(Device::Input)
    } else {
        None
    }
}

/// The change that a volume word names. Every word names one: what is neither
/// `inc` nor `dec` stands for an absolute value.
pub open spec fn change_of(word: Seq<char>) -> Change {
    if word == "inc"@ {
        Change::Increment
    } else if word == "dec"@ {
        Change::Decrement
    } else {
        Change::Absolute
    }
}

/// The command that an argument vector names. The first element is the
/// program's own name and is never read.
pub open spec fn invocation_of(args: Seq<String>) -> Invocation {
    if args.len() == 1 {
        Invocation::Report
    } else if args.len() == 3 {
        match device_of(args[1]@) {
            Some(device) => Invocation::Adjust { device, change: change_of(args[2]@) },
            None => Invocation::Usage,
        }
    } else {
        Invocation::Usage
    }
}

/// Whether two strings hold the same characters. It compares their UTF-8
/// encodings byte by byte: the encoding determines the characters.
fn same_text(a: &str, b: &str) -> (same: bool)
    ensures
        same == (a@ == b@),
{
    let x = a.as_bytes();
    let y = b.as_bytes();
    proof {
        encode_utf8_decode_utf8(a@);
        encode_utf8_decode_utf8(b@);
    }
    if x.len() != y.len() {
        return false;
    }
    let mut i: usize = 0;
    while i < x.len()
        invariant
            x@.len() == y@.len(),
            i <= x@.len(),
            forall|j: int| 0 <= j < i ==> x@[j] == y@[j],
            x@ != y@ ==> a@ != b@,
        decreases x@.len() - i,
    {
        if x[i] != y[i] {
            return false;
        }
        i += 1;
    }
    assert(x@ =~= y@);
    true
}

/// Reads the device word of a command line.
pub fn select_device(word: &str) -> (device: Option<Device>)
    ensures
        device == device_of(word@),
{
    if same_text(word, "out") {
        Some(Device::Output)
    } else if same_text(word, "in") {
        Some(Device::Input)
    } else {
        None
    }
}

/// Reads the volume word of a command line.
pub fn select_change(word: &str) -> (change: Change)
    ensures
        change == change_of(word@),
{
    if same_text(word, "inc") {
        Change::Increment
    } else if same_text(word, "dec") {
        Change::Decrement
    } else {
        Change::Absolute
    }
}

/// Reads a whole argument vector. The vector holds at least the program's
/// name, as every vector that a process is started with does.
pub fn interpret(args: &[String]) -> (invocation: Invocation)
    requires
        args@.len() >= 1,
    ensures
        invocation == invocation_of(args@),
{
    if args.len() == 1 {
        Invocation::Report
    } else if args.len() == 3 {
        match select_device(args[1].as_str()) {
            Some(device) => Invocation::Adjust { device, change: select_change(args[2].as_str()) },
            None => Invocation::Usage,
        }
    } else {
        Invocation::Usage
    }
}

} // verus!
