//! Where the CSV stream goes, and what goes out before it.

use vstd::prelude::*;

verus! {

/// What to do with the output.
#[derive(Clone, Copy, Debug, PartialEq, Eq, Structural)]
pub enum OutputPlan {
    /// No file was named: write to standard output.
    Stdout,
    /// A file was named and does not exist yet: create it and write to it.
    NewFile { with_bom: bool },
    /// A file was named, and it exists or it could not be told whether it
    /// does: write nothing.
    Refuse,
}

/// The plan for the given request. `confirmed_absent` says that the named
/// file was looked for and is not there. Asking to overwrite changes
/// nothing: an existing file is never written to.
pub open spec fn planned(file_named: bool, confirmed_absent: bool, with_bom: bool) -> OutputPlan {
    if !file_named {
        OutputPlan::Stdout
    } else if confirmed_absent {
        OutputPlan::NewFile { with_bom }
    } else {
        OutputPlan::Refuse
    }
}

/// The UTF-8 byte-order mark.
pub open spec fn byte_order_mark() -> Seq<u8> {
    seq![0xefu8, 0xbbu8, 0xbfu8]
}

/// The bytes that go out before the header: the byte-order mark where a new
/// file was asked to start with one, and nothing otherwise.
pub open spec fn preamble_of(plan: OutputPlan) -> Seq<u8> {
    match plan {
        OutputPlan::NewFile { with_bom: true } => byte_order_mark(),
        _ => Seq::empty(),
    }
}

/// Decides where the output goes: see `planned`.
pub fn plan_output(file_named: bool, confirmed_absent: bool, _force: bool, with_bom: bool) -> (plan:
    OutputPlan)
    ensures
        plan == planned(file_named, confirmed_absent, with_bom),
{
    if !file_named {
        OutputPlan::Stdout
    } else if confirmed_absent {
        OutputPlan::NewFile { with_bom }
    } else {
        OutputPlan::Refuse
    }
}

/// The bytes to write before the header: see `preamble_of`.
pub fn preamble(plan: OutputPlan) -> (bytes: Vec<u8>)
    ensures
        bytes@ == preamble_of(plan),
{
    let mut bytes: Vec<u8> = Vec::new();
    match plan {
        OutputPlan::NewFile { with_bom: true } => {
            bytes.push(0xef);
            bytes.push(0xbb);
            bytes.push(0xbf);
        },
        _ => {},
    }
    bytes
}

} // verus!
