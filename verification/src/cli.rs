//! The command model: one request per invocation, carrying the chosen
//! operation, its numeric arguments, the representation, and whether a
//! descriptive comment is appended to the printed line.

use crate::ops::{fill, fill_spec, invert, invert_spec, set_spec};
use crate::text::{dec_digits, dec_string, format_output, formatted, Representation};
use vstd::prelude::*;
use vstd::string::*;

verus! {

/// Arguments of the `fill` subcommand.
#[derive(Clone, Debug, PartialEq, Eq, Structural)]
pub struct Fill {
    pub count: usize,
    pub rep: Representation,
    pub comment: bool,
}

/// Arguments of the `set` subcommand.
#[derive(Clone, Debug, PartialEq, Eq, Structural)]
pub struct SetCmd {
    pub count: usize,
    pub rep: Representation,
    pub comment: bool,
}

/// Arguments of the `invert` subcommand.
#[derive(Clone, Debug, PartialEq, Eq, Structural)]
pub struct Invert {
    pub count: usize,
    pub width: usize,
    pub rep: Representation,
    pub comment: bool,
}

/// One parsed invocation: the subcommand with its arguments.
#[derive(Clone, Debug, PartialEq, Eq, Structural)]
pub enum SubCommand {
    Fill(Fill),
    SetCmd(SetCmd),
    Invert(Invert),
}

/// Comment suffix of the `fill` subcommand.
pub open spec fn fill_commentary(count: usize) -> Seq<char> {
    "full bitmap of "@ + dec_digits(count as nat) + " bits"@
}

/// Comment suffix of the `set` subcommand.
pub open spec fn set_commentary(count: usize) -> Seq<char> {
    "single bit set at index "@ + dec_digits(count as nat)
}

/// Comment suffix of the `invert` subcommand; the printed index is the
/// 0-indexed position of the cleared bit.
pub open spec fn invert_commentary(count: usize, width: usize) -> Seq<char>
    recommends
        count >= 1,
{
    "inverted bitmap at index "@ + dec_digits((count - 1) as nat) + " of width "@ + dec_digits(
        width as nat,
    )
}

impl Fill {
    /// The comment suffix, present exactly when the flag was given.
    pub fn commentary_string(&self) -> (r: Option<String>)
        ensures
            r is Some <==> self.comment,
            r matches Some(s) ==> s@ == fill_commentary(self.count),
    {
        if self.comment {
            let mut s = String::from_str("full bitmap of ");
            let num = dec_string(self.count);
            s.append(num.as_str());
            s.append(" bits");
            Some(s)
        } else {
            None
        }
    }
}

impl SetCmd {
    /// The comment suffix, present exactly when the flag was given.
    pub fn commentary_string(&self) -> (r: Option<String>)
        ensures
            r is Some <==> self.comment,
            r matches Some(s) ==> s@ == set_commentary(self.count),
    {
        if self.comment {
            let mut s = String::from_str("single bit set at index ");
            let num = dec_string(self.count);
            s.append(num.as_str());
            Some(s)
        } else {
            None
        }
    }
}

impl Invert {
    /// The comment suffix, present exactly when the flag was given.
    pub fn commentary_string(&self) -> (r: Option<String>)
        requires
            self.comment ==> self.count >= 1,
        ensures
            r is Some <==> self.comment,
            r matches Some(s) ==> s@ == invert_commentary(self.count, self.width),
    {
        if self.comment {
            let mut s = String::from_str("inverted bitmap at index ");
            let idx = dec_string(self.count - 1);
            s.append(idx.as_str());
            s.append(" of width ");
            let w = dec_string(self.width);
            s.append(w.as_str());
            Some(s)
        } else {
            None
        }
    }
}

/// The comment of `invert` names its cleared bit, so a comment there
/// asks for a count of at least one; the other subcommands are free.
pub open spec fn commentary_wf(c: SubCommand) -> bool {
    match c {
        SubCommand::Invert(i) => i.comment ==> i.count >= 1,
        _ => true,
    }
}

/// The comment suffix a subcommand carries, if its flag was given.
pub open spec fn sub_commentary(c: SubCommand) -> Option<Seq<char>> {
    match c {
        SubCommand::Fill(f) => if f.comment {
            Some(fill_commentary(f.count))
        } else {
            None
        },
        SubCommand::SetCmd(s) => if s.comment {
            Some(set_commentary(s.count))
        } else {
            None
        },
        SubCommand::Invert(i) => if i.comment {
            Some(invert_commentary(i.count, i.width))
        } else {
            None
        },
    }
}

/// The mask a subcommand computes.
pub open spec fn sub_number(c: SubCommand) -> usize {
    match c {
        SubCommand::Fill(f) => fill_spec(f.count),
        SubCommand::SetCmd(s) => set_spec(s.count),
        SubCommand::Invert(i) => invert_spec(i.count, i.width),
    }
}

/// The representation a subcommand renders under.
pub open spec fn sub_rep(c: SubCommand) -> Representation {
    match c {
        SubCommand::Fill(f) => f.rep,
        SubCommand::SetCmd(s) => s.rep,
        SubCommand::Invert(i) => i.rep,
    }
}

/// The one line an invocation prints: the rendered mask, then, when
/// the comment flag was given, ` #` and the comment suffix.
pub open spec fn output_line(c: SubCommand) -> Seq<char> {
    match sub_commentary(c) {
        Some(com) => formatted(sub_number(c) as nat, sub_rep(c)) + " #"@ + com,
        None => formatted(sub_number(c) as nat, sub_rep(c)),
    }
}

impl SubCommand {
    /// The arguments lie within the machine word and, when a comment is
    /// asked of `invert`, its count names an actual bit.
    pub open spec fn wf(self) -> bool {
        match self {
            SubCommand::Fill(f) => f.count < usize::BITS,
            SubCommand::SetCmd(s) => s.count <= usize::BITS,
            SubCommand::Invert(i) => i.count <= usize::BITS && (i.count > 0 ==> i.width
                < usize::BITS) && (i.comment ==> i.count >= 1),
        }
    }

    /// The comment suffix of whichever subcommand this is.
    pub fn commentary_string(&self) -> (r: Option<String>)
        requires
            commentary_wf(*self),
        ensures
            r is Some <==> sub_commentary(*self) is Some,
            r matches Some(s) ==> sub_commentary(*self) == Some(s@),
    {
        match self {
            SubCommand::Fill(f) => f.commentary_string(),
            SubCommand::SetCmd(s) => s.commentary_string(),
            SubCommand::Invert(i) => i.commentary_string(),
        }
    }

    /// Compute the mask of this subcommand.
    pub fn number(&self) -> (r: usize)
        requires
            self.wf(),
        ensures
            r == sub_number(*self),
    {
        match self {
            SubCommand::Fill(f) => fill(f.count),
            SubCommand::SetCmd(s) => crate::ops::set(s.count),
            SubCommand::Invert(i) => invert(i.count, i.width),
        }
    }
}

/// Build the full line an invocation prints: the formatted mask and,
/// when asked for, the descriptive comment behind ` #`.
pub fn render_line(cmd: &SubCommand) -> (r: String)
    requires
        cmd.wf(),
    ensures
        r@ == output_line(*cmd),
{
    let number = cmd.number();
    let rep = match cmd {
        SubCommand::Fill(f) => f.rep,
        SubCommand::SetCmd(s) => s.rep,
        SubCommand::Invert(i) => i.rep,
    };
    let mut out = format_output(number, rep);
    match cmd.commentary_string() {
        Some(c) => {
            out.append(" #");
            out.append(c.as_str());
            out
        }
        None => out,
    }
}

} // verus!
