//! Which usage text a `help` request is answered with.

use crate::text::same_text;
use vstd::prelude::*;

verus! {

/// A usage text.
#[derive(Clone, Copy, Debug, PartialEq, Eq, Structural)]
pub enum HelpTopic {
    /// The usage of `init`.
    Init,
    /// The general usage.
    Main,
}

/// Routes the arguments of `help`: `init` asks for the usage of `init`,
/// anything else, or nothing, for the general usage.
pub fn router(args: &[String]) -> (topic: HelpTopic)
    ensures
        topic == (if args@.len() > 0 && args@[0]@ == "init"@ {
            HelpTopic::Init
        } else {
            HelpTopic::Main
        }),
{
    if args.len() > 0 && same_text(args[0].as_str(), "init") {
        HelpTopic::Init
    } else {
        HelpTopic::Main
    }
}

} // verus!
