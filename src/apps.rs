//! Responders: what answers the decoded text of a capture.
use vstd::prelude::*;

use crate::symbol::{trimmed, CwString, CwSymbol};

verus! {

/// Something that answers decoded text with text to play back. It must
/// return, if only with an empty reply.
pub trait CwController {
    fn tick(&mut self, input: CwString) -> CwString;
}

/// Answers with the text it was given.
#[derive(Clone, Copy, Debug, Default)]
pub struct Echo;

impl CwController for Echo {
    fn tick(&mut self, input: CwString) -> (r: CwString)
        ensures
            r@ == input@,
    {
        input
    }
}

/// The name that starts the echo app.
pub open spec fn echo_name() -> Seq<CwSymbol> {
    seq![CwSymbol::E, CwSymbol::C]
}

/// What the launcher answers, with `selected` the app chosen so far: once
/// an app runs, that app answers; before, a known name (blanks aside)
/// starts its app and is echoed, blank text gets an empty reply, and
/// anything else a question mark.
pub open spec fn launcher_reply(selected: Option<Seq<CwSymbol>>, input: Seq<CwSymbol>) -> Seq<
    CwSymbol,
> {
    match selected {
        Some(name) => if name == echo_name() {
            input
        } else {
            seq![CwSymbol::Question]
        },
        None => {
            let name = trimmed(input);
            if name == echo_name() {
                name
            } else if name.len() == 0 {
                seq![]
            } else {
                seq![CwSymbol::Question]
            }
        },
    }
}

/// The app chosen after the launcher has answered `input`.
pub open spec fn launcher_selection(
    selected: Option<Seq<CwSymbol>>,
    input: Seq<CwSymbol>,
) -> Option<Seq<CwSymbol>> {
    if selected is None && trimmed(input) == echo_name() {
        Some(echo_name())
    } else {
        selected
    }
}

/// Starts an app by name, then hands every reply to it.
#[derive(Clone, Debug, Default)]
pub struct AppLauncher {
    selected_app: Option<CwString>,
}

impl View for AppLauncher {
    type V = Option<Seq<CwSymbol>>;

    closed spec fn view(&self) -> Option<Seq<CwSymbol>> {
        match self.selected_app {
            Some(name) => Some(name@),
            None => None,
        }
    }
}

fn is_echo_name(name: &CwString) -> (r: bool)
    ensures
        r == (name@ == echo_name()),
{
    let r = name.0.len() == 2 && name.0[0] == CwSymbol::E && name.0[1] == CwSymbol::C;
    proof {
        if name@.len() == 2 && name@[0] == CwSymbol::E && name@[1] == CwSymbol::C {
            assert(name@ == echo_name());
        }
    }
    r
}

/// The answer to text that no app takes.
fn idk() -> (r: CwString)
    ensures
        r@ == seq![CwSymbol::Question],
{
    CwString(vec![CwSymbol::Question])
}

impl AppLauncher {
    pub fn new() -> (r: AppLauncher)
        ensures
            r@ is None,
    {
        AppLauncher { selected_app: None }
    }
}

impl CwController for AppLauncher {
    fn tick(&mut self, input: CwString) -> (r: CwString)
        ensures
            r@ == launcher_reply(old(self)@, input@),
            final(self)@ == launcher_selection(old(self)@, input@),
    {
        match &self.selected_app {
            Some(app_name) => {
                if is_echo_name(app_name) {
                    Echo.tick(input)
                } else {
                    idk()
                }
            },
            None => {
                let name = input.normalized();
                if is_echo_name(&name) {
                    self.selected_app = Some(CwString(vec![CwSymbol::E, CwSymbol::C]));
                    name
                } else if name.0.len() == 0 {
                    CwString(Vec::new())
                } else {
                    idk()
                }
            },
        }
    }
}

} // verus!
