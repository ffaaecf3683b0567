use std::sync::Arc;
use vstd::prelude::*;

use crate::util::{bool_switch, switch_text};

verus! {

/// One of the four switches local to the scripted entity.
#[derive(Clone, Copy, Debug, PartialEq, Eq, Structural)]
pub enum SelfSwitch {
    A,
    B,
    C,
    D,
}

impl SelfSwitch {
    /// The letter that names the switch.
    pub open spec fn letter(self) -> char {
        match self {
            SelfSwitch::A => 'A',
            SelfSwitch::B => 'B',
            SelfSwitch::C => 'C',
            SelfSwitch::D => 'D',
        }
    }

    /// Renders the switch as its letter.
    pub fn to_string(&self) -> (r: String)
        ensures
            r@ == seq![self.letter()],
    {
        match *self {
            SelfSwitch::A => {
                proof { reveal_strlit("A"); }
                String::from_str("A")
            },
            SelfSwitch::B => {
                proof { reveal_strlit("B"); }
                String::from_str("B")
            },
            SelfSwitch::C => {
                proof { reveal_strlit("C"); }
                String::from_str("C")
            },
            SelfSwitch::D => {
                proof { reveal_strlit("D"); }
                String::from_str("D")
            },
        }
    }
}

/// One step of an event script.
#[derive(Clone, Debug)]
pub enum ScriptInstruction {
    NoOp,
    Wait(u32),
    ControlSelfSwitch(SelfSwitch, bool),
    PluginCommand(String),
    Script(String),
}

pub type ScriptEntry = ScriptInstruction;

/// The character of a decimal digit.
pub open spec fn digit_char(d: nat) -> char {
    if d == 0 {
        '0'
    } else if d == 1 {
        '1'
    } else if d == 2 {
        '2'
    } else if d == 3 {
        '3'
    } else if d == 4 {
        '4'
    } else if d == 5 {
        '5'
    } else if d == 6 {
        '6'
    } else if d == 7 {
        '7'
    } else if d == 8 {
        '8'
    } else {
        '9'
    }
}

/// The decimal notation of `n`, without leading zeros.
pub open spec fn decimal(n: nat) -> Seq<char>
    decreases n,
{
    if n < 10 {
        seq![digit_char(n)]
    } else {
        decimal(n / 10) + seq![digit_char(n % 10)]
    }
}

impl ScriptInstruction {
    /// The canonical display text of the instruction.
    pub open spec fn text(self) -> Seq<char> {
        match self {
            ScriptInstruction::NoOp => "No Operation"@,
            ScriptInstruction::Wait(frames) => "Wait: "@ + decimal(frames as nat) + " frame"@ + (
            if frames == 1 {
                Seq::<char>::empty()
            } else {
                "s"@
            }),
            ScriptInstruction::ControlSelfSwitch(s, on) => "Control Self Switch: "@ + seq![
                s.letter(),
            ] + " = "@ + switch_text(on),
            ScriptInstruction::PluginCommand(args) => "Plugin Command: "@ + args@,
            ScriptInstruction::Script(body) => "Script: "@ + body@,
        }
    }

    /// Structural equality, with text payloads compared by content.
    pub open spec fn same_as(self, other: Self) -> bool {
        match self {
            ScriptInstruction::NoOp => other is NoOp,
            ScriptInstruction::Wait(a) => other matches ScriptInstruction::Wait(b) && a == b,
            ScriptInstruction::ControlSelfSwitch(s, v) => other matches ScriptInstruction::ControlSelfSwitch(t, w)
                && s == t && v == w,
            ScriptInstruction::PluginCommand(a) => other matches ScriptInstruction::PluginCommand(b)
                && a@ == b@,
            ScriptInstruction::Script(a) => other matches ScriptInstruction::Script(b) && a@ == b@,
        }
    }

    /// Renders the instruction as its canonical display text.
    pub fn to_string(&self) -> (r: String)
        ensures
            r@ == self.text(),
    {
        match self {
            ScriptInstruction::NoOp => {
                proof { reveal_strlit("No Operation"); }
                String::from_str("No Operation")
            },
            ScriptInstruction::Wait(frames) => {
                let mut s = String::from_str("Wait: ");
                push_decimal(&mut s, *frames);
                s.append(" frame");
                if *frames != 1 {
                    s.append("s");
                }
                proof {
                    assert(s@ =~= self.text());
                }
                s
            },
            ScriptInstruction::ControlSelfSwitch(swi, on) => {
                let mut s = String::from_str("Control Self Switch: ");
                let letter = swi.to_string();
                s.append(letter.as_str());
                s.append(" = ");
                let state = bool_switch(on).to_string();
                s.append(state.as_str());
                s
            },
            ScriptInstruction::PluginCommand(args) => {
                let mut s = String::from_str("Plugin Command: ");
                s.append(args.as_str());
                s
            },
            ScriptInstruction::Script(body) => {
                let mut s = String::from_str("Script: ");
                s.append(body.as_str());
                s
            },
        }
    }
}

impl PartialEq for ScriptInstruction {
    fn eq(&self, other: &ScriptInstruction) -> (r: bool)
        ensures
            r == self.same_as(*other),
    {
        match self {
            ScriptInstruction::NoOp => match other {
                ScriptInstruction::NoOp => true,
                _ => false,
            },
            ScriptInstruction::Wait(a) => match other {
                ScriptInstruction::Wait(b) => *a == *b,
                _ => false,
            },
            ScriptInstruction::ControlSelfSwitch(s, v) => match other {
                ScriptInstruction::ControlSelfSwitch(t, w) => *s == *t && *v == *w,
                _ => false,
            },
            ScriptInstruction::PluginCommand(a) => match other {
                ScriptInstruction::PluginCommand(b) => *a == *b,
                _ => false,
            },
            ScriptInstruction::Script(a) => match other {
                ScriptInstruction::Script(b) => *a == *b,
                _ => false,
            },
        }
    }
}

impl vstd::std_specs::cmp::PartialEqSpecImpl for ScriptInstruction {
    open spec fn obeys_eq_spec() -> bool {
        true
    }

    open spec fn eq_spec(&self, other: &ScriptInstruction) -> bool {
        self.same_as(*other)
    }
}

/// The decimal digit `d` as a one-character string.
fn digit_str(d: u32) -> (r: &'static str)
    requires
        d < 10,
    ensures
        r@ == seq![digit_char(d as nat)],
{
    if d == 0 {
        proof { reveal_strlit("0"); }
        "0"
    } else if d == 1 {
        proof { reveal_strlit("1"); }
        "1"
    } else if d == 2 {
        proof { reveal_strlit("2"); }
        "2"
    } else if d == 3 {
        proof { reveal_strlit("3"); }
        "3"
    } else if d == 4 {
        proof { reveal_strlit("4"); }
        "4"
    } else if d == 5 {
        proof { reveal_strlit("5"); }
        "5"
    } else if d == 6 {
        proof { reveal_strlit("6"); }
        "6"
    } else if d == 7 {
        proof { reveal_strlit("7"); }
        "7"
    } else if d == 8 {
        proof { reveal_strlit("8"); }
        "8"
    } else {
        proof { reveal_strlit("9"); }
        "9"
    }
}

/// Appends the decimal notation of `n` to `s`.
fn push_decimal(s: &mut String, n: u32)
    ensures
        final(s)@ == old(s)@ + decimal(n as nat),
    decreases n,
{
    if n >= 10 {
        push_decimal(s, n / 10);
    }
    s.append(digit_str(n % 10));
    proof {
        assert(final(s)@ =~= old(s)@ + decimal(n as nat));
    }
}

/// An ordered sequence of instructions, shared between snapshots.
#[derive(Clone)]
pub struct Script {
    pub contents: Arc<Vec<ScriptEntry>>,
}

impl Script {
    /// An empty script.
    pub fn new() -> (r: Script)
        ensures
            r.contents@.len() == 0,
    {
        Script::new_with(Vec::new())
    }

    /// A script holding the given instructions, in order.
    pub fn new_with(contents: Vec<ScriptEntry>) -> (r: Script)
        ensures
            r.contents@ == contents@,
    {
        Script { contents: Arc::new(contents) }
    }

    /// The instructions of the script, in order.
    pub fn contents(&self) -> (r: &Vec<ScriptEntry>)
        ensures
            r@ == self.contents@,
    {
        &*self.contents
    }
}

/// A short sample script: a wait, a message, two switches and a script call.
pub fn build_test_script() -> (r: Script)
    ensures
        r.contents@.len() == 5,
        r.contents@[0] == ScriptInstruction::Wait(10),
        r.contents@[1] matches ScriptInstruction::PluginCommand(a) && a@
            == "ShowMessage fa_map_flavor.message_366"@,
        r.contents@[2] == ScriptInstruction::ControlSelfSwitch(SelfSwitch::A, true),
        r.contents@[3] matches ScriptInstruction::Script(b) && b@
            == "$game.doThings(true);\n$game.doMoreThings(\"lol\");"@,
        r.contents@[4] == ScriptInstruction::ControlSelfSwitch(SelfSwitch::B, true),
{
    let mut vec: Vec<ScriptEntry> = Vec::new();
    vec.push(ScriptInstruction::Wait(10));
    vec.push(
        ScriptInstruction::PluginCommand(String::from_str("ShowMessage fa_map_flavor.message_366")),
    );
    vec.push(ScriptInstruction::ControlSelfSwitch(SelfSwitch::A, true));
    vec.push(
        ScriptInstruction::Script(
            String::from_str("$game.doThings(true);\n$game.doMoreThings(\"lol\");"),
        ),
    );
    vec.push(ScriptInstruction::ControlSelfSwitch(SelfSwitch::B, true));
    Script::new_with(vec)
}

} // verus!
