//! Selection of a demo scenario from one word, already lower-cased by the
//! caller: `thread`/`t`, `process`/`p`, `all`/`a`; anything else is
//! unrecognized and the caller prints usage instead of running a task.
use vstd::prelude::*;
use vstd::string::StringExecFns;

verus! {

#[derive(Debug, Clone, Copy, PartialEq, Eq, Structural)]
pub enum DemoChoice {
    Thread,
    Process,
    All,
    Unknown,
}

pub open spec fn spec_parse_demo_choice(s: Seq<char>) -> DemoChoice {
    if s == "thread"@ || s == "t"@ {
        DemoChoice::Thread
    } else if s == "process"@ || s == "p"@ {
        DemoChoice::Process
    } else if s == "all"@ || s == "a"@ {
        DemoChoice::All
    } else {
        DemoChoice::Unknown
    }
}

pub fn parse_demo_choice(task: &String) -> (r: DemoChoice)
    ensures
        r == spec_parse_demo_choice(task@),
{
    if *task == String::from_str("thread") || *task == String::from_str("t") {
        DemoChoice::Thread
    } else if *task == String::from_str("process") || *task == String::from_str("p") {
        DemoChoice::Process
    } else if *task == String::from_str("all") || *task == String::from_str("a") {
        DemoChoice::All
    } else {
        DemoChoice::Unknown
    }
}

} // verus!
