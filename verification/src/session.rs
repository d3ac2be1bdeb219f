//! Decision logic of the automation-session client: the browser capability
//! flags requested at session creation, the ordered priority list of submit
//! selectors, and the first-match selection rule among them. The protocol
//! round-trips themselves are I/O and stay with the caller.

use vstd::prelude::*;

verus! {

/// The outcome of the best-effort form submission: the selector at this index
/// of the priority list matched and was clicked, or no selector matched any
/// element. A missing submit control is not an error; connectivity polling is
/// the real success signal.
#[derive(Clone, Copy, PartialEq, Eq, Structural, Debug)]
pub enum SubmitOutcome {
    Clicked(usize),
    NoneFound,
}

/// The ordered priority list of CSS selectors tried for a submit control.
pub fn submit_selectors() -> (r: Vec<String>)
    ensures
        r@.len() == 1,
        r@[0]@ == "input[type=\"submit\"]"@,
{
    let mut r: Vec<String> = Vec::new();
    r.push(String::from_str("input[type=\"submit\"]"));
    r
}

/// The browser option flags requested when the session is created: headless
/// rendering, no sandbox, no GPU.
pub fn session_option_flags() -> (r: Vec<String>)
    ensures
        r@.len() == 3,
        r@[0]@ == "--headless=new"@,
        r@[1]@ == "--no-sandbox"@,
        r@[2]@ == "--disable-gpu"@,
{
    let mut r: Vec<String> = Vec::new();
    r.push(String::from_str("--headless=new"));
    r.push(String::from_str("--no-sandbox"));
    r.push(String::from_str("--disable-gpu"));
    r
}

/// The first-match selection rule over the selector priority list:
/// `matched[i]` says whether selector `i` matched an element, and the result
/// names the first matching selector, in list order, or reports that none
/// matched. No selector after the first match is considered.
pub fn first_match(matched: &Vec<bool>) -> (r: SubmitOutcome)
    ensures
        (match r {
            SubmitOutcome::Clicked(i) => i < matched@.len() && matched@[i as int] && (forall|
                j: int,
            |
                0 <= j < i ==> !matched@[j]),
            SubmitOutcome::NoneFound => forall|j: int| 0 <= j < matched@.len() ==> !matched@[j],
        }),
{
    let mut i: usize = 0;
    while i < matched.len()
        invariant
            0 <= i <= matched@.len(),
            forall|j: int| 0 <= j < i ==> !matched@[j],
        decreases matched@.len() - i,
    {
        if matched[i] {
            return SubmitOutcome::Clicked(i);
        }
        i += 1;
    }
    SubmitOutcome::NoneFound
}

} // verus!
