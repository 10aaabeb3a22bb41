//! Runtime capability gating: a test declares its preconditions as a list of
//! [`Requirement`] values, and the first one that the SUT does not meet
//! becomes the reason to skip the test.
use crate::capabilities::{spec_label, spec_matches, Capabilities, Requirement};
use crate::sut::SutHandle;
use vstd::prelude::*;

verus! {

/// A description of why a test was skipped: the unmet requirement and a
/// message naming it.
#[derive(Debug, Clone)]
pub struct SkipReason {
    pub requirement: Requirement,
    pub message: String,
}

impl SkipReason {
    /// The message of the reason (what the reason displays as).
    pub fn to_string(&self) -> (s: String)
        ensures
            s@ == self.message@,
    {
        self.message.clone()
    }
}

/// The message given when the requirement labelled `label` is not met.
pub open spec fn skip_message(label: Seq<char>) -> Seq<char> {
    "SUT does not satisfy required capability `"@ + label + "`"@
}

/// `reqs[i]` is the first requirement in `reqs` that `caps` does not meet.
pub open spec fn is_first_unmet(caps: Capabilities, reqs: Seq<Requirement>, i: int) -> bool {
    &&& 0 <= i < reqs.len()
    &&& !spec_matches(reqs[i]@, caps)
    &&& forall|j: int| 0 <= j < i ==> spec_matches(#[trigger] reqs[j]@, caps)
}

/// `caps` meets every requirement in `reqs`.
pub open spec fn meets_all(caps: Capabilities, reqs: Seq<Requirement>) -> bool {
    forall|j: int| 0 <= j < reqs.len() ==> spec_matches(#[trigger] reqs[j]@, caps)
}

/// Returns the first requirement that `capabilities` does not meet.
pub fn first_unmet_requirement(capabilities: &Capabilities, requirements: &[Requirement]) -> (r:
    Option<Requirement>)
    ensures
        match r {
            None => meets_all(*capabilities, requirements@),
            Some(req) => exists|i: int|
                is_first_unmet(*capabilities, requirements@, i) && requirements@[i] == req,
        },
{
    let mut i: usize = 0;
    while i < requirements.len()
        invariant
            i <= requirements@.len(),
            forall|j: int| 0 <= j < i ==> spec_matches(#[trigger] requirements@[j]@, *capabilities),
        decreases requirements@.len() - i,
    {
        let requirement = requirements[i];
        if !requirement.matches(capabilities) {
            assert(is_first_unmet(*capabilities, requirements@, i as int));
            return Some(requirement);
        }
        i = i + 1;
    }
    None
}

/// Returns `Ok(())` if `sut` meets every requirement in `requirements`,
/// otherwise a [`SkipReason`] naming the first unmet requirement.
pub fn skip_if_missing(sut: &SutHandle, requirements: &[Requirement]) -> (r: Result<(), SkipReason>)
    ensures
        ({
            let caps = match sut {
                SutHandle::External(d) => d.capabilities,
            };
            match r {
                Ok(()) => meets_all(caps, requirements@),
                Err(reason) => exists|i: int|
                    is_first_unmet(caps, requirements@, i) && requirements@[i] == reason.requirement
                        && reason.message@ == skip_message(spec_label(requirements@[i]@)),
            }
        }),
{
    let capabilities = sut.capabilities();
    match first_unmet_requirement(capabilities, requirements) {
        None => Ok(()),
        Some(requirement) => {
            let mut message = String::from_str("SUT does not satisfy required capability `");
            let label = requirement.label();
            message.append(label.as_str());
            message.append("`");
            Err(SkipReason { requirement, message })
        },
    }
}

/// A single conformance test registered for the runner: its name, where it
/// is defined, the specification statements it checks and the capabilities
/// it requires.
#[derive(Debug, Clone, Copy)]
pub struct ConformanceTest {
    pub name: &'static str,
    pub module: &'static str,
    pub file: &'static str,
    pub line: u32,
    pub ids: &'static [&'static str],
    pub requires: &'static [Requirement],
}

/// The name of the trial for a test: `module::name`, followed by the first
/// statement id in square brackets when the test has one.
pub open spec fn spec_trial_name(module: Seq<char>, name: Seq<char>, ids: Seq<&str>) -> Seq<
    char,
> {
    let base = module + "::"@ + name;
    if ids.len() > 0 {
        base + " ["@ + ids[0]@ + "]"@
    } else {
        base
    }
}

/// The name under which the runner reports a test.
pub fn trial_name(test: &ConformanceTest) -> (s: String)
    ensures
        s@ == spec_trial_name(test.module@, test.name@, test.ids@),
{
    let mut s = String::from_str(test.module);
    s.append("::");
    s.append(test.name);
    if test.ids.len() > 0 {
        s.append(" [");
        s.append(test.ids[0]);
        s.append("]");
    }
    s
}

/// How the runner lists a test: under its name, or, when the SUT misses a
/// requirement, as an ignored trial whose name also names that requirement.
#[derive(Debug, Clone)]
pub struct TrialPlan {
    pub name: String,
    pub ignored: bool,
}

/// The name of the ignored trial of a test whose requirement labelled
/// `label` is not met.
pub open spec fn missing_trial_name(name: Seq<char>, label: Seq<char>) -> Seq<char> {
    name + " [missing: "@ + label + "]"@
}

/// How the runner lists `test` for a SUT with `capabilities`.
pub fn plan_trial(test: &ConformanceTest, capabilities: &Capabilities) -> (p: TrialPlan)
    ensures
        ({
            let name = spec_trial_name(test.module@, test.name@, test.ids@);
            if meets_all(*capabilities, test.requires@) {
                !p.ignored && p.name@ == name
            } else {
                p.ignored && exists|i: int|
                    is_first_unmet(*capabilities, test.requires@, i) && p.name@
                        == missing_trial_name(name, spec_label(test.requires@[i]@))
            }
        }),
{
    let name = trial_name(test);
    match first_unmet_requirement(capabilities, test.requires) {
        None => TrialPlan { name, ignored: false },
        Some(requirement) => {
            let mut label = name;
            label.append(" [missing: ");
            let l = requirement.label();
            label.append(l.as_str());
            label.append("]");
            TrialPlan { name: label, ignored: true }
        },
    }
}

} // verus!
