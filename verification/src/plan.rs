//! The order in which a probing run shows its results and runs its checks.
use vstd::prelude::*;
use crate::probe::Feature;

verus! {

/// What a run does once the server panel is shown.
#[derive(Debug, Clone, Copy, PartialEq, Eq, Structural)]
pub enum Step {
    /// Tell the user that no check was asked for.
    NoChecksHint,
    /// Show the "Feature Checks" header.
    SectionHeader,
    /// Run the check of a capability and show its panel.
    Check(Feature),
}

/// The title of the section that holds the capability panels.
pub fn feature_checks_title() -> (res: &'static str)
    ensures
        res@ == "Feature Checks"@,
{
    "Feature Checks"
}

/// The checks that a language model run asks for: tool calls, then reasoning.
pub open spec fn spec_llm_checks(tool_call: bool, reasoning: bool) -> Seq<Feature> {
    (if tool_call { seq![Feature::ToolCall] } else { Seq::empty() }) + (if reasoning {
        seq![Feature::Reasoning]
    } else {
        Seq::empty()
    })
}

/// The steps after the server panel: nothing when the server is not
/// reachable; the hint when no check was asked for; otherwise the header and
/// each check in turn.
pub open spec fn spec_steps(server_ok: bool, checks: Seq<Feature>) -> Seq<Step> {
    if !server_ok {
        Seq::empty()
    } else if checks.len() == 0 {
        seq![Step::NoChecksHint]
    } else {
        seq![Step::SectionHeader] + checks.map_values(|f: Feature| Step::Check(f))
    }
}

/// The checks of a language model run, from its two flags.
pub fn llm_checks(tool_call: bool, reasoning: bool) -> (res: Vec<Feature>)
    ensures
        res@ == spec_llm_checks(tool_call, reasoning),
{
    let mut checks: Vec<Feature> = Vec::new();
    if tool_call {
        checks.push(Feature::ToolCall);
    }
    if reasoning {
        checks.push(Feature::Reasoning);
    }
    proof {
        assert(checks@ =~= spec_llm_checks(tool_call, reasoning));
    }
    checks
}

/// The checks of a vision model run: vision alone.
pub fn vlm_checks() -> (res: Vec<Feature>)
    ensures
        res@ == seq![Feature::Vision],
{
    let mut checks: Vec<Feature> = Vec::new();
    checks.push(Feature::Vision);
    proof {
        assert(checks@ =~= seq![Feature::Vision]);
    }
    checks
}

/// The steps of a run after its server panel.
pub fn steps_after_server(server_ok: bool, checks: &Vec<Feature>) -> (res: Vec<Step>)
    ensures
        res@ == spec_steps(server_ok, checks@),
{
    let mut steps: Vec<Step> = Vec::new();
    if !server_ok {
        proof {
            assert(steps@ =~= spec_steps(server_ok, checks@));
        }
        return steps;
    }
    if checks.len() == 0 {
        steps.push(Step::NoChecksHint);
        proof {
            assert(steps@ =~= spec_steps(server_ok, checks@));
        }
        return steps;
    }
    steps.push(Step::SectionHeader);
    let mut i: usize = 0;
    while i < checks.len()
        invariant
            i <= checks@.len(),
            steps@ =~= seq![Step::SectionHeader] + checks@.take(i as int).map_values(|f: Feature| Step::Check(f)),
        decreases checks@.len() - i,
    {
        steps.push(Step::Check(checks[i]));
        proof {
            assert(checks@.take(i + 1) =~= checks@.take(i as int).push(checks@[i as int]));
        }
        i = i + 1;
    }
    proof {
        assert(checks@.take(i as int) =~= checks@);
    }
    steps
}

/// Nothing is checked on a server that cannot be reached.
pub proof fn lemma_unreachable_server_runs_nothing(checks: Seq<Feature>)
    ensures
        spec_steps(false, checks) == Seq::<Step>::empty(),
{
}

/// On a reachable server, a language model run performs a check exactly when
/// its flag asks for it, and shows the hint exactly when neither flag does.
pub proof fn lemma_llm_check_iff_requested(tool_call: bool, reasoning: bool)
    ensures
        spec_steps(true, spec_llm_checks(tool_call, reasoning)).contains(Step::Check(Feature::ToolCall)) <==> tool_call,
        spec_steps(true, spec_llm_checks(tool_call, reasoning)).contains(Step::Check(Feature::Reasoning)) <==> reasoning,
        spec_steps(true, spec_llm_checks(tool_call, reasoning)).contains(Step::NoChecksHint) <==> (!tool_call && !reasoning),
        !spec_steps(true, spec_llm_checks(tool_call, reasoning)).contains(Step::Check(Feature::Vision)),
{
    let steps = spec_steps(true, spec_llm_checks(tool_call, reasoning));
    let checks = spec_llm_checks(tool_call, reasoning);
    if tool_call && reasoning {
        assert(steps =~= seq![Step::SectionHeader, Step::Check(Feature::ToolCall), Step::Check(Feature::Reasoning)]);
        assert(steps[1] == Step::Check(Feature::ToolCall));
        assert(steps[2] == Step::Check(Feature::Reasoning));
    } else if tool_call {
        assert(steps =~= seq![Step::SectionHeader, Step::Check(Feature::ToolCall)]);
        assert(steps[1] == Step::Check(Feature::ToolCall));
    } else if reasoning {
        assert(steps =~= seq![Step::SectionHeader, Step::Check(Feature::Reasoning)]);
        assert(steps[1] == Step::Check(Feature::Reasoning));
    } else {
        assert(steps =~= seq![Step::NoChecksHint]);
        assert(steps[0] == Step::NoChecksHint);
    }
}

/// When both checks run, the tool call check comes first, right after the
/// header.
pub proof fn lemma_llm_order()
    ensures
        spec_steps(true, spec_llm_checks(true, true)) == seq![
            Step::SectionHeader,
            Step::Check(Feature::ToolCall),
            Step::Check(Feature::Reasoning),
        ],
{
    assert(spec_steps(true, spec_llm_checks(true, true)) =~= seq![
        Step::SectionHeader,
        Step::Check(Feature::ToolCall),
        Step::Check(Feature::Reasoning),
    ]);
}

/// A vision model run on a reachable server shows the header and runs the
/// vision check, and nothing else.
pub proof fn lemma_vlm_steps()
    ensures
        spec_steps(true, seq![Feature::Vision]) == seq![Step::SectionHeader, Step::Check(Feature::Vision)],
{
    assert(spec_steps(true, seq![Feature::Vision]) =~= seq![Step::SectionHeader, Step::Check(Feature::Vision)]);
}

} // verus!
