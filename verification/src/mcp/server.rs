//! Plans of tool calls: what a plan is made of and when it can be carried
//! out.

use crate::mcp::types::DangerLevel;
use crate::text::{decimal, join, same_text, spec_decimal, spec_join, texts};
use vstd::prelude::*;
use vstd::string::StringExecFns;

verus! {

/// What is known of an available tool. Of its parameters the names are
/// kept, and which of them are required.
#[derive(Debug, Clone)]
pub struct ToolInfo {
    pub name: String,
    pub description: String,
    pub danger_level: DangerLevel,
    pub requires_approval: bool,
    pub parameter_names: Vec<String>,
    pub required_parameters: Vec<String>,
}

/// One step of a plan. Of its parameters it is kept whether there are any.
#[derive(Debug, Clone)]
pub struct ToolStep {
    pub step_id: String,
    pub tool_name: String,
    pub description: String,
    pub has_parameters: bool,
    /// The id of the step before, on which this one depends.
    pub depends_on: Option<String>,
    pub danger_level: DangerLevel,
    pub estimated_duration_ms: Option<u64>,
}

/// A plan of tool calls for one request.
#[derive(Debug, Clone)]
pub struct ToolExecutionPlan {
    pub session_id: String,
    pub plan_id: String,
    pub user_request: String,
    pub steps: Vec<ToolStep>,
    pub overall_risk: DangerLevel,
    pub requires_approval: bool,
    pub created_at: String,
}

/// Whether a tool of the given name is available.
pub open spec fn spec_tool_exists(tools: Seq<ToolInfo>, tool_name: Seq<char>) -> bool {
    exists|i: int| 0 <= i < tools.len() && (#[trigger] tools[i]).name@ == tool_name
}

/// `tools[i]` is the first tool of the given name.
pub open spec fn is_first_tool(tools: Seq<ToolInfo>, tool_name: Seq<char>, i: int) -> bool {
    &&& 0 <= i < tools.len()
    &&& tools[i].name@ == tool_name
    &&& forall|j: int| 0 <= j < i ==> (#[trigger] tools[j]).name@ != tool_name
}

/// Whether the tool of the given name must be given parameters: the first
/// tool of that name has required ones. A tool that is not available needs
/// none.
pub open spec fn spec_tool_requires_parameters(tools: Seq<ToolInfo>, tool_name: Seq<char>) -> bool {
    exists|i: int|
        #![auto]
        is_first_tool(tools, tool_name, i) && tools[i].required_parameters@.len() > 0
}

/// Whether a step can be carried out: its tool is available, and it has
/// parameters where its tool requires some.
pub open spec fn spec_step_feasible(tools: Seq<ToolInfo>, step: ToolStep) -> bool {
    &&& spec_tool_exists(tools, step.tool_name@)
    &&& (step.has_parameters || !spec_tool_requires_parameters(tools, step.tool_name@))
}

/// Index of the first tool of the given name.
pub fn find_tool(tools: &Vec<ToolInfo>, tool_name: &str) -> (r: Option<usize>)
    ensures
        r is Some <==> spec_tool_exists(tools@, tool_name@),
        r matches Some(i) ==> is_first_tool(tools@, tool_name@, i as int),
{
    let mut i: usize = 0;
    while i < tools.len()
        invariant
            i <= tools.len(),
            forall|j: int| 0 <= j < i ==> (#[trigger] tools@[j]).name@ != tool_name@,
        decreases tools.len() - i,
    {
        if same_text(tools[i].name.as_str(), tool_name) {
            return Some(i);
        }
        i += 1;
    }
    None
}

/// Whether the tool of the given name must be given parameters.
pub fn tool_requires_parameters(tool_name: &str, available_tools: &Vec<ToolInfo>) -> (r: bool)
    ensures
        r == spec_tool_requires_parameters(available_tools@, tool_name@),
{
    match find_tool(available_tools, tool_name) {
        Some(i) => available_tools[i].required_parameters.len() > 0,
        None => false,
    }
}

/// Whether a plan can be carried out: every step can.
pub fn validate_execution_plan(plan: &ToolExecutionPlan, available_tools: &Vec<ToolInfo>) -> (r: bool)
    ensures
        r == forall|k: int|
            0 <= k < plan.steps@.len() ==> spec_step_feasible(
                available_tools@,
                #[trigger] plan.steps@[k],
            ),
{
    let mut k: usize = 0;
    while k < plan.steps.len()
        invariant
            k <= plan.steps.len(),
            forall|m: int|
                0 <= m < k ==> spec_step_feasible(available_tools@, #[trigger] plan.steps@[m]),
        decreases plan.steps.len() - k,
    {
        let step = &plan.steps[k];
        if find_tool(available_tools, step.tool_name.as_str()).is_none() {
            return false;
        }
        if !step.has_parameters && tool_requires_parameters(
            step.tool_name.as_str(),
            available_tools,
        ) {
            return false;
        }
        k += 1;
    }
    true
}

/// What is wrong with a step: that its tool does not exist, and that its
/// tool requires parameters which the step lacks.
pub open spec fn spec_step_issues(tools: Seq<ToolInfo>, step: ToolStep) -> Seq<Seq<char>> {
    (if !spec_tool_exists(tools, step.tool_name@) {
        seq!["Tool '"@ + step.tool_name@ + "' does not exist"@]
    } else {
        Seq::<Seq<char>>::empty()
    }) + (if !step.has_parameters && spec_tool_requires_parameters(tools, step.tool_name@) {
        seq!["Tool '"@ + step.tool_name@ + "' requires parameters"@]
    } else {
        Seq::<Seq<char>>::empty()
    })
}

/// What is wrong with the first `n` steps of a plan, step by step.
pub open spec fn spec_plan_issues(tools: Seq<ToolInfo>, steps: Seq<ToolStep>, n: nat) -> Seq<
    Seq<char>,
>
    decreases n,
{
    if n == 0 {
        Seq::empty()
    } else {
        spec_plan_issues(tools, steps, (n - 1) as nat) + spec_step_issues(tools, steps[n - 1])
    }
}

/// What is said of a plan that cannot be carried out: its issues, with
/// commas between them.
pub open spec fn spec_plan_feedback(tools: Seq<ToolInfo>, steps: Seq<ToolStep>) -> Seq<char> {
    if spec_plan_issues(tools, steps, steps.len()).len() == 0 {
        "Unknown validation issues"@
    } else {
        spec_join(spec_plan_issues(tools, steps, steps.len()), ", "@)
    }
}

/// What is said of a plan that cannot be carried out.
pub fn get_plan_validation_feedback(plan: &ToolExecutionPlan, available_tools: &Vec<ToolInfo>) -> (r:
    String)
    ensures
        r@ == spec_plan_feedback(available_tools@, plan.steps@),
{
    let mut issues: Vec<String> = Vec::new();
    let mut k: usize = 0;
    assert(texts(issues@) =~= Seq::<Seq<char>>::empty());
    while k < plan.steps.len()
        invariant
            k <= plan.steps.len(),
            texts(issues@) == spec_plan_issues(available_tools@, plan.steps@, k as nat),
        decreases plan.steps.len() - k,
    {
        let step = &plan.steps[k];
        let ghost before = texts(issues@);
        if find_tool(available_tools, step.tool_name.as_str()).is_none() {
            let issue = String::from_str("Tool '").concat(step.tool_name.as_str()).concat(
                "' does not exist",
            );
            issues.push(issue);
            assert(texts(issues@) =~= before.push("Tool '"@ + step.tool_name@ + "' does not exist"@));
        }
        let ghost middle = texts(issues@);
        if !step.has_parameters && tool_requires_parameters(
            step.tool_name.as_str(),
            available_tools,
        ) {
            let issue = String::from_str("Tool '").concat(step.tool_name.as_str()).concat(
                "' requires parameters",
            );
            issues.push(issue);
            assert(texts(issues@) =~= middle.push(
                "Tool '"@ + step.tool_name@ + "' requires parameters"@,
            ));
        }
        assert(texts(issues@) =~= before + spec_step_issues(available_tools@, *step));
        k += 1;
    }
    if issues.len() == 0 {
        String::from_str("Unknown validation issues")
    } else {
        join(&issues, ", ")
    }
}

/// The id of the step at `index` (counted from 0) where the plan names none:
/// `step_` and the number of the step, counted from 1.
pub open spec fn spec_default_step_id(index: nat) -> Seq<char> {
    "step_"@ + spec_decimal(index + 1)
}

/// The id of the step at `index` where the plan names none.
pub fn default_step_id(index: u32) -> (r: String)
    ensures
        r@ == spec_default_step_id(index as nat),
{
    String::from_str("step_").concat(decimal(index as u64 + 1).as_str())
}

/// The step on which the step at `index` depends: the one before it, under
/// its default id; the first step depends on none.
pub fn step_dependency(index: u32) -> (r: Option<String>)
    ensures
        index == 0 ==> r is None,
        index > 0 ==> r is Some && r->Some_0@ == spec_default_step_id((index - 1) as nat),
{
    if index > 0 {
        Some(default_step_id(index - 1))
    } else {
        None
    }
}

} // verus!
