//! The goal that is kept on a thread, and how it is changed.
use vstd::prelude::*;
use vstd::string::*;

use crate::command::{ask, params_for, quietly, thread_params, Action, ActionView, Step, StepView};
use crate::error::{CtlError, CtlErrorView, OBJECTIVE_CAP};
use crate::json::{
    first_member, json_object, json_text, lemma_added_member, with_member, Json, JsonView,
};
use crate::text::opt_text;

verus! {

/// What is to change about a goal.
pub struct GoalChange {
    pub set: Option<String>,
    pub pause: bool,
    pub resume: bool,
    pub clear: bool,
    pub budget: Option<u64>,
}

/// What a `GoalChange` says.
pub struct GoalChangeView {
    pub set: Option<Seq<char>>,
    pub pause: bool,
    pub resume: bool,
    pub clear: bool,
    pub budget: Option<u64>,
}

impl View for GoalChange {
    type V = GoalChangeView;

    open spec fn view(&self) -> GoalChangeView {
        GoalChangeView {
            set: opt_text(self.set),
            pause: self.pause,
            resume: self.resume,
            clear: self.clear,
            budget: self.budget,
        }
    }
}

/// `params` with the objective, where one is set.
pub open spec fn with_objective(params: JsonView, set: Option<Seq<char>>) -> JsonView {
    match set {
        Some(objective) => with_member(params, "objective"@, JsonView::Text(objective)),
        None => params,
    }
}

/// `params` with the status that pausing or resuming gives the goal.
pub open spec fn with_status(params: JsonView, pause: bool, resume: bool) -> JsonView {
    if pause {
        with_member(params, "status"@, JsonView::Text("paused"@))
    } else if resume {
        with_member(params, "status"@, JsonView::Text("active"@))
    } else {
        params
    }
}

/// `params` with the token budget, where one is given.
pub open spec fn with_budget(params: JsonView, budget: Option<u64>) -> JsonView {
    match budget {
        Some(tokens) => with_member(params, "tokenBudget"@, JsonView::UInt(tokens)),
        None => params,
    }
}

/// The parameters with which a goal is changed.
pub open spec fn goal_params(thread_id: Seq<char>, change: GoalChangeView) -> JsonView {
    with_budget(
        with_status(
            with_objective(thread_params(thread_id), change.set),
            change.pause,
            change.resume,
        ),
        change.budget,
    )
}

/// Whether the app-server accepts an objective of this length.
pub open spec fn fits(objective: Seq<char>) -> bool {
    objective.len() <= OBJECTIVE_CAP
}

/// The method that a goal is changed with.
pub open spec fn goal_method(change: GoalChangeView) -> Seq<char> {
    if change.clear {
        "thread/goal/clear"@
    } else {
        "thread/goal/set"@
    }
}

/// What a change of a goal takes. Clearing it sends nothing but the thread; an objective that the
/// app-server would not accept is not sent at all.
pub open spec fn goal_step(thread_id: Seq<char>, change: GoalChangeView) -> StepView {
    if change.clear {
        ask("thread/goal/clear"@, thread_params(thread_id))
    } else {
        match change.set {
            Some(objective) if !fits(objective) => quietly(
                ActionView::Fail(CtlErrorView::GoalObjectiveTooLong(objective.len())),
            ),
            _ => ask("thread/goal/set"@, goal_params(thread_id, change)),
        }
    }
}

/// What a change of a goal takes.
pub fn change_goal(thread_id: &str, change: &GoalChange) -> (r: Step)
    ensures
        r@ == goal_step(thread_id@, change@),
{
    if change.clear {
        return Step::ask("thread/goal/clear", params_for(thread_id));
    }
    let mut params: Json = params_for(thread_id);
    match &change.set {
        Some(objective) => {
            let len: usize = objective.as_str().unicode_len();
            if len > OBJECTIVE_CAP {
                return Step::quiet(Action::Fail(CtlError::GoalObjectiveTooLong(len)));
            }
            params = params.with("objective", json_text(objective.as_str()));
        },
        None => {},
    }
    if change.pause {
        params = params.with("status", json_text("paused"));
    } else if change.resume {
        params = params.with("status", json_text("active"));
    }
    match change.budget {
        Some(tokens) => {
            params = params.with("tokenBudget", Json::UInt(tokens));
        },
        None => {},
    }
    Step::ask("thread/goal/set", params)
}

/// The parameters with which a new thread gets its goal.
pub open spec fn first_goal_params(
    thread_id: Seq<char>,
    objective: Seq<char>,
    budget: u64,
) -> JsonView {
    JsonView::Object(
        seq![
            ("threadId"@, JsonView::Text(thread_id)),
            ("objective"@, JsonView::Text(objective)),
            ("tokenBudget"@, JsonView::UInt(budget)),
        ],
    )
}

/// How a new thread gets its goal, unless the app-server would not accept the objective.
pub open spec fn first_goal_step(
    thread_id: Seq<char>,
    objective: Seq<char>,
    budget: u64,
) -> StepView {
    if fits(objective) {
        ask("thread/goal/set"@, first_goal_params(thread_id, objective, budget))
    } else {
        quietly(ActionView::Fail(CtlErrorView::StartObjectiveTooLong(objective.len())))
    }
}

/// How a new thread gets its goal.
pub fn set_first_goal(thread_id: &str, objective: &str, budget: u64) -> (r: Step)
    ensures
        r@ == first_goal_step(thread_id@, objective@, budget),
{
    let len: usize = objective.unicode_len();
    if len > OBJECTIVE_CAP {
        return Step::quiet(Action::Fail(CtlError::StartObjectiveTooLong(len)));
    }
    let params: Json = json_object().with("threadId", json_text(thread_id)).with(
        "objective",
        json_text(objective),
    ).with("tokenBudget", Json::UInt(budget));
    assert(params@->Object_0 =~= first_goal_params(thread_id@, objective@, budget)->Object_0);
    Step::ask("thread/goal/set", params)
}

/// What is found under a key of the parameters of a goal's change.
proof fn lemma_goal_param(thread_id: Seq<char>, change: GoalChangeView, key: Seq<char>)
    ensures
        goal_params(thread_id, change).get(key) == (if key == "threadId"@ {
            Some(JsonView::Text(thread_id))
        } else if key == "objective"@ && change.set is Some {
            Some(JsonView::Text(change.set->0))
        } else if key == "status"@ && change.pause {
            Some(JsonView::Text("paused"@))
        } else if key == "status"@ && change.resume {
            Some(JsonView::Text("active"@))
        } else if key == "tokenBudget"@ && change.budget is Some {
            Some(JsonView::UInt(change.budget->0))
        } else {
            None
        }),
{
    lemma_goal_keys();
    let base = thread_params(thread_id);
    let second = with_objective(base, change.set);
    let third = with_status(second, change.pause, change.resume);
    assert(base->Object_0.skip(1) =~= Seq::empty());
    assert(first_member(base->Object_0.skip(1), key) is None);
    if change.set is Some {
        lemma_added_member(base->Object_0, "objective"@, JsonView::Text(change.set->0), key);
    }
    if change.pause {
        lemma_added_member(second->Object_0, "status"@, JsonView::Text("paused"@), key);
    } else if change.resume {
        lemma_added_member(second->Object_0, "status"@, JsonView::Text("active"@), key);
    }
    if change.budget is Some {
        lemma_added_member(
            third->Object_0,
            "tokenBudget"@,
            JsonView::UInt(change.budget->0),
            key,
        );
    }
}

/// The keys of a goal's parameters differ.
proof fn lemma_goal_keys()
    ensures
        "threadId"@ != "objective"@,
        "threadId"@ != "status"@,
        "threadId"@ != "tokenBudget"@,
        "objective"@ != "status"@,
        "objective"@ != "tokenBudget"@,
        "status"@ != "tokenBudget"@,
{
    reveal_strlit("threadId");
    reveal_strlit("objective");
    reveal_strlit("status");
    reveal_strlit("tokenBudget");
    assert("threadId"@.len() == 8 && "objective"@.len() == 9 && "status"@.len() == 6
        && "tokenBudget"@.len() == 11);
}

/// What the parameters of a goal's change say under each of their keys.
pub proof fn law_goal_params_say_the_change(thread_id: Seq<char>, change: GoalChangeView)
    ensures
        goal_params(thread_id, change).text_at("threadId"@) == Some(thread_id),
        goal_params(thread_id, change).text_at("objective"@) == change.set,
        goal_params(thread_id, change).text_at("status"@) == (if change.pause {
            Some("paused"@)
        } else if change.resume {
            Some("active"@)
        } else {
            None
        }),
        match goal_params(thread_id, change).get("tokenBudget"@) {
            Some(value) => value.as_u64() == change.budget,
            None => change.budget is None,
        },
{
    lemma_goal_keys();
    lemma_goal_param(thread_id, change, "threadId"@);
    lemma_goal_param(thread_id, change, "objective"@);
    lemma_goal_param(thread_id, change, "status"@);
    lemma_goal_param(thread_id, change, "tokenBudget"@);
}

/// What the parameters of a new thread's goal say under each of their keys.
pub proof fn law_first_goal_says_the_objective(
    thread_id: Seq<char>,
    objective: Seq<char>,
    budget: u64,
)
    ensures
        first_goal_params(thread_id, objective, budget).text_at("threadId"@) == Some(thread_id),
        first_goal_params(thread_id, objective, budget).text_at("objective"@) == Some(objective),
        first_goal_params(thread_id, objective, budget).get("tokenBudget"@) == Some(
            JsonView::UInt(budget),
        ),
{
    reveal_strlit("threadId");
    reveal_strlit("objective");
    reveal_strlit("tokenBudget");
    assert("threadId"@.len() == 8 && "objective"@.len() == 9 && "tokenBudget"@.len() == 11);
    reveal_with_fuel(first_member, 3);
}

/// Clearing a goal sends the thread and nothing else, whatever else is asked for.
pub proof fn law_clear_outweighs_the_rest(thread_id: Seq<char>, change: GoalChangeView)
    requires
        change.clear,
    ensures
        goal_step(thread_id, change) == ask("thread/goal/clear"@, thread_params(thread_id)),
{
}

/// An objective that is longer than the app-server accepts is never sent, neither for a new
/// thread nor for one that exists.
pub proof fn law_no_long_objective_is_sent(
    thread_id: Seq<char>,
    change: GoalChangeView,
    objective: Seq<char>,
    budget: u64,
)
    ensures
        first_goal_step(thread_id, objective, budget).action is Request <==> fits(objective),
        goal_step(thread_id, change).action matches ActionView::Request { method, params } ==> (
        params.text_at("objective"@) matches Some(objective) ==> fits(objective)),
{
    law_goal_params_say_the_change(thread_id, change);
    reveal_strlit("threadId");
    reveal_strlit("objective");
    assert("threadId"@.len() == 8 && "objective"@.len() == 9);
    assert(thread_params(thread_id)->Object_0.skip(1) =~= Seq::empty());
    assert(first_member(thread_params(thread_id)->Object_0.skip(1), "objective"@) is None);
}

/// A change that does not clear the goal is sent whole: the objective, the status and the budget
/// that it gives, each exactly where it gives one, for the thread, and nothing else.
pub proof fn law_a_change_is_sent_whole(
    thread_id: &str,
    change: &GoalChange,
    other: Seq<char>,
    r: Step,
)
    requires
        call_ensures(change_goal, (thread_id, change), r),
        !change.clear,
        change.set matches Some(objective) ==> objective@.len() <= 4000,
    ensures
        r.output@ == ""@,
        r.action matches Action::Request { method, params } && {
            &&& method@ == "thread/goal/set"@
            &&& params@.get("threadId"@) == Some(JsonView::Text(thread_id@))
            &&& params@.get("objective"@) == match change.set {
                Some(objective) => Some(JsonView::Text(objective@)),
                None => None,
            }
            &&& params@.get("status"@) == (if change.pause {
                Some(JsonView::Text("paused"@))
            } else if change.resume {
                Some(JsonView::Text("active"@))
            } else {
                None
            })
            &&& params@.get("tokenBudget"@) == match change.budget {
                Some(tokens) => Some(JsonView::UInt(tokens)),
                None => None,
            }
            &&& other != "threadId"@ && other != "objective"@ && other != "status"@ && other
                != "tokenBudget"@ ==> params@.get(other) is None
        },
{
    lemma_goal_keys();
    lemma_goal_param(thread_id@, change@, "threadId"@);
    lemma_goal_param(thread_id@, change@, "objective"@);
    lemma_goal_param(thread_id@, change@, "status"@);
    lemma_goal_param(thread_id@, change@, "tokenBudget"@);
    lemma_goal_param(thread_id@, change@, other);
}

/// A change that clears the goal sends the thread's id alone; an objective of more than four
/// thousand characters is refused with its length, and nothing is sent.
pub proof fn law_clear_and_refusal(thread_id: &str, change: &GoalChange, r: Step)
    requires
        call_ensures(change_goal, (thread_id, change), r),
    ensures
        r.output@ == ""@,
        change.clear ==> (r.action matches Action::Request { method, params } && method@
            == "thread/goal/clear"@ && params@ == JsonView::Object(
            seq![("threadId"@, JsonView::Text(thread_id@))],
        )),
        !change.clear && (change.set matches Some(objective) && objective@.len() > 4000) ==> (
        r.action matches Action::Fail(CtlError::GoalObjectiveTooLong(n)) && n
            == change.set->0@.len()),
{
}

/// A new thread's goal is sent with the thread, the objective and the budget, unless the
/// objective has more than four thousand characters: then it is refused with its length.
pub proof fn law_first_goal_is_sent_whole(
    thread_id: &str,
    objective: &str,
    budget: u64,
    r: Step,
)
    requires
        call_ensures(set_first_goal, (thread_id, objective, budget), r),
    ensures
        r.output@ == ""@,
        objective@.len() <= 4000 ==> (r.action matches Action::Request { method, params } && method@
            == "thread/goal/set"@ && params@ == JsonView::Object(
            seq![
                ("threadId"@, JsonView::Text(thread_id@)),
                ("objective"@, JsonView::Text(objective@)),
                ("tokenBudget"@, JsonView::UInt(budget)),
            ],
        )),
        objective@.len() > 4000 ==> (r.action matches Action::Fail(
            CtlError::StartObjectiveTooLong(n),
        ) && n == objective@.len()),
{
}

} // verus!
