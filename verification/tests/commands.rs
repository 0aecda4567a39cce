//! Commands on threads, and what is shown of the app-server's events.
use codexctl::command::{Action, Event, Step};
use codexctl::error::{CtlError, OBJECTIVE_CAP};
use codexctl::goal::GoalChange;
use codexctl::json::{json_list, json_object, json_text, pretty, Json};
use codexctl::notice::{
    goal_line, incoming_line, item_line, notice_line, turn_line, Incoming, Notice,
};
use codexctl::registry::{lookup_thread, Registry, ThreadEntry};
use codexctl::remove::cmd_rm;
use codexctl::session::{
    cmd_goal, cmd_interrupt, cmd_say, cmd_status, cmd_steer, cmd_tail, print_reply, print_status,
    ThreadSession,
};
use codexctl::start::{cmd_start, thread_cwd, StartOptions, StartSession};
use codexctl::turns::active_turn_id;

fn entry() -> ThreadEntry {
    ThreadEntry {
        thread_id: "t-1".to_string(),
        cwd: Some("/w".to_string()),
        model: Some("m".to_string()),
        sandbox: None,
        created_at_unix: 5,
    }
}

fn registry() -> Registry {
    Registry::new().with("work".to_string(), entry())
}

fn replied(text: &str) -> Event {
    Event::Replied(text.to_string())
}

fn failure(step: Step) -> CtlError {
    match step.action {
        Action::Fail(e) => e,
        _ => panic!(),
    }
}

fn contexts(e: CtlError) -> Vec<String> {
    match e {
        CtlError::Outside(contexts) => contexts,
        _ => panic!(),
    }
}

fn resumed(begun: Result<(ThreadSession, Step), CtlError>) -> (ThreadSession, Step) {
    let (session, step) = match begun {
        Ok(pair) => pair,
        Err(_) => panic!(),
    };
    assert!(matches!(step.action, Action::Connect));
    let (session, step) = session.step(Event::Done);
    match step.action {
        Action::Resume(params) => {
            assert_eq!(params.thread_id, "t-1");
            assert_eq!(params.cwd, Some("/w".to_string()));
            assert_eq!(params.model, Some("m".to_string()));
            assert_eq!(params.sandbox, None);
        }
        _ => panic!(),
    }
    session.step(Event::Done)
}

fn request(step: &Step) -> (&str, &Json) {
    match &step.action {
        Action::Request { method, params } => (method.as_str(), params),
        _ => panic!(),
    }
}

fn query(step: &Step) -> (&str, &Json) {
    match &step.action {
        Action::Query { method, params } => (method.as_str(), params),
        _ => panic!(),
    }
}

fn turn(id: &str, status: &str) -> Json {
    json_object().with("id", json_text(id)).with("status", json_text(status))
}

fn reading(turns: Vec<Json>) -> Json {
    json_object().with("thread", json_object().with("turns", Json::Array(turns)))
}

fn busy() -> Event {
    Event::Answered(reading(vec![turn("u-1", "completed"), turn("u-2", "inProgress")]))
}

#[test]
fn commands_need_a_registered_thread() {
    let none = "nobody".to_string();
    let all = vec![
        cmd_say(&registry(), none.clone(), "hi".to_string()).err(),
        cmd_steer(&registry(), none.clone(), "hi".to_string()).err(),
        cmd_interrupt(&registry(), none.clone()).err(),
        cmd_goal(&registry(), none.clone(), change()).err(),
        cmd_status(&registry(), none.clone()).err(),
        cmd_tail(&registry(), none.clone(), false).err(),
        cmd_rm(&registry(), none.clone(), false).err(),
        cmd_rm(&registry(), none.clone(), true).err(),
    ];
    for e in all {
        assert_eq!(e.unwrap().message(), "no thread named 'nobody'; try `codexctl ls`");
    }
}

#[test]
fn a_connection_that_fails_ends_the_command() {
    let (session, _) = cmd_say(&registry(), "work".to_string(), "hi".to_string()).ok().unwrap();
    let (session, step) = session.step(Event::Failed);
    assert!(contexts(failure(step)).is_empty());
    let (_, step) = session.step(Event::Done);
    assert!(matches!(step.action, Action::Fail(_)));
}

#[test]
fn a_thread_that_cannot_be_resumed_ends_the_command() {
    let (session, _) = cmd_status(&registry(), "work".to_string()).ok().unwrap();
    let (session, _) = session.step(Event::Done);
    let (_, step) = session.step(Event::Failed);
    assert_eq!(contexts(failure(step)), vec!["thread/resume t-1"]);
}

#[test]
fn saying_begins_a_turn() {
    let (session, step) =
        resumed(cmd_say(&registry(), "work".to_string(), "do it".to_string()));
    match step.action {
        Action::StartTurn { thread_id, text } => {
            assert_eq!(thread_id, "t-1");
            assert_eq!(text, "do it");
        }
        _ => panic!(),
    }
    let (_, step) = session.step(Event::Started("u-9".to_string()));
    assert_eq!(step.output, "turn: u-9\n");
    assert!(matches!(step.action, Action::Finish));
    let (session, _) = resumed(cmd_say(&registry(), "work".to_string(), "do it".to_string()));
    assert_eq!(contexts(failure(session.step(Event::Failed).1)), vec!["turn/start"]);
}

#[test]
fn steering_adds_to_the_turn_in_flight() {
    let (session, step) =
        resumed(cmd_steer(&registry(), "work".to_string(), "left".to_string()));
    let (method, params) = query(&step);
    assert_eq!(method, "thread/read");
    assert_eq!(params.text_at("threadId"), Some("t-1"));
    assert!(matches!(params.get("includeTurns"), Some(Json::Bool(true))));
    let (session, step) = session.step(busy());
    let (method, params) = request(&step);
    assert_eq!(method, "turn/steer");
    assert_eq!(params.text_at("threadId"), Some("t-1"));
    assert_eq!(params.text_at("expectedTurnId"), Some("u-2"));
    let input = params.get("input").unwrap().as_array().unwrap();
    assert_eq!(input.len(), 1);
    assert_eq!(input[0].text_at("type"), Some("text"));
    assert_eq!(input[0].text_at("text"), Some("left"));
    let (_, step) = session.step(replied("{\"turnId\":\"u-2\",\"n\":[1,2.5]}"));
    assert_eq!(
        step.output,
        "{\n  \"n\": [\n    1,\n    2.5\n  ],\n  \"turnId\": \"u-2\"\n}\n"
    );
    assert!(matches!(step.action, Action::Finish));
}

#[test]
fn an_idle_thread_is_not_steered() {
    let (session, _) = resumed(cmd_steer(&registry(), "work".to_string(), "left".to_string()));
    let (_, step) = session.step(Event::Answered(reading(vec![turn("u-1", "completed")])));
    assert_eq!(step.output, "");
    assert_eq!(
        failure(step).message(),
        "no active turn on thread t-1 — turn/steer requires a turn in flight; use `codexctl say` instead"
    );
}

#[test]
fn steering_fails_with_its_step() {
    let (session, _) = resumed(cmd_steer(&registry(), "work".to_string(), "left".to_string()));
    assert_eq!(
        contexts(failure(session.step(Event::Failed).1)),
        vec!["thread/read", "look up active turn for steer"]
    );
    let (session, _) = resumed(cmd_steer(&registry(), "work".to_string(), "left".to_string()));
    let (session, _) = session.step(busy());
    assert_eq!(contexts(failure(session.step(Event::Failed).1)), vec!["turn/steer"]);
}

#[test]
fn interrupting_names_the_turn_in_flight() {
    let (session, step) = resumed(cmd_interrupt(&registry(), "work".to_string()));
    assert_eq!(query(&step).0, "thread/read");
    let (session, step) = session.step(busy());
    let (method, params) = request(&step);
    assert_eq!(method, "turn/interrupt");
    assert_eq!(params.text_at("threadId"), Some("t-1"));
    assert_eq!(params.text_at("turnId"), Some("u-2"));
    let (_, step) = session.step(replied("{}"));
    assert_eq!(step.output, "{}\n");
    assert!(matches!(step.action, Action::Finish));
}

#[test]
fn an_idle_thread_is_not_interrupted() {
    let (session, _) = resumed(cmd_interrupt(&registry(), "work".to_string()));
    let (_, step) = session.step(Event::Answered(reading(vec![])));
    assert_eq!(
        failure(step).message(),
        "no active turn on thread t-1 — turn/interrupt requires a turn in flight"
    );
    let (session, _) = resumed(cmd_interrupt(&registry(), "work".to_string()));
    assert_eq!(
        contexts(failure(session.step(Event::Failed).1)),
        vec!["thread/read", "look up active turn for interrupt"]
    );
    let (session, _) = resumed(cmd_interrupt(&registry(), "work".to_string()));
    let (session, _) = session.step(busy());
    assert_eq!(contexts(failure(session.step(Event::Failed).1)), vec!["turn/interrupt"]);
}

#[test]
fn the_active_turn_is_the_last_in_progress() {
    let many = reading(vec![
        turn("a", "inProgress"),
        turn("b", "inProgress"),
        turn("c", "completed"),
    ]);
    assert_eq!(active_turn_id(&many), Some("b".to_string()));
    let nameless = json_object().with("status", json_text("inProgress"));
    assert_eq!(active_turn_id(&reading(vec![turn("a", "inProgress"), nameless])), None);
    assert_eq!(active_turn_id(&Json::Null), None);
    assert_eq!(active_turn_id(&json_object().with("thread", json_text("x"))), None);
    let odd = json_object().with("thread", json_object().with("turns", json_text("x")));
    assert_eq!(active_turn_id(&odd), None);
}

fn change() -> GoalChange {
    GoalChange { set: None, pause: false, resume: false, clear: false, budget: None }
}

fn goal_request(change: GoalChange) -> Step {
    resumed(cmd_goal(&registry(), "work".to_string(), change)).1
}

#[test]
fn a_goal_is_set_with_what_is_given() {
    let step = goal_request(GoalChange {
        set: Some("ship".to_string()),
        budget: Some(9),
        ..change()
    });
    let (method, params) = request(&step);
    assert_eq!(method, "thread/goal/set");
    assert_eq!(params.text_at("threadId"), Some("t-1"));
    assert_eq!(params.text_at("objective"), Some("ship"));
    assert!(params.get("status").is_none());
    assert_eq!(params.get("tokenBudget").unwrap().as_u64(), Some(9));
}

#[test]
fn a_goal_is_paused_and_resumed() {
    let step = goal_request(GoalChange { pause: true, ..change() });
    assert_eq!(request(&step).1.text_at("status"), Some("paused"));
    assert!(request(&step).1.get("objective").is_none());
    assert!(request(&step).1.get("tokenBudget").is_none());
    let step = goal_request(GoalChange { resume: true, ..change() });
    assert_eq!(request(&step).1.text_at("status"), Some("active"));
    let step = goal_request(GoalChange { pause: true, resume: true, ..change() });
    assert_eq!(request(&step).1.text_at("status"), Some("paused"));
}

#[test]
fn clearing_a_goal_sends_the_thread_alone() {
    let step = goal_request(GoalChange {
        set: Some("x".repeat(5000)),
        pause: true,
        resume: true,
        clear: true,
        budget: Some(1),
    });
    let (method, params) = request(&step);
    assert_eq!(method, "thread/goal/clear");
    match params {
        Json::Object(members) => assert_eq!(members.len(), 1),
        _ => panic!(),
    }
    assert_eq!(params.text_at("threadId"), Some("t-1"));
}

#[test]
fn objectives_are_capped_by_their_characters() {
    assert_eq!(OBJECTIVE_CAP, 4000);
    let step = goal_request(GoalChange { set: Some("ä".repeat(4000)), ..change() });
    assert_eq!(request(&step).0, "thread/goal/set");
    let step = goal_request(GoalChange { set: Some("ä".repeat(4001)), ..change() });
    assert_eq!(failure(step).message(), "objective is 4001 chars; app-server caps at 4000");
}

#[test]
fn a_goal_reply_is_laid_out_or_its_failure_named() {
    let (session, _) = resumed(cmd_goal(&registry(), "work".to_string(), change()));
    let (_, step) = session.step(replied("null"));
    assert_eq!(step.output, "null\n");
    let (session, _) = resumed(cmd_goal(&registry(), "work".to_string(), change()));
    assert_eq!(contexts(failure(session.step(Event::Failed).1)), vec!["thread/goal/set"]);
    let clear = GoalChange { clear: true, ..change() };
    let (session, _) = resumed(cmd_goal(&registry(), "work".to_string(), clear));
    assert_eq!(contexts(failure(session.step(Event::Failed).1)), vec!["thread/goal/clear"]);
    let (session, _) = resumed(cmd_goal(&registry(), "work".to_string(), change()));
    let (_, step) = session.step(replied("{"));
    assert_eq!(failure(step).message(), "reply is not a JSON document");
}

#[test]
fn the_status_tells_of_the_goal() {
    let (session, step) = resumed(cmd_status(&registry(), "work".to_string()));
    let (method, params) = request(&step);
    assert_eq!(method, "thread/goal/get");
    assert_eq!(params.text_at("threadId"), Some("t-1"));
    let (_, step) =
        session.step(replied("{\"other\":1,\"goal\":{\"status\":\"active\"}}"));
    assert_eq!(
        step.output,
        "name: work\nthread: t-1\ncwd: /w\ngoal: {\n  \"status\": \"active\"\n}\n"
    );
    assert!(matches!(step.action, Action::Finish));
}

#[test]
fn the_status_does_without_a_goal() {
    for event in [replied("{}"), replied("[]"), Event::Failed] {
        let (session, _) = resumed(cmd_status(&registry(), "work".to_string()));
        let (_, step) = session.step(event);
        assert_eq!(step.output, "name: work\nthread: t-1\ncwd: /w\n");
        assert!(matches!(step.action, Action::Finish));
    }
    let (session, _) = resumed(cmd_status(&registry(), "work".to_string()));
    let (_, step) = session.step(replied("{\"goal\":null}"));
    assert_eq!(step.output, "name: work\nthread: t-1\ncwd: /w\ngoal: null\n");
}

#[test]
fn a_goal_that_is_found_is_laid_out() {
    let mut deep = String::from("1.7976931348623157e308");
    for _ in 0..126 {
        deep = format!("[{}]", deep);
    }
    for goal in ["-0.0", "\"\\u0000\u{7f}\"", "18446744073709551615", "{}", deep.as_str()] {
        let (session, _) = resumed(cmd_status(&registry(), "work".to_string()));
        let (_, step) = session.step(replied(&format!("{{\"goal\":{}}}", goal)));
        assert!(step.output.starts_with("name: work\nthread: t-1\ncwd: /w\ngoal: "));
        assert!(matches!(step.action, Action::Finish));
    }
}

#[test]
fn status_lines_follow_the_entry() {
    let bare = ThreadEntry { cwd: None, ..entry() };
    let step = print_status("n", &bare, Some(Some("{}".to_string())));
    assert_eq!(step.output, "name: n\nthread: t-1\ngoal: {}\n");
    let step = print_status("n", &bare, Some(None));
    assert_eq!(step.output, "name: n\nthread: t-1\n");
    assert!(matches!(step.action, Action::Fail(CtlError::BadReply)));
    assert!(matches!(print_reply(None).action, Action::Fail(CtlError::BadReply)));
}

#[test]
fn tailing_shows_what_happens_until_interrupted() {
    let (session, step) = resumed(cmd_tail(&registry(), "work".to_string(), true));
    assert_eq!(step.output, "(tailing t-1; ctrl-c to exit)\n");
    assert!(matches!(step.action, Action::NextEvent));
    let started = Incoming::Notification(Notice::TurnStarted { id: "u-1".to_string() });
    let (session, step) = session.step(Event::Received(started));
    assert_eq!(step.output, "[turn] started u-1\n");
    assert!(matches!(step.action, Action::NextEvent));
    let (session, step) = session.step(Event::Received(Incoming::Other));
    assert_eq!(step.output, "");
    assert!(matches!(step.action, Action::NextEvent));
    let piece = Notice::AgentMessageDelta { delta: Some("hi".to_string()), text: None };
    let (session, step) = session.step(Event::Received(Incoming::Notification(piece)));
    assert_eq!(step.output, "");
    let (_, step) = session.step(Event::Interrupted);
    assert_eq!(step.output, "\n(interrupted)\n");
    assert!(matches!(step.action, Action::Finish));
    let (session, _) = resumed(cmd_tail(&registry(), "work".to_string(), false));
    assert!(contexts(failure(session.step(Event::Failed).1)).is_empty());
}

#[test]
fn a_tail_shows_the_stream_without_its_deltas() {
    let piece = |text: &str| {
        Incoming::Notification(Notice::AgentMessageDelta {
            delta: Some(text.to_string()),
            text: None,
        })
    };
    let stream = || {
        let started = Notice::TurnStarted { id: "u".to_string() };
        let cleared = Notice::Unknown {
            method: "thread/goal/cleared".to_string(),
            params: json_object(),
        };
        vec![
            Incoming::Notification(started),
            piece("a"),
            Incoming::Other,
            piece("b"),
            Incoming::Notification(cleared),
        ]
    };
    let expected = ["[turn] started u\nab[goal] cleared\n", "[turn] started u\n[goal] cleared\n"];
    for no_deltas in [false, true] {
        let (mut session, _) = resumed(cmd_tail(&registry(), "work".to_string(), no_deltas));
        let mut shown = String::new();
        for incoming in stream() {
            shown += &incoming_line(&incoming, no_deltas);
        }
        let mut output = String::new();
        for incoming in stream() {
            let (next, step) = session.step(Event::Received(incoming));
            assert!(matches!(step.action, Action::NextEvent));
            output += &step.output;
            session = next;
        }
        assert_eq!(output, expected[no_deltas as usize]);
        assert_eq!(output, shown);
    }
}

#[test]
fn deltas_are_shown_as_they_come() {
    let both = Notice::AgentMessageDelta {
        delta: Some("a".to_string()),
        text: Some("b".to_string()),
    };
    assert_eq!(notice_line(&both, false), "a");
    assert_eq!(notice_line(&both, true), "");
    let text = Notice::AgentMessageDelta { delta: None, text: Some("b\n".to_string()) };
    assert_eq!(notice_line(&text, false), "b\n");
    let none = Notice::AgentMessageDelta { delta: None, text: None };
    assert_eq!(notice_line(&none, false), "");
    assert_eq!(notice_line(&Notice::Other, false), "");
}

#[test]
fn completed_turns_show_their_status() {
    for status in [None, Some("completed".to_string()), Some("a \"b\"\n\u{7f}é".to_string())] {
        let expected = format!("\n[turn] completed status={:?}\n", status);
        for no_deltas in [true, false] {
            let notice = Notice::TurnCompleted { status: status.clone() };
            assert_eq!(notice_line(&notice, no_deltas), expected);
        }
    }
    assert_eq!(turn_line(Some("X".to_string())), "\n[turn] completed status=Some(X)\n");
    assert_eq!(turn_line(None), "\n[turn] completed status=None\n");
}

#[test]
fn commands_show_how_they_ended_and_begin() {
    let run = |code: Json, command: &str| {
        json_object()
            .with("type", json_text("commandExecution"))
            .with("exitCode", code)
            .with("command", json_text(command))
    };
    assert_eq!(item_line(&run(Json::UInt(0), "ls")), "[exec] rc=Some(0) ls\n");
    assert_eq!(item_line(&run(Json::NegInt(-9), "ls")), "[exec] rc=Some(-9) ls\n");
    assert_eq!(item_line(&run(Json::UInt(u64::MAX), "ls")), "[exec] rc=None ls\n");
    assert_eq!(item_line(&run(Json::Float("1.0".to_string()), "ls")), "[exec] rc=None ls\n");
    let long = "ü".repeat(200);
    let item = Notice::ItemCompleted { item: run(Json::Null, &long) };
    assert_eq!(notice_line(&item, true), format!("[exec] rc=None {}\n", "ü".repeat(120)));
    let bare = json_object().with("type", json_text("commandExecution"));
    assert_eq!(item_line(&bare), "[exec] rc=None \n");
    assert_eq!(item_line(&json_object().with("type", json_text("fileChange"))), "");
    assert_eq!(item_line(&Json::Null), "");
}

#[test]
fn goal_updates_show_status_and_tokens() {
    let params = |goal: Json| json_object().with("goal", goal);
    let full = params(
        json_object().with("status", json_text("active")).with("tokensUsed", Json::UInt(12)),
    );
    let notice = Notice::Unknown { method: "thread/goal/updated".to_string(), params: full };
    assert_eq!(notice_line(&notice, false), "[goal] status=active tokens=12\n");
    assert_eq!(goal_line("thread/goal/updated", &params(Json::Null)), "[goal] status=? tokens=0\n");
    assert_eq!(goal_line("thread/goal/updated", &json_object()), "");
    assert_eq!(goal_line("thread/goal/cleared", &params(Json::Null)), "[goal] cleared\n");
    let cleared = Notice::Unknown {
        method: "thread/goal/cleared".to_string(),
        params: json_object().with("threadId", json_text("t-1")),
    };
    assert_eq!(notice_line(&cleared, true), "[goal] cleared\n");
    assert_eq!(goal_line("thread/goal/paused", &params(Json::Null)), "");
}

#[test]
fn json_members_are_found() {
    let value = json_object().with("a", Json::UInt(1)).with("b", json_list(Json::Null));
    assert_eq!(value.get("a").unwrap().as_u64(), Some(1));
    assert_eq!(value.get("a").unwrap().as_i64(), Some(1));
    assert_eq!(value.get("b").unwrap().as_array().unwrap().len(), 1);
    assert!(value.get("c").is_none());
    assert!(value.text_at("a").is_none());
    assert!(json_text("x").get("a").is_none());
    assert_eq!(Json::NegInt(-1).as_u64(), None);
    assert_eq!(Json::UInt(i64::MAX as u64 + 1).as_i64(), None);
    assert!(matches!(json_text("x").with("a", Json::Null), Json::Text(t) if t == "x"));
}

#[test]
fn documents_are_laid_out() {
    assert_eq!(pretty("{\"b\":[],\"a\":1.10}"), Some("{\n  \"a\": 1.1,\n  \"b\": []\n}".to_string()));
    assert_eq!(pretty("{} x"), None);
    assert_eq!(pretty(""), None);
}

fn options(objective: Option<&str>, no_objective_yet: bool) -> StartOptions {
    StartOptions {
        name: "new".to_string(),
        cwd: Some("/n".to_string()),
        model: "gpt-5.5".to_string(),
        sandbox: "workspace-write".to_string(),
        objective: objective.map(|o| o.to_string()),
        budget: 2_000_000,
        no_objective_yet,
    }
}

fn created(options: StartOptions) -> (StartSession, Step) {
    let (session, step) = cmd_start(registry(), options).ok().unwrap();
    assert!(matches!(step.action, Action::Connect));
    let (session, step) = session.step(Event::Done, 0);
    match step.action {
        Action::StartThread(params) => {
            assert_eq!(params.cwd, Some("/n".to_string()));
            assert_eq!(params.model, "gpt-5.5");
            assert_eq!(params.sandbox, "workspace-write");
            match &params.more {
                Json::Object(members) => assert_eq!(members.len(), 1),
                _ => panic!(),
            }
            assert!(matches!(params.more.get("skipGitRepoCheck"), Some(Json::Bool(true))));
        }
        _ => panic!(),
    }
    session.step(Event::Started("t-2".to_string()), 77)
}

fn saved(step: Step) -> Registry {
    match step.action {
        Action::SaveRegistry(registry) => registry,
        _ => panic!(),
    }
}

#[test]
fn a_taken_name_is_refused() {
    let taken = StartOptions { name: "work".to_string(), ..options(None, false) };
    match cmd_start(registry(), taken) {
        Ok(_) => panic!(),
        Err(e) => assert_eq!(
            e.message(),
            "thread 'work' already registered; pick another name or `codexctl rm work` first"
        ),
    }
}

#[test]
fn a_thread_without_a_goal_is_registered_at_once() {
    for opts in [options(None, false), options(Some("later"), true), options(None, true)] {
        let (session, step) = created(opts);
        let grown = saved(step);
        let found = lookup_thread(&grown, "new").ok().unwrap();
        assert_eq!(found.thread_id, "t-2");
        assert_eq!(found.cwd, Some("/n".to_string()));
        assert_eq!(found.model, Some("gpt-5.5".to_string()));
        assert_eq!(found.sandbox, Some("workspace-write".to_string()));
        assert_eq!(found.created_at_unix, 77);
        assert_eq!(lookup_thread(&grown, "work").ok().unwrap().thread_id, "t-1");
        let (_, step) = session.step(Event::Done, 78);
        assert_eq!(step.output, "name: new\nthread: t-2\n");
        assert!(matches!(step.action, Action::Finish));
    }
}

#[test]
fn a_thread_with_a_goal_is_registered_once_the_goal_is_set() {
    let (session, step) = created(options(Some("ship"), false));
    match step.action {
        Action::StartTurn { thread_id, text } => {
            assert_eq!(thread_id, "t-2");
            assert_eq!(
                text,
                "Acknowledge with the single word READY. Do not run any commands or edit any files."
            );
        }
        _ => panic!(),
    }
    let (session, step) = session.step(Event::Started("u-1".to_string()), 78);
    assert!(matches!(step.action, Action::AwaitTurn));
    let (session, step) = session.step(Event::Done, 79);
    let (method, params) = request(&step);
    assert_eq!(method, "thread/goal/set");
    assert_eq!(params.text_at("threadId"), Some("t-2"));
    assert_eq!(params.text_at("objective"), Some("ship"));
    assert_eq!(params.get("tokenBudget").unwrap().as_u64(), Some(2_000_000));
    let (session, step) = session.step(replied("{}"), 80);
    assert_eq!(lookup_thread(&saved(step), "new").ok().unwrap().created_at_unix, 80);
    let (session, step) = session.step(Event::Done, 81);
    assert_eq!(step.output, "name: new\nthread: t-2\ngoal: active\n");
    assert!(matches!(step.action, Action::Finish));
    let (_, step) = session.step(Event::Done, 82);
    assert!(matches!(step.action, Action::Fail(_)));
}

fn awaiting(objective: &str) -> StartSession {
    created(options(Some(objective), false)).0.step(Event::Started("u-1".to_string()), 0).0
}

#[test]
fn a_creation_fails_with_its_step() {
    let begin = || cmd_start(registry(), options(Some("ship"), false)).ok().unwrap().0;
    assert!(contexts(failure(begin().step(Event::Failed, 0).1)).is_empty());
    let (session, _) = begin().step(Event::Done, 0);
    assert_eq!(contexts(failure(session.step(Event::Failed, 0).1)), vec!["thread/start"]);
    let (session, _) = created(options(Some("ship"), false));
    assert_eq!(contexts(failure(session.step(Event::Failed, 0).1)), vec!["materialize turn/start"]);
    assert!(contexts(failure(awaiting("ship").step(Event::Failed, 0).1)).is_empty());
    let late = failure(awaiting("ship").step(Event::TimedOut, 0).1);
    assert_eq!(late.message(), "timed out waiting for expected event");
    let (session, _) = awaiting("ship").step(Event::Done, 0);
    assert_eq!(contexts(failure(session.step(Event::Failed, 0).1)), vec!["thread/goal/set"]);
    let (session, _) = created(options(None, false));
    assert!(contexts(failure(session.step(Event::Failed, 0).1)).is_empty());
}

#[test]
fn a_new_goal_has_a_capped_objective() {
    let (_, step) = awaiting(&"é".repeat(4000)).step(Event::Done, 0);
    assert_eq!(request(&step).0, "thread/goal/set");
    let (_, step) = awaiting(&"é".repeat(4001)).step(Event::Done, 0);
    assert_eq!(
        failure(step).message(),
        "objective is 4001 chars; app-server caps at 4000. Use `codexctl start ... --no-objective-yet` then `codexctl say <name>` for detail and `codexctl goal <name> --set` with a short objective."
    );
}

#[test]
fn a_thread_works_where_it_is_asked_to() {
    let asked = Some("/asked".to_string());
    let current = Some("/current".to_string());
    assert_eq!(thread_cwd(asked.clone(), current.clone()), asked);
    assert_eq!(thread_cwd(None, current.clone()), current);
    assert_eq!(thread_cwd(None, None), None);
}

#[test]
fn a_removal_archives_and_unregisters() {
    for answer in [Event::Failed, replied("{}")] {
        let (session, step) = cmd_rm(&registry(), "work".to_string(), false).ok().unwrap();
        assert!(matches!(step.action, Action::Connect));
        let (session, step) = session.step(Event::Done);
        let (method, params) = request(&step);
        assert_eq!(method, "thread/archive");
        assert_eq!(params.text_at("threadId"), Some("t-1"));
        let (session, step) = session.step(answer);
        assert!(matches!(step.action, Action::LoadRegistry));
        let fresh = registry().with("other".to_string(), entry());
        let (session, step) = session.step(Event::Loaded(fresh));
        let rest = saved(step);
        assert!(rest.get("work").is_none());
        assert!(rest.get("other").is_some());
        let (session, step) = session.step(Event::Done);
        assert_eq!(step.output, "removed: work\n");
        assert!(matches!(step.action, Action::Finish));
        assert!(contexts(failure(session.step(Event::Done).1)).is_empty());
    }
}

#[test]
fn a_removal_undoes_a_creation() {
    let (_, step) = created(options(None, false));
    let grown = saved(step);
    let resume = cmd_say(&grown, "new".to_string(), "hi".to_string()).ok().unwrap().0;
    match resume.step(Event::Done).1.action {
        Action::Resume(params) => {
            assert_eq!(params.thread_id, "t-2");
            assert_eq!(params.cwd, Some("/n".to_string()));
            assert_eq!(params.model, Some("gpt-5.5".to_string()));
            assert_eq!(params.sandbox, Some("workspace-write".to_string()));
        }
        _ => panic!(),
    }
    let (session, _) = cmd_rm(&grown, "new".to_string(), true).ok().unwrap();
    let rest = saved(session.step(Event::Loaded(grown)).1);
    assert!(rest.get("new").is_none());
    assert_eq!(rest.threads().len(), 1);
    assert_eq!(rest.get("work").unwrap().thread_id, "t-1");
    assert_eq!(rest.get("work").unwrap().created_at_unix, 5);
}

#[test]
fn a_removal_that_keeps_the_rollout_sends_nothing() {
    let (session, step) = cmd_rm(&registry(), "work".to_string(), true).ok().unwrap();
    assert!(matches!(step.action, Action::LoadRegistry));
    let (session, step) = session.step(Event::Loaded(registry()));
    assert!(saved(step).get("work").is_none());
    assert_eq!(session.step(Event::Done).1.output, "removed: work\n");
}

#[test]
fn a_removal_fails_where_the_registry_does() {
    let begin = || cmd_rm(&registry(), "work".to_string(), false).ok().unwrap().0;
    assert!(contexts(failure(begin().step(Event::Failed).1)).is_empty());
    let begin = || cmd_rm(&registry(), "work".to_string(), true).ok().unwrap().0;
    assert!(contexts(failure(begin().step(Event::Failed).1)).is_empty());
    let (session, _) = begin().step(Event::Loaded(registry()));
    assert!(contexts(failure(session.step(Event::Failed).1)).is_empty());
}

#[test]
fn errors_outside_are_reported_by_their_outermost_description() {
    let none = CtlError::Outside(vec![]);
    assert_eq!(none.message(), "");
    let two = CtlError::Outside(vec!["inner".to_string(), "outer".to_string()]);
    assert_eq!(two.message(), "outer");
}
