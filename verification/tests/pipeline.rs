use tctrl::engine::layout_from_outcome;
use tctrl::engine::name_from_outcome;
use tctrl::engine::Outcome;
use tctrl::engine::ScriptEngine;
use tctrl::mux::FakeMux;
use tctrl::mux::RecordedCall;
use tctrl::open;
use tctrl::EntryPoint;
use tctrl::Error;
use tctrl::Stage;

struct FakeEngine {
    name: Outcome<String>,
    layout: Outcome<Vec<String>>,
}

impl FakeEngine {
    fn absent() -> FakeEngine {
        FakeEngine { name: Outcome::Absent, layout: Outcome::Absent }
    }
}

impl ScriptEngine for FakeEngine {
    fn call_name(&self, _path: &str, _filename: &str) -> Outcome<String> {
        self.name.clone()
    }

    fn call_layout(&self, _path: &str, _filename: &str, _session_name: &str) -> Outcome<Vec<String>> {
        self.layout.clone()
    }
}

#[test]
fn name_outcome_absent_falls_back() {
    let r = name_from_outcome(Outcome::Absent, "/a/b c").unwrap();
    assert_eq!(r.as_str(), "b_c");
}

#[test]
fn name_outcome_value_is_verbatim() {
    let r = name_from_outcome(Outcome::Value("as is.".to_string()), "/a/b").unwrap();
    assert_eq!(r.as_str(), "as is.");
}

#[test]
fn name_outcome_empty_value_is_fatal() {
    let r = name_from_outcome(Outcome::Value(String::new()), "/a/b");
    assert_eq!(r.unwrap_err(), Error::ScriptEvaluation { entry: EntryPoint::SessionName });
}

#[test]
fn name_outcome_failure_is_fatal() {
    let r = name_from_outcome(Outcome::Failure, "/a/b");
    assert_eq!(r.unwrap_err(), Error::ScriptEvaluation { entry: EntryPoint::SessionName });
}

#[test]
fn layout_outcome_absent_gives_default() {
    let r = layout_from_outcome(Outcome::Absent).unwrap();
    assert_eq!(r, vec!["$EDITOR".to_string()]);
}

#[test]
fn layout_outcome_value_is_verbatim() {
    let cmds = vec!["a".to_string(), "b".to_string()];
    let r = layout_from_outcome(Outcome::Value(cmds.clone())).unwrap();
    assert_eq!(r, cmds);
}

#[test]
fn layout_outcome_empty_value_is_rejected() {
    let r = layout_from_outcome(Outcome::Value(Vec::new()));
    assert_eq!(r.unwrap_err(), Error::EmptyLayout);
}

#[test]
fn layout_outcome_failure_is_fatal() {
    let r = layout_from_outcome(Outcome::Failure);
    assert_eq!(r.unwrap_err(), Error::ScriptEvaluation { entry: EntryPoint::GetLayout });
}

#[test]
fn existing_session_skips_creation() {
    let engine = FakeEngine::absent();
    let mut mux = FakeMux::new(true);
    open("/work/proj", None, false, &engine, &mut mux).unwrap();
    assert_eq!(
        mux.calls,
        vec![
            RecordedCall::Probe { name: "proj".to_string(), found: true },
            RecordedCall::Attach { name: "proj".to_string() },
        ]
    );
}

#[test]
fn absent_session_gets_full_batch_in_order() {
    let engine = FakeEngine {
        name: Outcome::Absent,
        layout: Outcome::Value(vec![
            "cmd0".to_string(),
            "cmd1".to_string(),
            "cmd2".to_string(),
        ]),
    };
    let mut mux = FakeMux::new(false);
    open("/work/proj", None, false, &engine, &mut mux).unwrap();
    let name = "proj".to_string();
    let dir = "/work/proj".to_string();
    assert_eq!(
        mux.calls,
        vec![
            RecordedCall::Probe { name: name.clone(), found: false },
            RecordedCall::NewSession { name: name.clone(), dir: dir.clone(), cmd: "cmd0".to_string() },
            RecordedCall::NewWindow { name: name.clone(), dir: dir.clone(), cmd: "cmd1".to_string() },
            RecordedCall::NewWindow { name: name.clone(), dir: dir.clone(), cmd: "cmd2".to_string() },
            RecordedCall::Attach { name: name.clone() },
        ]
    );
}

#[test]
fn inside_client_switches_instead_of_attaching() {
    let engine = FakeEngine::absent();
    let mut mux = FakeMux::new(true);
    open("/work/proj", None, true, &engine, &mut mux).unwrap();
    assert_eq!(
        mux.calls[1],
        RecordedCall::SwitchClient { name: "proj".to_string(), client: None }
    );
    assert!(!mux.calls.iter().any(|c| matches!(c, RecordedCall::Attach { .. })));
}

#[test]
fn explicit_client_switches_with_that_client() {
    let engine = FakeEngine::absent();
    let mut mux = FakeMux::new(true);
    open("/work/proj", Some("tty7"), false, &engine, &mut mux).unwrap();
    assert_eq!(
        mux.calls[1],
        RecordedCall::SwitchClient { name: "proj".to_string(), client: Some("tty7".to_string()) }
    );
}

#[test]
fn outside_client_attaches_in_foreground() {
    let engine = FakeEngine::absent();
    let mut mux = FakeMux::new(true);
    open("/work/proj", None, false, &engine, &mut mux).unwrap();
    assert_eq!(mux.calls[1], RecordedCall::Attach { name: "proj".to_string() });
    assert!(!mux.calls.iter().any(|c| matches!(c, RecordedCall::SwitchClient { .. })));
}

#[test]
fn failing_name_entry_point_aborts_before_any_call() {
    let engine = FakeEngine { name: Outcome::Failure, layout: Outcome::Absent };
    let mut mux = FakeMux::new(false);
    let r = open("/work/proj", None, false, &engine, &mut mux);
    assert_eq!(r.unwrap_err(), Error::ScriptEvaluation { entry: EntryPoint::SessionName });
    assert!(mux.calls.is_empty());
}

#[test]
fn failing_layout_entry_point_aborts_after_probe_only() {
    let engine = FakeEngine { name: Outcome::Absent, layout: Outcome::Failure };
    let mut mux = FakeMux::new(false);
    let r = open("/work/proj", None, false, &engine, &mut mux);
    assert_eq!(r.unwrap_err(), Error::ScriptEvaluation { entry: EntryPoint::GetLayout });
    assert_eq!(mux.calls, vec![RecordedCall::Probe { name: "proj".to_string(), found: false }]);
}

#[test]
fn empty_layout_aborts_after_probe_only() {
    let engine = FakeEngine { name: Outcome::Absent, layout: Outcome::Value(Vec::new()) };
    let mut mux = FakeMux::new(false);
    let r = open("/work/proj", None, false, &engine, &mut mux);
    assert_eq!(r.unwrap_err(), Error::EmptyLayout);
    assert_eq!(mux.calls, vec![RecordedCall::Probe { name: "proj".to_string(), found: false }]);
}

#[test]
fn probe_failure_is_fatal_before_creation() {
    let engine = FakeEngine::absent();
    let mut mux = FakeMux::new(false);
    mux.fail_probe = true;
    let r = open("/work/proj", None, false, &engine, &mut mux);
    assert_eq!(r.unwrap_err(), Error::MultiplexerUnavailable { stage: Stage::Probe });
    assert!(mux.calls.is_empty());
}

#[test]
fn create_failure_is_fatal_before_attach() {
    let engine = FakeEngine::absent();
    let mut mux = FakeMux::new(false);
    mux.fail_create = true;
    let r = open("/work/proj", None, false, &engine, &mut mux);
    assert_eq!(r.unwrap_err(), Error::MultiplexerUnavailable { stage: Stage::Create });
    assert!(!mux.calls.iter().any(|c| matches!(c, RecordedCall::Attach { .. })));
    assert!(!mux.calls.iter().any(|c| matches!(c, RecordedCall::SwitchClient { .. })));
}

#[test]
fn attach_failure_is_fatal_but_after_attach_call() {
    let engine = FakeEngine::absent();
    let mut mux = FakeMux::new(true);
    mux.fail_attach = true;
    let r = open("/work/proj", None, false, &engine, &mut mux);
    assert_eq!(r.unwrap_err(), Error::MultiplexerUnavailable { stage: Stage::Attach });
    assert_eq!(mux.calls.len(), 2);
}

#[test]
fn scripted_name_is_used_for_every_call() {
    let engine = FakeEngine {
        name: Outcome::Value("with space".to_string()),
        layout: Outcome::Absent,
    };
    let mut mux = FakeMux::new(false);
    open("/work/proj", None, false, &engine, &mut mux).unwrap();
    assert_eq!(
        mux.calls,
        vec![
            RecordedCall::Probe { name: "with space".to_string(), found: false },
            RecordedCall::NewSession {
                name: "with space".to_string(),
                dir: "/work/proj".to_string(),
                cmd: "$EDITOR".to_string(),
            },
            RecordedCall::Attach { name: "with space".to_string() },
        ]
    );
}

#[test]
fn repeated_open_only_reattaches() {
    let engine = FakeEngine::absent();
    let mut mux = FakeMux::new(false);
    open("/work/proj", None, false, &engine, &mut mux).unwrap();
    let after_first = mux.calls.len();
    mux.session_exists = true;
    open("/work/proj", None, false, &engine, &mut mux).unwrap();
    let second: Vec<RecordedCall> = mux.calls[after_first..].to_vec();
    assert_eq!(
        second,
        vec![
            RecordedCall::Probe { name: "proj".to_string(), found: true },
            RecordedCall::Attach { name: "proj".to_string() },
        ]
    );
}
