use chrono::Datelike;
use dd_unqueried_metrics::calendar::CalendarDate;
use dd_unqueried_metrics::metrics::MetricRecord;
use dd_unqueried_metrics::request::{FetchError, Header, MetricsRequest};
use dd_unqueried_metrics::run::{Effect, Event, Run, RunError, Stage, Step};

const PATH: &str = "dd-unqueried-metrics-03-01-2024.csv";

fn date() -> CalendarDate {
    CalendarDate { day: 3, month: 1, year: 2024 }
}

fn print(text: &str) -> Effect {
    Effect::Print(text.to_string())
}

fn request(api_key: &str, app_key: &str) -> MetricsRequest {
    MetricsRequest {
        url: "https://api.datadoghq.com/api/v2/metrics?window[seconds]=1209600&filter[queried]=true&filter[tags]=source:ephemera-org-example-custom-metric".to_string(),
        headers: vec![
            Header { name: "DD-API-KEY".to_string(), value: api_key.to_string() },
            Header { name: "DD-APPLICATION-KEY".to_string(), value: app_key.to_string() },
            Header { name: "Accept".to_string(), value: "application/json".to_string() },
        ],
    }
}

fn run_at(stage: Stage) -> Run {
    Run { path: PATH.to_string(), stage }
}

fn failure(error: RunError) -> Step {
    Step { run: run_at(Stage::Done), effects: vec![Effect::Finish(Err(error))] }
}

fn started() -> Run {
    let step = Run::start("abc123".to_string(), "DEF456".to_string(), date());
    assert_eq!(step.run.stage, Stage::Response);
    step.run
}

#[test]
fn usable_keys_go_straight_to_the_request() {
    let step = Run::start("abc123".to_string(), "DEF456".to_string(), date());
    assert_eq!(
        step,
        Step {
            run: run_at(Stage::Response),
            effects: vec![print("Loading unqueried metrics..."), Effect::Send(request("abc123", "DEF456"))],
        }
    );
}

#[test]
fn two_metrics_are_exported_from_end_to_end() {
    let body = r#"{"data":[{"type":"count","id":"my.metric.one"},{"type":"gauge","id":"my.metric.two"}]}"#;
    let step = started().advance(Event::Body(body.to_string()));
    assert_eq!(step.effects, vec![Effect::Create(PATH.to_string())]);
    let step = step.run.advance(Event::Created);
    assert_eq!(
        step.effects,
        vec![
            print("Writing Metric ID: \"my.metric.one\""),
            print("Writing Metric ID: \"my.metric.two\""),
            Effect::Write(b"id\nmy.metric.one\nmy.metric.two\n".to_vec()),
        ]
    );
    assert_eq!(step.run, run_at(Stage::Writing { count: 2 }));
    let step = step.run.advance(Event::Written);
    assert_eq!(
        step,
        Step {
            run: run_at(Stage::Done),
            effects: vec![print("2 metrics found and exported."), Effect::Finish(Ok(()))],
        }
    );
}

#[test]
fn no_metrics_give_a_file_with_the_header_alone() {
    let step = started().advance(Event::Body(r#"{"data":[]}"#.to_string()));
    assert_eq!(step.effects, vec![Effect::Create(PATH.to_string())]);
    assert_eq!(step.run, run_at(Stage::Creation { records: vec![] }));
    let step = step.run.advance(Event::Created);
    assert_eq!(step.effects, vec![Effect::Write(b"id\n".to_vec())]);
    let step = step.run.advance(Event::Written);
    assert_eq!(
        step.effects,
        vec![print("0 metrics found and exported."), Effect::Finish(Ok(()))]
    );
}

#[test]
fn a_body_that_is_not_json_ends_the_run_without_a_file() {
    let step = started().advance(Event::Body("<html>Bad gateway</html>".to_string()));
    assert_eq!(step, failure(RunError::Fetch(FetchError::Decode)));
    for event in [Event::Created, Event::Written, Event::Body(r#"{"data":[]}"#.to_string())] {
        let step = run_at(Stage::Done).advance(event);
        assert_eq!(step, Step { run: run_at(Stage::Done), effects: vec![] });
    }
}

#[test]
fn a_body_of_another_form_ends_the_run_without_a_file() {
    let step = started().advance(Event::Body(r#"{"errors":["Forbidden"]}"#.to_string()));
    assert_eq!(step, failure(RunError::Fetch(FetchError::Decode)));
    let step = started().advance(Event::Body(r#"{"data":[{"type":"count"}]}"#.to_string()));
    assert_eq!(step, failure(RunError::Fetch(FetchError::Decode)));
}

#[test]
fn keys_that_are_missing_are_asked_for() {
    let step = Run::start("".to_string(), "".to_string(), date());
    assert_eq!(
        step,
        Step {
            run: run_at(Stage::ApiKey),
            effects: vec![
                print("Usage: ./dd-unqueried-metrics --api-key=<API_KEY> --app-key=<APP_KEY>"),
                print("api_key and app-key parameters not provided, prompting user...\n"),
                print("Please enter your Datadog API Key:"),
                Effect::ReadLine,
            ],
        }
    );
    let step = step.run.advance(Event::Line("abc123\n".to_string()));
    assert_eq!(
        step,
        Step {
            run: run_at(Stage::AppKey { api_key: "abc123".to_string() }),
            effects: vec![print("Please enter your Datadog Application Key:"), Effect::ReadLine],
        }
    );
    let step = step.run.advance(Event::Line("DEF456\r\n".to_string()));
    assert_eq!(
        step,
        Step {
            run: run_at(Stage::Response),
            effects: vec![print("Loading unqueried metrics..."), Effect::Send(request("abc123", "DEF456"))],
        }
    );
}

#[test]
fn one_key_that_is_not_usable_has_both_asked_for() {
    let step = Run::start("abc123".to_string(), "not a key".to_string(), date());
    assert_eq!(step.run, run_at(Stage::ApiKey));
    let step = Run::start("abc-123".to_string(), "DEF456".to_string(), date());
    assert_eq!(step.run, run_at(Stage::ApiKey));
    assert_eq!(step.effects.len(), 4);
}

#[test]
fn typed_keys_are_used_as_they_are() {
    let run = run_at(Stage::ApiKey);
    let step = run.advance(Event::Line("\n".to_string()));
    assert_eq!(step.run, run_at(Stage::AppKey { api_key: "".to_string() }));
    let step = step.run.advance(Event::Line("not a key \n".to_string()));
    assert_eq!(
        step,
        Step {
            run: run_at(Stage::Response),
            effects: vec![print("Loading unqueried metrics..."), Effect::Send(request("", "not a key"))],
        }
    );
}

#[test]
fn a_typed_key_that_no_header_field_can_hold_is_a_transport_failure() {
    let run = run_at(Stage::AppKey { api_key: "abc123".to_string() });
    let step = run.advance(Event::Line("DEF\u{0}456\n".to_string()));
    assert_eq!(step, failure(RunError::Fetch(FetchError::Transport)));
    let run = run_at(Stage::AppKey { api_key: "abc\u{7f}123".to_string() });
    let step = run.advance(Event::Line("DEF456\n".to_string()));
    assert_eq!(step, failure(RunError::Fetch(FetchError::Transport)));
}

#[test]
fn a_keyboard_that_cannot_be_read_ends_the_run() {
    let step = run_at(Stage::ApiKey).advance(Event::InputFailed);
    assert_eq!(step, failure(RunError::CredentialInput));
    let step = run_at(Stage::AppKey { api_key: "abc123".to_string() }).advance(Event::InputFailed);
    assert_eq!(step, failure(RunError::CredentialInput));
}

#[test]
fn a_request_that_fails_ends_the_run() {
    let step = started().advance(Event::TransportFailed);
    assert_eq!(step, failure(RunError::Fetch(FetchError::Transport)));
}

#[test]
fn a_file_that_cannot_be_written_ends_the_run() {
    let records = vec![MetricRecord { metric_type: "count".to_string(), id: "a".to_string() }];
    let step = run_at(Stage::Creation { records }).advance(Event::OutputFailed);
    assert_eq!(step, failure(RunError::Io));
    let step = run_at(Stage::Writing { count: 1 }).advance(Event::OutputFailed);
    assert_eq!(step, failure(RunError::Io));
}

#[test]
fn an_event_that_is_not_waited_for_changes_nothing() {
    let step = run_at(Stage::ApiKey).advance(Event::Written);
    assert_eq!(step, Step { run: run_at(Stage::ApiKey), effects: vec![] });
    let step = run_at(Stage::Response).advance(Event::Line("abc\n".to_string()));
    assert_eq!(step, Step { run: run_at(Stage::Response), effects: vec![] });
    let step = run_at(Stage::Writing { count: 3 }).advance(Event::Created);
    assert_eq!(step, Step { run: run_at(Stage::Writing { count: 3 }), effects: vec![] });
    let step = run_at(Stage::Response).advance(Event::OutputFailed);
    assert_eq!(step, Step { run: run_at(Stage::Response), effects: vec![] });
    let step = run_at(Stage::Done).advance(Event::InputFailed);
    assert_eq!(step, Step { run: run_at(Stage::Done), effects: vec![] });
}

#[test]
fn the_path_is_that_of_the_day_of_the_start() {
    let step = Run::start("abc123".to_string(), "DEF456".to_string(), CalendarDate { day: 31, month: 12, year: 2025 });
    assert_eq!(step.run.path, "dd-unqueried-metrics-31-12-2025.csv");
    let step = step.run.advance(Event::Body(r#"{"data":[]}"#.to_string()));
    assert_eq!(step.effects, vec![Effect::Create("dd-unqueried-metrics-31-12-2025.csv".to_string())]);
    assert_eq!(step.run.path, "dd-unqueried-metrics-31-12-2025.csv");
}

fn name_of(date: chrono::NaiveDate) -> String {
    format!("dd-unqueried-metrics-{:02}-{:02}-{}.csv", date.day(), date.month(), date.year())
}

#[test]
fn a_run_of_today_is_named_after_today() {
    let before = chrono::Local::now().date_naive();
    let step = Run::start_today("abc123".to_string(), "DEF456".to_string());
    let after = chrono::Local::now().date_naive();
    assert!(step.run.path == name_of(before) || step.run.path == name_of(after));
    assert_eq!(step.run.stage, Stage::Response);
}

#[test]
fn identifiers_that_need_quotes_are_echoed_and_written() {
    let body = r#"{"data":[{"type":"count","id":"a,b"},{"type":"count","id":"say \"hi\""}]}"#;
    let step = started().advance(Event::Body(body.to_string()));
    let step = step.run.advance(Event::Created);
    assert_eq!(
        step.effects,
        vec![
            print("Writing Metric ID: \"a,b\""),
            print("Writing Metric ID: \"say \\\"hi\\\"\""),
            Effect::Write(b"id\n\"a,b\"\n\"say \"\"hi\"\"\"\n".to_vec()),
        ]
    );
}
