//! The course of a run. The program around this library reads the keyboard,
//! sends the request and writes the file; here it is decided what it does next.
//!
//! A run goes forward in steps. Each step names the effects that the program
//! brings about, in their order. The last of them is a read, a send, a creation
//! or a write, of which the program reports the outcome as the next event, or it
//! ends the run.

use vstd::prelude::*;
use vstd::string::*;
use vstd::utf8::*;

use crate::calendar::{export_file_name, export_path, local_date, CalendarDate};
use crate::console::{
    echo_line, echo_text, summary_line, summary_text, API_KEY_PROMPT, APP_KEY_PROMPT, PROGRESS,
    PROMPT_NOTICE, USAGE,
};
use crate::credentials::{
    is_valid_key, trim_end, trim_line, validate_keys, Credentials, CredentialsModel,
};
use crate::export::{export, export_bytes, id_bytes};
use crate::metrics::{record_models, MetricRecord, MetricRecordModel};
use crate::request::{
    build_request, is_header_value, lemma_valid_key_is_header_value, request_for, FetchError,
    MetricsRequest, MetricsRequestModel,
};
use crate::response::{decode_response, records_of_body};

verus! {

/// Why a run ended without an export.
#[derive(Clone, Copy, Debug, PartialEq, Eq, Structural)]
pub enum RunError {
    /// A key could not be read from the keyboard.
    CredentialInput,
    /// No list of metrics came back.
    Fetch(FetchError),
    /// The export file could not be created or written.
    Io,
}

/// What a run waits for.
#[derive(Debug, PartialEq, Eq)]
pub enum Stage {
    /// The line that holds the API key.
    ApiKey,
    /// The line that holds the application key.
    AppKey { api_key: String },
    /// The body of the response.
    Response,
    /// The creation of the export file, for these records.
    Creation { records: Vec<MetricRecord> },
    /// The end of the writing of this many records.
    Writing { count: usize },
    /// Nothing: the run has ended.
    Done,
}

/// A run: the path of its export file, fixed when it starts, and what it waits
/// for.
#[derive(Debug, PartialEq, Eq)]
pub struct Run {
    pub path: String,
    pub stage: Stage,
}

/// What the program reports.
#[derive(Debug, PartialEq, Eq)]
pub enum Event {
    /// A line was read from the keyboard.
    Line(String),
    /// The keyboard could not be read.
    InputFailed,
    /// The response came back with this body.
    Body(String),
    /// The request could not be sent, or its response could not be read.
    TransportFailed,
    /// The export file was created.
    Created,
    /// The content was written and the file was closed.
    Written,
    /// The export file could not be created, written or closed.
    OutputFailed,
}

/// What the program is asked to bring about.
#[derive(Debug, PartialEq, Eq)]
pub enum Effect {
    /// Print this text and a line break.
    Print(String),
    /// Read a line from the keyboard.
    ReadLine,
    /// Send this request and read the body of its response.
    Send(MetricsRequest),
    /// Create the file at this path, empty, in place of any that is there.
    Create(String),
    /// Write these bytes to the file that was created, and close it.
    Write(Vec<u8>),
    /// End the run: with success, or with this failure.
    Finish(Result<(), RunError>),
}

/// A run after a step, and the effects of that step in their order.
#[derive(Debug, PartialEq, Eq)]
pub struct Step {
    pub run: Run,
    pub effects: Vec<Effect>,
}

/// What a [`Stage`] holds, as mathematical values.
pub enum StageModel {
    ApiKey,
    AppKey { api_key: Seq<char> },
    Response,
    Creation { records: Seq<MetricRecordModel> },
    Writing { count: nat },
    Done,
}

/// What a [`Run`] holds, as mathematical values.
pub struct RunModel {
    pub path: Seq<char>,
    pub stage: StageModel,
}

/// What an [`Event`] holds, as mathematical values.
pub enum EventModel {
    Line(Seq<char>),
    InputFailed,
    Body(Seq<char>),
    TransportFailed,
    Created,
    Written,
    OutputFailed,
}

/// What an [`Effect`] holds, as mathematical values.
pub enum EffectModel {
    Print(Seq<char>),
    ReadLine,
    Send(MetricsRequestModel),
    Create(Seq<char>),
    Write(Seq<u8>),
    Finish(Result<(), RunError>),
}

/// What a [`Step`] holds, as mathematical values.
pub struct StepModel {
    pub run: RunModel,
    pub effects: Seq<EffectModel>,
}

impl View for Stage {
    type V = StageModel;

    open spec fn view(&self) -> StageModel {
        match *self {
            Stage::ApiKey => StageModel::ApiKey,
            Stage::AppKey { api_key } => StageModel::AppKey { api_key: api_key@ },
            Stage::Response => StageModel::Response,
            Stage::Creation { records } => StageModel::Creation {
                records: record_models(records@),
            },
            Stage::Writing { count } => StageModel::Writing { count: count as nat },
            Stage::Done => StageModel::Done,
        }
    }
}

impl View for Run {
    type V = RunModel;

    open spec fn view(&self) -> RunModel {
        RunModel { path: self.path@, stage: self.stage@ }
    }
}

impl View for Event {
    type V = EventModel;

    open spec fn view(&self) -> EventModel {
        match *self {
            Event::Line(line) => EventModel::Line(line@),
            Event::InputFailed => EventModel::InputFailed,
            Event::Body(body) => EventModel::Body(body@),
            Event::TransportFailed => EventModel::TransportFailed,
            Event::Created => EventModel::Created,
            Event::Written => EventModel::Written,
            Event::OutputFailed => EventModel::OutputFailed,
        }
    }
}

impl View for Effect {
    type V = EffectModel;

    open spec fn view(&self) -> EffectModel {
        match *self {
            Effect::Print(text) => EffectModel::Print(text@),
            Effect::ReadLine => EffectModel::ReadLine,
            Effect::Send(request) => EffectModel::Send(request@),
            Effect::Create(path) => EffectModel::Create(path@),
            Effect::Write(content) => EffectModel::Write(content@),
            Effect::Finish(outcome) => EffectModel::Finish(outcome),
        }
    }
}

impl View for Step {
    type V = StepModel;

    open spec fn view(&self) -> StepModel {
        StepModel { run: self.run@, effects: effect_models(self.effects@) }
    }
}

/// The models of `effects`, one by one.
pub open spec fn effect_models(effects: Seq<Effect>) -> Seq<EffectModel> {
    Seq::new(effects.len(), |i: int| effects[i]@)
}

/// The step that ends a run on `path` with the failure `error`.
pub open spec fn failed_step(path: Seq<char>, error: RunError) -> StepModel {
    StepModel {
        run: RunModel { path, stage: StageModel::Done },
        effects: seq![EffectModel::Finish(Err(error))],
    }
}

/// The step that follows the resolution of the credentials: the progress line
/// and the request, or, where a key cannot be the value of a header field, the
/// end of the run with a transport failure.
pub open spec fn fetch_step(credentials: CredentialsModel, path: Seq<char>) -> StepModel {
    if is_header_value(encode_utf8(credentials.api_key)) && is_header_value(
        encode_utf8(credentials.app_key),
    ) {
        StepModel {
            run: RunModel { path, stage: StageModel::Response },
            effects: seq![
                EffectModel::Print(PROGRESS@),
                EffectModel::Send(request_for(credentials)),
            ],
        }
    } else {
        failed_step(path, RunError::Fetch(FetchError::Transport))
    }
}

/// The first step of a run on `date` with the keys of the command line. Usable
/// keys go into the request as they are. Otherwise, if but one of them is not
/// usable, both are asked for.
pub open spec fn start_step(api_key: Seq<char>, app_key: Seq<char>, date: CalendarDate) -> StepModel {
    let path = export_file_name(date);
    if is_valid_key(api_key) && is_valid_key(app_key) {
        fetch_step(CredentialsModel { api_key, app_key }, path)
    } else {
        StepModel {
            run: RunModel { path, stage: StageModel::ApiKey },
            effects: seq![
                EffectModel::Print(USAGE@),
                EffectModel::Print(PROMPT_NOTICE@),
                EffectModel::Print(API_KEY_PROMPT@),
                EffectModel::ReadLine,
            ],
        }
    }
}

/// The lines that are printed while the rows of `records` are written.
pub open spec fn echo_effects(records: Seq<MetricRecordModel>) -> Seq<EffectModel> {
    Seq::new(records.len(), |i: int| EffectModel::Print(echo_text(records[i].id)))
}

/// The step that `event` brings about in `run`. An event that the run does not
/// wait for changes nothing and has no effects.
pub open spec fn next_step(run: RunModel, event: EventModel) -> StepModel {
    match (run.stage, event) {
        (StageModel::ApiKey, EventModel::Line(line)) => StepModel {
            run: RunModel { path: run.path, stage: StageModel::AppKey { api_key: trim_end(line) } },
            effects: seq![EffectModel::Print(APP_KEY_PROMPT@), EffectModel::ReadLine],
        },
        (StageModel::ApiKey, EventModel::InputFailed) => failed_step(
            run.path,
            RunError::CredentialInput,
        ),
        (StageModel::AppKey { api_key }, EventModel::Line(line)) => fetch_step(
            CredentialsModel { api_key, app_key: trim_end(line) },
            run.path,
        ),
        (StageModel::AppKey { .. }, EventModel::InputFailed) => failed_step(
            run.path,
            RunError::CredentialInput,
        ),
        (StageModel::Response, EventModel::Body(body)) => match records_of_body(body) {
            Some(records) => StepModel {
                run: RunModel { path: run.path, stage: StageModel::Creation { records } },
                effects: seq![EffectModel::Create(run.path)],
            },
            None => failed_step(run.path, RunError::Fetch(FetchError::Decode)),
        },
        (StageModel::Response, EventModel::TransportFailed) => failed_step(
            run.path,
            RunError::Fetch(FetchError::Transport),
        ),
        (StageModel::Creation { records }, EventModel::Created) => StepModel {
            run: RunModel { path: run.path, stage: StageModel::Writing { count: records.len() } },
            effects: echo_effects(records).push(
                EffectModel::Write(export_bytes(id_bytes(records))),
            ),
        },
        (StageModel::Creation { .. }, EventModel::OutputFailed) => failed_step(
            run.path,
            RunError::Io,
        ),
        (StageModel::Writing { count }, EventModel::Written) => StepModel {
            run: RunModel { path: run.path, stage: StageModel::Done },
            effects: seq![EffectModel::Print(summary_text(count)), EffectModel::Finish(Ok(()))],
        },
        (StageModel::Writing { .. }, EventModel::OutputFailed) => failed_step(
            run.path,
            RunError::Io,
        ),
        _ => StepModel { run, effects: seq![] },
    }
}

fn fail(path: String, error: RunError) -> (r: Step)
    ensures
        r@ == failed_step(path@, error),
{
    let mut effects: Vec<Effect> = Vec::new();
    effects.push(Effect::Finish(Err(error)));
    let step = Step { run: Run { path, stage: Stage::Done }, effects };
    assert(step@.effects =~= failed_step(path@, error).effects);
    step
}

fn fetch(credentials: Credentials, path: String) -> (r: Step)
    ensures
        r@ == fetch_step(credentials@, path@),
{
    match build_request(&credentials) {
        Ok(request) => {
            let mut effects: Vec<Effect> = Vec::new();
            effects.push(Effect::Print(String::from_str(PROGRESS)));
            effects.push(Effect::Send(request));
            let step = Step { run: Run { path, stage: Stage::Response }, effects };
            assert(step@.effects =~= fetch_step(credentials@, path@).effects);
            step
        },
        Err(_) => fail(path, RunError::Fetch(FetchError::Transport)),
    }
}

fn unchanged(run: Run) -> (r: Step)
    ensures
        r@ == (StepModel { run: run@, effects: seq![] }),
{
    let step = Step { run, effects: Vec::new() };
    assert(step@.effects =~= Seq::<EffectModel>::empty());
    step
}

fn decoded(path: String, body: String) -> (r: Step)
    ensures
        r@ == next_step(
            RunModel { path: path@, stage: StageModel::Response },
            EventModel::Body(body@),
        ),
{
    match decode_response(body.as_str()) {
        Ok(response) => {
            let mut effects: Vec<Effect> = Vec::new();
            effects.push(Effect::Create(path.clone()));
            let step = Step {
                run: Run { path, stage: Stage::Creation { records: response.data } },
                effects,
            };
            assert(step@.effects =~= seq![EffectModel::Create(path@)]);
            step
        },
        Err(_) => fail(path, RunError::Fetch(FetchError::Decode)),
    }
}

fn created(path: String, records: Vec<MetricRecord>) -> (r: Step)
    ensures
        r@ == next_step(
            RunModel { path: path@, stage: StageModel::Creation { records: record_models(records@) } },
            EventModel::Created,
        ),
{
    let ghost models = record_models(records@);
    let mut effects: Vec<Effect> = Vec::new();
    let mut i: usize = 0;
    while i < records.len()
        invariant
            i <= records@.len(),
            models == record_models(records@),
            effects@.len() == i,
            effect_models(effects@) == echo_effects(models).take(i as int),
        decreases records@.len() - i,
    {
        let ghost before = effects@;
        effects.push(Effect::Print(echo_line(records[i].id.as_str())));
        proof {
            let after = effect_models(effects@);
            let wanted = echo_effects(models).take(i + 1);
            assert(after.len() == wanted.len());
            assert forall|j: int| 0 <= j < after.len() implies after[j] == wanted[j] by {
                if j < i {
                    assert(effect_models(before)[j] == echo_effects(models).take(i as int)[j]);
                } else {
                    assert(models[j].id == records@[j].id@);
                }
            }
            assert(after =~= wanted);
        }
        i = i + 1;
    }
    let exported = export(&records);
    let ghost echoed = effects@;
    effects.push(Effect::Write(exported.content));
    let step = Step { run: Run { path, stage: Stage::Writing { count: exported.count } }, effects };
    proof {
        let wanted = echo_effects(models).push(EffectModel::Write(export_bytes(id_bytes(models))));
        assert(echo_effects(models).take(i as int) =~= echo_effects(models));
        assert(step@.effects.len() == wanted.len());
        assert forall|j: int| 0 <= j < wanted.len() implies step@.effects[j] == wanted[j] by {
            if j < i {
                assert(effect_models(echoed)[j] == echo_effects(models)[j]);
            }
        }
        assert(step@.effects =~= wanted);
    }
    step
}

fn written(path: String, count: usize) -> (r: Step)
    ensures
        r@ == next_step(
            RunModel { path: path@, stage: StageModel::Writing { count: count as nat } },
            EventModel::Written,
        ),
{
    let mut effects: Vec<Effect> = Vec::new();
    effects.push(Effect::Print(summary_line(count)));
    effects.push(Effect::Finish(Ok(())));
    let step = Step { run: Run { path, stage: Stage::Done }, effects };
    assert(step@.effects =~= seq![
        EffectModel::Print(summary_text(count as nat)),
        EffectModel::Finish(Ok(())),
    ]);
    step
}

/// What is said of a failure on the console.
pub open spec fn failure_text(error: RunError) -> Seq<char> {
    match error {
        RunError::CredentialInput => "Failed to read line"@,
        RunError::Fetch(FetchError::Transport) => "the request for the metrics failed"@,
        RunError::Fetch(FetchError::Decode) => "the response is not the expected JSON document"@,
        RunError::Io => "the export file could not be written"@,
    }
}

impl RunError {
    /// Says on the console what went wrong.
    pub fn describe(&self) -> (r: String)
        ensures
            r@ == failure_text(*self),
    {
        match self {
            RunError::CredentialInput => String::from_str("Failed to read line"),
            RunError::Fetch(FetchError::Transport) => String::from_str(
                "the request for the metrics failed",
            ),
            RunError::Fetch(FetchError::Decode) => String::from_str(
                "the response is not the expected JSON document",
            ),
            RunError::Io => String::from_str("the export file could not be written"),
        }
    }
}

/// The path of the export file is fixed when the run starts: no step changes it.
pub proof fn lemma_path_is_fixed(run: RunModel, event: EventModel)
    ensures
        next_step(run, event).run.path == run.path,
{
}

/// A run that has ended stays as it is and asks for nothing more.
pub proof fn lemma_ended_run_is_silent(run: RunModel, event: EventModel)
    requires
        run.stage is Done,
    ensures
        next_step(run, event) == (StepModel { run, effects: seq![] }),
{
}

/// The failure that an event reports, if it reports one.
pub open spec fn failure_of(event: EventModel) -> Option<RunError> {
    match event {
        EventModel::InputFailed => Some(RunError::CredentialInput),
        EventModel::TransportFailed => Some(RunError::Fetch(FetchError::Transport)),
        EventModel::OutputFailed => Some(RunError::Io),
        _ => None,
    }
}

/// Whether a run at `stage` waits for `event`.
pub open spec fn awaits(stage: StageModel, event: EventModel) -> bool {
    match stage {
        StageModel::ApiKey => event is Line || event is InputFailed,
        StageModel::AppKey { .. } => event is Line || event is InputFailed,
        StageModel::Response => event is Body || event is TransportFailed,
        StageModel::Creation { .. } => event is Created || event is OutputFailed,
        StageModel::Writing { .. } => event is Written || event is OutputFailed,
        StageModel::Done => false,
    }
}

/// An event that the run does not wait for changes nothing and asks for nothing.
pub proof fn lemma_unawaited_event_is_ignored(run: RunModel, event: EventModel)
    requires
        !awaits(run.stage, event),
    ensures
        next_step(run, event) == (StepModel { run, effects: seq![] }),
{
}

/// Every failure is final: a failure that the run waits for ends it, and leaves
/// nothing to do but to finish with that failure.
pub proof fn lemma_failure_ends_the_run(run: RunModel, event: EventModel, error: RunError)
    requires
        awaits(run.stage, event),
        failure_of(event) == Some(error),
    ensures
        next_step(run, event) == failed_step(run.path, error),
{
}

/// A body that is not the expected document ends the run with a decode failure
/// before any file is asked for.
pub proof fn lemma_unreadable_body_leaves_no_file(path: Seq<char>, body: Seq<char>)
    requires
        records_of_body(body) is None,
    ensures
        next_step(RunModel { path, stage: StageModel::Response }, EventModel::Body(body))
            == failed_step(path, RunError::Fetch(FetchError::Decode)),
{
}

/// With usable keys on the command line nothing is asked for: the run goes
/// straight to the request.
pub proof fn lemma_usable_keys_start_the_fetch(
    api_key: Seq<char>,
    app_key: Seq<char>,
    date: CalendarDate,
)
    requires
        is_valid_key(api_key),
        is_valid_key(app_key),
    ensures
        start_step(api_key, app_key, date) == (StepModel {
            run: RunModel { path: export_file_name(date), stage: StageModel::Response },
            effects: seq![
                EffectModel::Print(PROGRESS@),
                EffectModel::Send(request_for(CredentialsModel { api_key, app_key })),
            ],
        }),
{
    lemma_valid_key_is_header_value(api_key);
    lemma_valid_key_is_header_value(app_key);
}

impl Run {
    /// Starts a run on `date` with the keys that the command line gave, which
    /// are empty where it gave none.
    pub fn start(api_key: String, app_key: String, date: CalendarDate) -> (r: Step)
        ensures
            r@ == start_step(api_key@, app_key@, date),
    {
        let path = export_path(date);
        if validate_keys(api_key.as_str(), app_key.as_str()) {
            fetch(Credentials { api_key, app_key }, path)
        } else {
            let mut effects: Vec<Effect> = Vec::new();
            effects.push(Effect::Print(String::from_str(USAGE)));
            effects.push(Effect::Print(String::from_str(PROMPT_NOTICE)));
            effects.push(Effect::Print(String::from_str(API_KEY_PROMPT)));
            effects.push(Effect::ReadLine);
            let step = Step { run: Run { path, stage: Stage::ApiKey }, effects };
            assert(step@.effects =~= start_step(api_key@, app_key@, date).effects);
            step
        }
    }

    /// Starts a run on the date of today, as the clock of the machine gives it.
    pub fn start_today(api_key: String, app_key: String) -> (r: Step)
        ensures
            exists|date: CalendarDate|
                date.in_calendar() && r@ == #[trigger] start_step(api_key@, app_key@, date),
    {
        let date = local_date();
        Run::start(api_key, app_key, date)
    }

    /// Takes the run one step on: what `event` brings about.
    pub fn advance(self, event: Event) -> (r: Step)
        ensures
            r@ == next_step(self@, event@),
    {
        let Run { path, stage } = self;
        match (stage, event) {
            (Stage::ApiKey, Event::Line(line)) => {
                let mut effects: Vec<Effect> = Vec::new();
                effects.push(Effect::Print(String::from_str(APP_KEY_PROMPT)));
                effects.push(Effect::ReadLine);
                let api_key = trim_line(line.as_str());
                let step = Step { run: Run { path, stage: Stage::AppKey { api_key } }, effects };
                assert(step@.effects =~= seq![
                    EffectModel::Print(APP_KEY_PROMPT@),
                    EffectModel::ReadLine,
                ]);
                step
            },
            (Stage::ApiKey, Event::InputFailed) => fail(path, RunError::CredentialInput),
            (Stage::AppKey { api_key }, Event::Line(line)) => {
                let app_key = trim_line(line.as_str());
                fetch(Credentials { api_key, app_key }, path)
            },
            (Stage::AppKey { api_key }, Event::InputFailed) => fail(
                path,
                RunError::CredentialInput,
            ),
            (Stage::Response, Event::Body(body)) => decoded(path, body),
            (Stage::Response, Event::TransportFailed) => fail(
                path,
                RunError::Fetch(FetchError::Transport),
            ),
            (Stage::Creation { records }, Event::Created) => created(path, records),
            (Stage::Creation { records }, Event::OutputFailed) => fail(path, RunError::Io),
            (Stage::Writing { count }, Event::Written) => written(path, count),
            (Stage::Writing { count }, Event::OutputFailed) => fail(path, RunError::Io),
            (stage, _) => unchanged(Run { path, stage }),
        }
    }
}

} // verus!
