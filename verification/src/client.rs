//! The client: the address it requests and the order of a run's steps.
//!
//! The client does no I/O itself. A run is driven from outside: the driver
//! hands each [`Event`] to [`XkcdClient::step`], which answers with the next
//! [`Stage`] and the [`Action`] that the driver performs next.

use vstd::prelude::*;
use vstd::string::StringExecFns;
use crate::decimal::{append_decimal, decimal};
use crate::model::{Args, Comic, ComicError, ComicResponse, ComicResponseView, ComicView, OutFormat};
use crate::model::display_model;
use crate::persist::{file_name_of, url_path_segments};
use crate::render::rendering;

verus! {

/// The service's address.
pub const BASE_URL: &'static str = "https://xkcd.com";

/// The address of a comic's record below `base`: that of comic `n` where a
/// number is given, that of the latest comic where none is.
pub open spec fn request_address(base: Seq<char>, num: Option<usize>) -> Seq<char> {
    match num {
        Some(n) => base + "/"@ + decimal(n as nat) + "/info.0.json"@,
        None => base + "/info.0.json"@,
    }
}

/// Builds the address of a comic's record below `base`.
pub fn request_url(base: &str, num: Option<usize>) -> (url: String)
    ensures
        url@ == request_address(base@, num),
{
    let mut url = String::new();
    url.append(base);
    match num {
        Some(n) => {
            url.append("/");
            append_decimal(&mut url, n);
            url.append("/info.0.json");
        },
        None => {
            url.append("/info.0.json");
        },
    }
    assert(url@ =~= request_address(base@, num));
    url
}

/// How far a run has come.
#[derive(Clone, Debug, PartialEq, Eq)]
pub enum Stage {
    /// Nothing has happened yet.
    Start,
    /// The record's address is built and its body awaited.
    UrlBuilt,
    /// The body has arrived and its decoding is awaited.
    Fetched,
    /// The record is converted and the storing of its image awaited.
    Converted(Comic),
    /// The comic is rendered and its printing awaited.
    Rendered,
    /// The run has succeeded.
    Done,
    /// The run has been given up.
    Failed(ComicError),
}

/// What the driver reports.
#[derive(Clone, Debug, PartialEq, Eq)]
pub enum Event {
    /// The run begins.
    Begin,
    /// The body of the record's response, as text.
    Body(String),
    /// The decoded record.
    Decoded(ComicResponse),
    /// The image is stored.
    Saved,
    /// The rendering is printed.
    Printed,
    /// The last action failed.
    Failure(ComicError),
}

/// What the driver does next.
#[derive(Clone, Debug, PartialEq, Eq)]
pub enum Action {
    /// Request `url` once, the whole request within `timeout` seconds.
    Fetch { url: String, timeout: u64 },
    /// Decode the body into a record.
    Decode(String),
    /// Request `url` and write its body to `file_name` in the working directory.
    Save { url: String, file_name: String },
    /// Print the text and a line break.
    Print(String),
    /// End with success.
    Finish,
    /// End with the error.
    Abort(ComicError),
}

/// The mathematical content of a [`Stage`].
pub enum StageView {
    Start,
    UrlBuilt,
    Fetched,
    Converted(ComicView),
    Rendered,
    Done,
    Failed(ComicError),
}

/// The mathematical content of an [`Event`].
pub enum EventView {
    Begin,
    Body(Seq<char>),
    Decoded(ComicResponseView),
    Saved,
    Printed,
    Failure(ComicError),
}

/// The mathematical content of an [`Action`].
pub enum ActionView {
    Fetch { url: Seq<char>, timeout: u64 },
    Decode(Seq<char>),
    Save { url: Seq<char>, file_name: Seq<char> },
    Print(Seq<char>),
    Finish,
    Abort(ComicError),
}

impl View for Stage {
    type V = StageView;

    open spec fn view(&self) -> StageView {
        match *self {
            Stage::Start => StageView::Start,
            Stage::UrlBuilt => StageView::UrlBuilt,
            Stage::Fetched => StageView::Fetched,
            Stage::Converted(c) => StageView::Converted(c@),
            Stage::Rendered => StageView::Rendered,
            Stage::Done => StageView::Done,
            Stage::Failed(e) => StageView::Failed(e),
        }
    }
}

impl View for Event {
    type V = EventView;

    open spec fn view(&self) -> EventView {
        match *self {
            Event::Begin => EventView::Begin,
            Event::Body(b) => EventView::Body(b@),
            Event::Decoded(r) => EventView::Decoded(r@),
            Event::Saved => EventView::Saved,
            Event::Printed => EventView::Printed,
            Event::Failure(e) => EventView::Failure(e),
        }
    }
}

impl View for Action {
    type V = ActionView;

    open spec fn view(&self) -> ActionView {
        match *self {
            Action::Fetch { url, timeout } => ActionView::Fetch { url: url@, timeout },
            Action::Decode(b) => ActionView::Decode(b@),
            Action::Save { url, file_name } => ActionView::Save { url: url@, file_name: file_name@ },
            Action::Print(t) => ActionView::Print(t@),
            Action::Finish => ActionView::Finish,
            Action::Abort(e) => ActionView::Abort(e),
        }
    }
}

/// The end of a run that is given up for `e`.
pub open spec fn gives_up(e: ComicError) -> (StageView, ActionView) {
    (StageView::Failed(e), ActionView::Abort(e))
}

/// Rendering `c`: the rendering in the chosen format is printed, or the run
/// is given up where `c` has none.
pub open spec fn renders(args: Args, c: ComicView) -> (StageView, ActionView) {
    match rendering(c, args.output) {
        Some(text) => (StageView::Rendered, ActionView::Print(text)),
        None => gives_up(ComicError::Serialization),
    }
}

/// What follows the conversion: where the image is to be stored, its file
/// name is derived and the image saved before anything is rendered, and the
/// run is given up where the address gives no name; else `c` is rendered.
pub open spec fn proceeds(args: Args, c: ComicView) -> (StageView, ActionView) {
    if args.save {
        match file_name_of(url_path_segments(c.img_url)) {
            Some(name) => (
                StageView::Converted(c),
                ActionView::Save { url: c.img_url, file_name: name },
            ),
            None => gives_up(ComicError::Path),
        }
    } else {
        renders(args, c)
    }
}

/// The stage and the action that follow `event` in `stage`; `None` where
/// the event cannot follow there. An event can follow where it is the outcome
/// of the action that led to the stage, or a failure that this action can
/// end in.
pub open spec fn next_step(args: Args, stage: StageView, event: EventView) -> Option<
    (StageView, ActionView),
> {
    match (stage, event) {
        (StageView::Start, EventView::Begin) => Some(
            (
                StageView::UrlBuilt,
                ActionView::Fetch {
                    url: request_address(BASE_URL@, args.num),
                    timeout: args.timeout,
                },
            ),
        ),
        (StageView::UrlBuilt, EventView::Body(b)) => Some(
            (StageView::Fetched, ActionView::Decode(b)),
        ),
        (StageView::UrlBuilt, EventView::Failure(e)) => if e == ComicError::Transport {
            Some(gives_up(e))
        } else {
            None
        },
        (StageView::Fetched, EventView::Decoded(r)) => Some(proceeds(args, display_model(r))),
        (StageView::Fetched, EventView::Failure(e)) => if e == ComicError::Parse {
            Some(gives_up(e))
        } else {
            None
        },
        (StageView::Converted(c), EventView::Saved) => Some(renders(args, c)),
        (StageView::Converted(_), EventView::Failure(e)) => if e == ComicError::Transport || e
            == ComicError::Io {
            Some(gives_up(e))
        } else {
            None
        },
        (StageView::Rendered, EventView::Printed) => Some((StageView::Done, ActionView::Finish)),
        _ => None,
    }
}

/// A client for one run.
pub struct XkcdClient {
    pub args: Args,
}

impl XkcdClient {
    /// A client with the given options.
    pub fn new(args: Args) -> (client: Self)
        ensures
            client.args == args,
    {
        XkcdClient { args }
    }

    /// The address that this client requests.
    pub fn request_url(&self) -> (url: String)
        ensures
            url@ == request_address(BASE_URL@, self.args.num),
    {
        request_url(BASE_URL, self.args.num)
    }

    /// Renders `comic` and asks for its printing, or gives the run up.
    fn render_step(&self, comic: &Comic) -> (r: (Stage, Action))
        ensures
            (r.0@, r.1@) == renders(self.args, comic@),
    {
        match comic.render(self.args.output) {
            Ok(text) => (Stage::Rendered, Action::Print(text)),
            Err(e) => (Stage::Failed(e), Action::Abort(e)),
        }
    }

    /// What follows the conversion of a record into `comic`.
    fn proceed_step(&self, comic: Comic) -> (r: (Stage, Action))
        ensures
            (r.0@, r.1@) == proceeds(self.args, comic@),
    {
        if self.args.save {
            match comic.image_file_name() {
                Ok(file_name) => {
                    let url = comic.img_url.clone();
                    (Stage::Converted(comic), Action::Save { url, file_name })
                },
                Err(e) => (Stage::Failed(e), Action::Abort(e)),
            }
        } else {
            self.render_step(&comic)
        }
    }

    /// One step of a run: the stage and the action that follow `event` in
    /// `stage`, or `None` where the event cannot follow in that stage. A
    /// failure ends the run at once: nothing is saved or printed after it.
    pub fn step(&self, stage: Stage, event: Event) -> (r: Option<(Stage, Action)>)
        ensures
            match next_step(self.args, stage@, event@) {
                Some(step) => r matches Some(s) && (s.0@, s.1@) == step,
                None => r is None,
            },
    {
        match (stage, event) {
            (Stage::Start, Event::Begin) => {
                let url = self.request_url();
                Some((Stage::UrlBuilt, Action::Fetch { url, timeout: self.args.timeout }))
            },
            (Stage::UrlBuilt, Event::Body(body)) => Some((Stage::Fetched, Action::Decode(body))),
            (Stage::UrlBuilt, Event::Failure(ComicError::Transport)) => Some(
                (Stage::Failed(ComicError::Transport), Action::Abort(ComicError::Transport)),
            ),
            (Stage::Fetched, Event::Decoded(response)) => Some(
                self.proceed_step(Comic::from_response(response)),
            ),
            (Stage::Fetched, Event::Failure(ComicError::Parse)) => Some(
                (Stage::Failed(ComicError::Parse), Action::Abort(ComicError::Parse)),
            ),
            (Stage::Converted(comic), Event::Saved) => Some(self.render_step(&comic)),
            (Stage::Converted(_), Event::Failure(ComicError::Transport)) => Some(
                (Stage::Failed(ComicError::Transport), Action::Abort(ComicError::Transport)),
            ),
            (Stage::Converted(_), Event::Failure(ComicError::Io)) => Some(
                (Stage::Failed(ComicError::Io), Action::Abort(ComicError::Io)),
            ),
            (Stage::Rendered, Event::Printed) => Some((Stage::Done, Action::Finish)),
            _ => None,
        }
    }
}

/// The place of a stage in the order of a run.
pub open spec fn rank(stage: StageView) -> nat {
    match stage {
        StageView::Start => 0,
        StageView::UrlBuilt => 1,
        StageView::Fetched => 2,
        StageView::Converted(_) => 3,
        StageView::Rendered => 4,
        StageView::Done => 5,
        StageView::Failed(_) => 6,
    }
}

/// A run is linear: every step leads to a later stage, so no stage is
/// visited twice and nothing is tried again.
pub proof fn lemma_step_advances(args: Args, stage: StageView, event: EventView)
    requires
        next_step(args, stage, event) is Some,
    ensures
        next_step(args, stage, event) matches Some(step) && rank(step.0) > rank(stage),
{
}

/// A failure ends the run: the step that takes a failure leads to `Failed`
/// with the failure's error and asks for nothing but the end of the run, and
/// no event can follow in `Failed` or in `Done`.
pub proof fn lemma_failure_ends_run(args: Args, stage: StageView, e: ComicError, later: EventView)
    ensures
        next_step(args, stage, EventView::Failure(e)) matches Some(step) ==> step == gives_up(e),
        next_step(args, StageView::Failed(e), later) is None,
        next_step(args, StageView::Done, later) is None,
{
}

/// A rendering is printed only by the step that leads to `Rendered`, and
/// with saving asked for that step is never the one that takes the record:
/// the image is stored first.
pub proof fn lemma_print_follows_save(args: Args, stage: StageView, event: EventView)
    requires
        next_step(args, stage, event) matches Some(step) && step.1 is Print,
    ensures
        next_step(args, stage, event) matches Some(step) && step.0 == StageView::Rendered,
        args.save ==> stage is Converted && event == EventView::Saved,
        stage is Converted || (stage is Fetched && event is Decoded),
{
}

} // verus!
