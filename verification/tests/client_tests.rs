use xkcd::client::request_url;
use xkcd::{Action, Args, Comic, ComicError, ComicResponse, Event, OutFormat, Stage, XkcdClient, BASE_URL};

fn args(output: OutFormat, num: Option<usize>, save: bool) -> Args {
    Args { timeout: 30, output, num, save }
}

fn response() -> ComicResponse {
    ComicResponse {
        month: "2".to_string(),
        num: 500,
        link: String::new(),
        year: "2010".to_string(),
        news: String::new(),
        safe_title: "A".to_string(),
        transcript: String::new(),
        alt: "desc".to_string(),
        img: "https://x/y/z.png".to_string(),
        title: "A".to_string(),
        day: "1".to_string(),
    }
}

fn comic() -> Comic {
    Comic::from_response(response())
}

#[test]
fn new_keeps_the_options() {
    let client = XkcdClient::new(args(OutFormat::Json, Some(3), true));
    assert_eq!(client.args.timeout, 30);
    assert_eq!(client.args.output, OutFormat::Json);
    assert_eq!(client.args.num, Some(3));
    assert!(client.args.save);
}

#[test]
fn latest_comic_is_requested_without_a_number() {
    let client = XkcdClient::new(args(OutFormat::Text, None, false));
    assert_eq!(client.request_url(), "https://xkcd.com/info.0.json");
    assert_ne!(client.request_url(), "https://xkcd.com/0/info.0.json");
}

#[test]
fn numbered_comic_is_requested_by_its_number() {
    let client = XkcdClient::new(args(OutFormat::Text, Some(500), false));
    assert_eq!(client.request_url(), "https://xkcd.com/500/info.0.json");
    let zero = XkcdClient::new(args(OutFormat::Text, Some(0), false));
    assert_eq!(zero.request_url(), "https://xkcd.com/0/info.0.json");
}

#[test]
fn request_url_below_any_base() {
    assert_eq!(BASE_URL, "https://xkcd.com");
    assert_eq!(request_url("http://localhost:8080", None), "http://localhost:8080/info.0.json");
    assert_eq!(request_url("http://localhost:8080", Some(42)), "http://localhost:8080/42/info.0.json");
    assert_eq!(request_url("", Some(1)), "/1/info.0.json");
}

#[test]
fn run_without_save_prints_text() {
    let client = XkcdClient::new(args(OutFormat::Text, Some(500), false));
    let (stage, action) = client.step(Stage::Start, Event::Begin).unwrap();
    assert_eq!(stage, Stage::UrlBuilt);
    assert_eq!(
        action,
        Action::Fetch { url: "https://xkcd.com/500/info.0.json".to_string(), timeout: 30 }
    );
    let (stage, action) = client.step(stage, Event::Body("{}".to_string())).unwrap();
    assert_eq!(stage, Stage::Fetched);
    assert_eq!(action, Action::Decode("{}".to_string()));
    let (stage, action) = client.step(stage, Event::Decoded(response())).unwrap();
    assert_eq!(stage, Stage::Rendered);
    assert_eq!(
        action,
        Action::Print(
            "Title: A\nComic No: 500\nDate: 1-2-2010\nDescription: desc\nImage: https://x/y/z.png\n"
                .to_string()
        )
    );
    let (stage, action) = client.step(stage, Event::Printed).unwrap();
    assert_eq!(stage, Stage::Done);
    assert_eq!(action, Action::Finish);
}

#[test]
fn run_with_json_output() {
    let client = XkcdClient::new(args(OutFormat::Json, Some(500), false));
    let (stage, action) = client.step(Stage::Fetched, Event::Decoded(response())).unwrap();
    assert_eq!(stage, Stage::Rendered);
    match action {
        Action::Print(doc) => {
            assert!(doc.contains(
                "\"num\":500,\"date\":\"1-2-2010\",\"desc\":\"desc\",\"img_url\":\"https://x/y/z.png\""
            ));
        }
        other => panic!("unexpected action {:?}", other),
    }
}

#[test]
fn run_with_save_stores_before_it_prints() {
    let client = XkcdClient::new(args(OutFormat::Text, None, true));
    let (stage, action) = client.step(Stage::Fetched, Event::Decoded(response())).unwrap();
    assert_eq!(stage, Stage::Converted(comic()));
    assert_eq!(
        action,
        Action::Save { url: "https://x/y/z.png".to_string(), file_name: "z.png".to_string() }
    );
    let (stage, action) = client.step(stage, Event::Saved).unwrap();
    assert_eq!(stage, Stage::Rendered);
    assert_eq!(action, Action::Print(comic().to_text()));
}

#[test]
fn save_without_file_name_is_a_path_error() {
    let client = XkcdClient::new(args(OutFormat::Text, None, true));
    let mut r = response();
    r.img = "https://example.com".to_string();
    let (stage, action) = client.step(Stage::Fetched, Event::Decoded(r)).unwrap();
    assert_eq!(stage, Stage::Failed(ComicError::Path));
    assert_eq!(action, Action::Abort(ComicError::Path));
}

#[test]
fn malformed_body_is_a_parse_error_and_nothing_is_printed() {
    let client = XkcdClient::new(args(OutFormat::Json, None, false));
    let (stage, _) = client.step(Stage::UrlBuilt, Event::Body("{not json".to_string())).unwrap();
    let (stage, action) = client.step(stage, Event::Failure(ComicError::Parse)).unwrap();
    assert_eq!(stage, Stage::Failed(ComicError::Parse));
    assert_eq!(action, Action::Abort(ComicError::Parse));
    assert_eq!(client.step(stage.clone(), Event::Printed), None);
    assert_eq!(client.step(stage, Event::Decoded(response())), None);
}

#[test]
fn unreachable_image_host_skips_the_rendering() {
    for output in [OutFormat::Text, OutFormat::Json] {
        let client = XkcdClient::new(args(output, Some(500), true));
        let (stage, _) = client.step(Stage::Fetched, Event::Decoded(response())).unwrap();
        let (stage, action) = client.step(stage, Event::Failure(ComicError::Transport)).unwrap();
        assert_eq!(stage, Stage::Failed(ComicError::Transport));
        assert_eq!(action, Action::Abort(ComicError::Transport));
        assert_eq!(client.step(stage.clone(), Event::Saved), None);
        assert_eq!(client.step(stage, Event::Printed), None);
    }
}

#[test]
fn failed_fetch_is_a_transport_error() {
    let client = XkcdClient::new(args(OutFormat::Text, None, false));
    assert_eq!(
        client.step(Stage::UrlBuilt, Event::Failure(ComicError::Transport)),
        Some((Stage::Failed(ComicError::Transport), Action::Abort(ComicError::Transport)))
    );
}

#[test]
fn failed_write_is_an_io_error() {
    let client = XkcdClient::new(args(OutFormat::Text, None, true));
    assert_eq!(
        client.step(Stage::Converted(comic()), Event::Failure(ComicError::Io)),
        Some((Stage::Failed(ComicError::Io), Action::Abort(ComicError::Io)))
    );
}

#[test]
fn events_out_of_order_are_refused() {
    let client = XkcdClient::new(args(OutFormat::Text, None, true));
    assert_eq!(client.step(Stage::Start, Event::Printed), None);
    assert_eq!(client.step(Stage::Start, Event::Failure(ComicError::Transport)), None);
    assert_eq!(client.step(Stage::UrlBuilt, Event::Begin), None);
    assert_eq!(client.step(Stage::UrlBuilt, Event::Failure(ComicError::Parse)), None);
    assert_eq!(client.step(Stage::Fetched, Event::Body(String::new())), None);
    assert_eq!(client.step(Stage::Fetched, Event::Failure(ComicError::Io)), None);
    assert_eq!(client.step(Stage::Converted(comic()), Event::Failure(ComicError::Parse)), None);
    assert_eq!(client.step(Stage::Converted(comic()), Event::Failure(ComicError::Path)), None);
    assert_eq!(client.step(Stage::Rendered, Event::Saved), None);
    assert_eq!(client.step(Stage::Rendered, Event::Failure(ComicError::Serialization)), None);
    assert_eq!(client.step(Stage::Done, Event::Begin), None);
    assert_eq!(client.step(Stage::Done, Event::Printed), None);
}

fn rank(stage: &Stage) -> u8 {
    match stage {
        Stage::Start => 0,
        Stage::UrlBuilt => 1,
        Stage::Fetched => 2,
        Stage::Converted(_) => 3,
        Stage::Rendered => 4,
        Stage::Done => 5,
        Stage::Failed(_) => 6,
    }
}

#[test]
fn every_step_leads_to_a_later_stage() {
    let client = XkcdClient::new(args(OutFormat::Json, Some(1), true));
    let events = vec![
        Event::Begin,
        Event::Body("{}".to_string()),
        Event::Decoded(response()),
        Event::Saved,
        Event::Printed,
    ];
    let mut stage = Stage::Start;
    let mut steps = 0;
    for event in events {
        let (next, _) = client.step(stage.clone(), event).unwrap();
        assert!(rank(&next) > rank(&stage));
        stage = next;
        steps += 1;
    }
    assert_eq!(stage, Stage::Done);
    assert_eq!(steps, 5);
}

#[test]
fn a_step_is_repeatable() {
    let client = XkcdClient::new(args(OutFormat::Json, Some(1), true));
    assert_eq!(
        client.step(Stage::Fetched, Event::Decoded(response())),
        client.step(Stage::Fetched, Event::Decoded(response()))
    );
    assert_eq!(
        client.step(Stage::Converted(comic()), Event::Saved),
        client.step(Stage::Converted(comic()), Event::Saved)
    );
}
