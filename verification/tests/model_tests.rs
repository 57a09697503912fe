use xkcd::decimal::decimal_string;
use xkcd::{Comic, ComicResponse};

fn response(day: &str, month: &str, year: &str) -> ComicResponse {
    ComicResponse {
        month: month.to_string(),
        num: 500,
        link: String::new(),
        year: year.to_string(),
        news: String::new(),
        safe_title: "A".to_string(),
        transcript: "words".to_string(),
        alt: "desc".to_string(),
        img: "https://x/y/z.png".to_string(),
        title: "A".to_string(),
        day: day.to_string(),
    }
}

#[test]
fn date_is_day_month_year() {
    let comic = Comic::from_response(response("1", "2", "2010"));
    assert_eq!(comic.date, "1-2-2010");
}

#[test]
fn date_is_neither_padded_nor_validated() {
    assert_eq!(Comic::from_response(response("07", "3", "99")).date, "07-3-99");
    assert_eq!(Comic::from_response(response("", "", "")).date, "--");
    assert_eq!(Comic::from_response(response("40", "13", "-1")).date, "40-13--1");
    assert_eq!(Comic::from_response(response("a-b", " ", "c")).date, "a-b- -c");
}

#[test]
fn conversion_copies_and_renames() {
    let comic = Comic::from_response(response("1", "2", "2010"));
    assert_eq!(
        comic,
        Comic {
            title: "A".to_string(),
            num: 500,
            date: "1-2-2010".to_string(),
            desc: "desc".to_string(),
            img_url: "https://x/y/z.png".to_string(),
        }
    );
}

#[test]
fn conversion_is_deterministic() {
    let a = response("24", "12", "2021");
    let b = a.clone();
    assert_eq!(Comic::from_response(a), Comic::from_response(b));
}

#[test]
fn decimal_of_small_and_large_numbers() {
    assert_eq!(decimal_string(0), "0");
    assert_eq!(decimal_string(9), "9");
    assert_eq!(decimal_string(10), "10");
    assert_eq!(decimal_string(500), "500");
    assert_eq!(decimal_string(1234567890), "1234567890");
    assert_eq!(decimal_string(usize::MAX), format!("{}", usize::MAX));
}

#[test]
fn default_options() {
    let args = xkcd::Args::default();
    assert_eq!(args.timeout, 30);
    assert_eq!(args.output, xkcd::OutFormat::Text);
    assert_eq!(args.num, None);
    assert!(!args.save);
}

#[test]
fn decimal_reads_back_as_the_number() {
    for n in [0usize, 1, 7, 10, 11, 99, 100, 101, 999, 1000, 65535, 4294967295, usize::MAX - 1] {
        let text = decimal_string(n);
        assert_eq!(text.parse::<usize>(), Ok(n));
        assert!(n == 0 || !text.starts_with('0'));
    }
}
