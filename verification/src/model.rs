//! The data of one run: options, the service's response and the display model.

use vstd::prelude::*;
use vstd::string::StringExecFns;

verus! {

/// How a comic is written out.
#[derive(Clone, Copy, Debug, PartialEq, Eq, Structural)]
pub enum OutFormat {
    Json,
    Text,
}

/// The options of one run.
#[derive(Clone, Copy, Debug)]
pub struct Args {
    /// Seconds allowed for a whole network request.
    pub timeout: u64,
    /// The rendering of the comic.
    pub output: OutFormat,
    /// The comic to load; the latest one where absent.
    pub num: Option<usize>,
    /// Whether the image is stored in the working directory.
    pub save: bool,
}

impl Default for Args {
    /// The options of a run that is given none: thirty seconds for a
    /// request, text output, the latest comic, nothing stored.
    fn default() -> (args: Args)
        ensures
            args.timeout == 30,
            args.output == OutFormat::Text,
            args.num is None,
            !args.save,
    {
        Args { timeout: 30, output: OutFormat::Text, num: None, save: false }
    }
}

/// Why a run ends without success.
#[derive(Clone, Copy, Debug, PartialEq, Eq, Structural)]
pub enum ComicError {
    /// A request could not be made, timed out or its body could not be read.
    Transport,
    /// The service's answer is not a complete comic record.
    Parse,
    /// The image address gives no file name.
    Path,
    /// The image file could not be created or written.
    Io,
    /// The display model could not be encoded.
    Serialization,
}

/// A comic record as the service delivers it.
#[derive(Clone, Debug, PartialEq, Eq)]
pub struct ComicResponse {
    pub month: String,
    pub num: usize,
    pub link: String,
    pub year: String,
    pub news: String,
    pub safe_title: String,
    pub transcript: String,
    pub alt: String,
    pub img: String,
    pub title: String,
    pub day: String,
}

/// The mathematical content of a [`ComicResponse`].
pub struct ComicResponseView {
    pub month: Seq<char>,
    pub num: nat,
    pub link: Seq<char>,
    pub year: Seq<char>,
    pub news: Seq<char>,
    pub safe_title: Seq<char>,
    pub transcript: Seq<char>,
    pub alt: Seq<char>,
    pub img: Seq<char>,
    pub title: Seq<char>,
    pub day: Seq<char>,
}

impl View for ComicResponse {
    type V = ComicResponseView;

    open spec fn view(&self) -> ComicResponseView {
        ComicResponseView {
            month: self.month@,
            num: self.num as nat,
            link: self.link@,
            year: self.year@,
            news: self.news@,
            safe_title: self.safe_title@,
            transcript: self.transcript@,
            alt: self.alt@,
            img: self.img@,
            title: self.title@,
            day: self.day@,
        }
    }
}

/// A comic as it is shown and stored.
#[derive(Clone, Debug, PartialEq, Eq)]
pub struct Comic {
    pub title: String,
    pub num: usize,
    pub date: String,
    pub desc: String,
    pub img_url: String,
}

/// The mathematical content of a [`Comic`].
pub struct ComicView {
    pub title: Seq<char>,
    pub num: nat,
    pub date: Seq<char>,
    pub desc: Seq<char>,
    pub img_url: Seq<char>,
}

impl View for Comic {
    type V = ComicView;

    open spec fn view(&self) -> ComicView {
        ComicView {
            title: self.title@,
            num: self.num as nat,
            date: self.date@,
            desc: self.desc@,
            img_url: self.img_url@,
        }
    }
}

/// Day, month and year as delivered, joined by hyphens.
pub open spec fn date_text(day: Seq<char>, month: Seq<char>, year: Seq<char>) -> Seq<char> {
    day + seq!['-'] + month + seq!['-'] + year
}

/// The display model of a response: title, number and image address are
/// kept, the description is the alternative text, the date is composed, and
/// the other fields are dropped.
pub open spec fn display_model(r: ComicResponseView) -> ComicView {
    ComicView {
        title: r.title,
        num: r.num,
        date: date_text(r.day, r.month, r.year),
        desc: r.alt,
        img_url: r.img,
    }
}

impl Comic {
    /// Projects a response onto the display model. Nothing is validated.
    pub fn from_response(cr: ComicResponse) -> (c: Comic)
        ensures
            c@ == display_model(cr@),
    {
        let mut date = String::new();
        date.append(cr.day.as_str());
        date.append("-");
        date.append(cr.month.as_str());
        date.append("-");
        date.append(cr.year.as_str());
        proof {
            reveal_strlit("-");
            assert("-"@ =~= seq!['-']);
            assert(date@ =~= date_text(cr.day@, cr.month@, cr.year@));
        }
        Comic { title: cr.title, num: cr.num, date, desc: cr.alt, img_url: cr.img }
    }
}

/// The date of the display model is `day-month-year`: the three parts stand
/// in it exactly as the response holds them, with one hyphen between each.
pub proof fn lemma_date_is_concatenation(r: ComicResponseView)
    ensures
        display_model(r).date == r.day + seq!['-'] + r.month + seq!['-'] + r.year,
        display_model(r).date.len() == r.day.len() + r.month.len() + r.year.len() + 2,
        display_model(r).date.subrange(0, r.day.len() as int) == r.day,
        display_model(r).date[r.day.len() as int] == '-',
        display_model(r).date.subrange(
            (r.day.len() + 1) as int,
            (r.day.len() + 1 + r.month.len()) as int,
        ) == r.month,
        display_model(r).date[(r.day.len() + 1 + r.month.len()) as int] == '-',
        display_model(r).date.subrange(
            (r.day.len() + r.month.len() + 2) as int,
            display_model(r).date.len() as int,
        ) == r.year,
{
    let d = display_model(r).date;
    let a = r.day.len() as int;
    let b = r.month.len() as int;
    assert(d.subrange(0, a) =~= r.day);
    assert(d.subrange(a + 1, a + 1 + b) =~= r.month);
    assert(d.subrange(a + b + 2, d.len() as int) =~= r.year);
}

/// The conversion is a function of what the response holds: responses with
/// equal content have equal display models.
pub proof fn lemma_conversion_deterministic(a: ComicResponse, b: ComicResponse)
    requires
        a@ == b@,
    ensures
        display_model(a@) == display_model(b@),
{
}

} // verus!
