//! The two renderings of a comic: a block of labelled lines and a JSON object.

use vstd::prelude::*;
use vstd::string::StringExecFns;
use crate::decimal::{append_decimal, decimal, is_digit, lemma_decimal_digits};
use crate::model::{Comic, ComicError, ComicView, OutFormat};

verus! {

/// The five lines of the text rendering, without their line breaks: title,
/// number, date, description and image address, each behind its label.
pub open spec fn text_lines(c: ComicView) -> Seq<Seq<char>> {
    seq![
        "Title: "@ + c.title,
        "Comic No: "@ + decimal(c.num),
        "Date: "@ + c.date,
        "Description: "@ + c.desc,
        "Image: "@ + c.img_url,
    ]
}

/// The lines one after the other, each followed by a line break.
pub open spec fn join_lines(lines: Seq<Seq<char>>) -> Seq<char>
    decreases lines.len(),
{
    if lines.len() == 0 {
        Seq::empty()
    } else {
        join_lines(lines.drop_last()) + lines.last() + seq!['\n']
    }
}

/// The text rendering of a comic. Values stand in it as they are.
pub open spec fn text_block(c: ComicView) -> Seq<char> {
    join_lines(text_lines(c))
}

/// The JSON object whose members are the given texts, in the order title,
/// num, date, desc, img_url, without any white space. The four texts are
/// taken as JSON values already; the number is written in decimal.
pub open spec fn json_object(
    title: Seq<char>,
    num: nat,
    date: Seq<char>,
    desc: Seq<char>,
    img_url: Seq<char>,
) -> Seq<char> {
    "{\"title\":"@ + title + ",\"num\":"@ + decimal(num) + ",\"date\":"@ + date + ",\"desc\":"@
        + desc + ",\"img_url\":"@ + img_url + "}"@
}

/// The JSON string literal that `serde_json` writes for the text `s`:
/// quotation marks around `s` with the characters escaped that JSON requires.
/// `None` where `serde_json` reports an error for `s`.
pub uninterp spec fn json_string(s: Seq<char>) -> Option<Seq<char>>;

/// The JSON rendering of a comic: the object of its five members, the four
/// texts as JSON string literals. `None` where one of them has no literal.
pub open spec fn json_text(c: ComicView) -> Option<Seq<char>> {
    match (json_string(c.title), json_string(c.date), json_string(c.desc), json_string(c.img_url)) {
        (Some(title), Some(date), Some(desc), Some(img_url)) => Some(
            json_object(title, c.num, date, desc, img_url),
        ),
        _ => None,
    }
}

/// The rendering of a comic in the format `of`; `None` where it has none.
pub open spec fn rendering(c: ComicView, of: OutFormat) -> Option<Seq<char>> {
    match of {
        OutFormat::Text => Some(text_block(c)),
        OutFormat::Json => json_text(c),
    }
}

/// The error of `serde_json`, of which nothing is read.
#[verifier::external_type_specification]
#[verifier::external_body]
pub struct ExJsonError(serde_json::Error);

/// `serde_json::to_string` on a string slice. Trusted: the outcome depends
/// on the text of `s` alone; a successful call returns the JSON string
/// literal of `s`. Nothing is claimed of when the call succeeds.
#[verifier::external_body]
fn encode_json_string(s: &str) -> (r: Result<String, serde_json::Error>)
    ensures
        r matches Ok(t) ==> json_string(s@) == Some(t@),
        r is Err ==> json_string(s@) is None,
{
    serde_json::to_string(s)
}

/// The text block of five lines is unfolded: each line is its label and its
/// value, and the block is the lines in their order, a line break after each.
pub proof fn lemma_text_block_lines(c: ComicView)
    ensures
        text_lines(c).len() == 5,
        text_lines(c)[0] == "Title: "@ + c.title,
        text_lines(c)[1] == "Comic No: "@ + decimal(c.num),
        text_lines(c)[2] == "Date: "@ + c.date,
        text_lines(c)[3] == "Description: "@ + c.desc,
        text_lines(c)[4] == "Image: "@ + c.img_url,
        text_block(c) == text_lines(c)[0] + seq!['\n'] + text_lines(c)[1] + seq!['\n']
            + text_lines(c)[2] + seq!['\n'] + text_lines(c)[3] + seq!['\n'] + text_lines(c)[4]
            + seq!['\n'],
{
    let l = text_lines(c);
    let l4 = l.drop_last();
    let l3 = l4.drop_last();
    let l2 = l3.drop_last();
    let l1 = l2.drop_last();
    let l0 = l1.drop_last();
    assert(l0.len() == 0);
    assert(join_lines(l0) =~= Seq::<char>::empty());
    assert(join_lines(l1) =~= l[0] + seq!['\n']);
    assert(join_lines(l2) =~= join_lines(l1) + l[1] + seq!['\n']);
    assert(join_lines(l3) =~= join_lines(l2) + l[2] + seq!['\n']);
    assert(join_lines(l4) =~= join_lines(l3) + l[3] + seq!['\n']);
    assert(join_lines(l) =~= join_lines(l4) + l[4] + seq!['\n']);
    assert(text_block(c) =~= l[0] + seq!['\n'] + l[1] + seq!['\n'] + l[2] + seq!['\n'] + l[3]
        + seq!['\n'] + l[4] + seq!['\n']);
}

/// How many line breaks `s` holds.
pub open spec fn line_breaks(s: Seq<char>) -> nat
    decreases s.len(),
{
    if s.len() == 0 {
        0
    } else {
        line_breaks(s.drop_last()) + if s.last() == '\n' {
            1nat
        } else {
            0nat
        }
    }
}

/// Whether `s` holds no line break.
pub open spec fn single_line(s: Seq<char>) -> bool {
    forall|i: int| 0 <= i < s.len() ==> s[i] != '\n'
}

/// The line breaks of a concatenation are those of its two parts.
pub proof fn lemma_line_breaks_concat(a: Seq<char>, b: Seq<char>)
    ensures
        line_breaks(a + b) == line_breaks(a) + line_breaks(b),
    decreases b.len(),
{
    if b.len() == 0 {
        assert(a + b =~= a);
    } else {
        assert((a + b).drop_last() =~= a + b.drop_last());
        lemma_line_breaks_concat(a, b.drop_last());
    }
}

/// A text without line breaks counts none.
pub proof fn lemma_single_line_has_no_breaks(s: Seq<char>)
    requires
        single_line(s),
    ensures
        line_breaks(s) == 0,
    decreases s.len(),
{
    if s.len() > 0 {
        lemma_single_line_has_no_breaks(s.drop_last());
    }
}

/// Lines that hold no line break themselves are joined to a text with as
/// many line breaks as there are lines.
pub proof fn lemma_join_lines_breaks(lines: Seq<Seq<char>>)
    requires
        forall|i: int| 0 <= i < lines.len() ==> single_line(#[trigger] lines[i]),
    ensures
        line_breaks(join_lines(lines)) == lines.len(),
    decreases lines.len(),
{
    if lines.len() > 0 {
        let front = lines.drop_last();
        assert forall|i: int| 0 <= i < front.len() implies single_line(#[trigger] front[i]) by {
            assert(front[i] == lines[i]);
        }
        lemma_join_lines_breaks(front);
        lemma_single_line_has_no_breaks(lines.last());
        lemma_line_breaks_concat(join_lines(front), lines.last());
        lemma_line_breaks_concat(join_lines(front) + lines.last(), seq!['\n']);
        assert(seq!['\n'].drop_last() =~= Seq::<char>::empty());
        assert(line_breaks(seq!['\n'].drop_last()) == 0);
        assert(line_breaks(seq!['\n']) == 1);
    }
}

/// None of the five labels holds a line break.
proof fn lemma_labels_single_line()
    ensures
        single_line("Title: "@),
        single_line("Comic No: "@),
        single_line("Date: "@),
        single_line("Description: "@),
        single_line("Image: "@),
{
    reveal_strlit("Title: ");
    reveal_strlit("Comic No: ");
    reveal_strlit("Date: ");
    reveal_strlit("Description: ");
    reveal_strlit("Image: ");
}

/// Where no value of the comic holds a line break, the text rendering is
/// exactly five lines: each of its lines is free of line breaks, and the
/// block holds five line breaks, the last of them at its end.
pub proof fn lemma_text_block_five_lines(c: ComicView)
    requires
        single_line(c.title),
        single_line(c.date),
        single_line(c.desc),
        single_line(c.img_url),
    ensures
        text_lines(c).len() == 5,
        forall|i: int| 0 <= i < 5 ==> single_line(#[trigger] text_lines(c)[i]),
        line_breaks(text_block(c)) == 5,
        text_block(c).last() == '\n',
{
    lemma_labels_single_line();
    lemma_decimal_digits(c.num);
    assert(single_line(decimal(c.num))) by {
        assert forall|i: int| 0 <= i < decimal(c.num).len() implies decimal(c.num)[i]
            != '\n' by {
            assert(is_digit(decimal(c.num)[i]));
        }
    }
    let l = text_lines(c);
    assert(single_line(l[0]));
    assert(single_line(l[1]));
    assert(single_line(l[2]));
    assert(single_line(l[3]));
    assert(single_line(l[4]));
    lemma_join_lines_breaks(l);
    lemma_text_block_lines(c);
}

/// Writes the members of a JSON object around four texts that are JSON
/// values already, and the number in decimal.
pub fn json_document(title: &str, num: usize, date: &str, desc: &str, img_url: &str) -> (s: String)
    ensures
        s@ == json_object(title@, num as nat, date@, desc@, img_url@),
{
    let mut s = String::new();
    s.append("{\"title\":");
    s.append(title);
    s.append(",\"num\":");
    append_decimal(&mut s, num);
    s.append(",\"date\":");
    s.append(date);
    s.append(",\"desc\":");
    s.append(desc);
    s.append(",\"img_url\":");
    s.append(img_url);
    s.append("}");
    assert(s@ =~= json_object(title@, num as nat, date@, desc@, img_url@));
    s
}

impl Comic {
    /// The text rendering: five lines, each a label and a value.
    pub fn to_text(&self) -> (s: String)
        ensures
            s@ == text_block(self@),
    {
        let mut s = String::new();
        s.append("Title: ");
        s.append(self.title.as_str());
        s.append("\n");
        s.append("Comic No: ");
        append_decimal(&mut s, self.num);
        s.append("\n");
        s.append("Date: ");
        s.append(self.date.as_str());
        s.append("\n");
        s.append("Description: ");
        s.append(self.desc.as_str());
        s.append("\n");
        s.append("Image: ");
        s.append(self.img_url.as_str());
        s.append("\n");
        proof {
            lemma_text_block_lines(self@);
            reveal_strlit("\n");
            assert("\n"@ =~= seq!['\n']);
            assert(s@ =~= text_block(self@));
        }
        s
    }

    /// The JSON rendering, or `Serialization` where one of the texts could
    /// not be encoded.
    pub fn to_json(&self) -> (r: Result<String, ComicError>)
        ensures
            match json_text(self@) {
                Some(text) => r matches Ok(s) && s@ == text,
                None => r == Err::<String, ComicError>(ComicError::Serialization),
            },
    {
        let title = match encode_json_string(self.title.as_str()) {
            Ok(t) => t,
            Err(_) => {
                return Err(ComicError::Serialization);
            },
        };
        let date = match encode_json_string(self.date.as_str()) {
            Ok(t) => t,
            Err(_) => {
                return Err(ComicError::Serialization);
            },
        };
        let desc = match encode_json_string(self.desc.as_str()) {
            Ok(t) => t,
            Err(_) => {
                return Err(ComicError::Serialization);
            },
        };
        let img_url = match encode_json_string(self.img_url.as_str()) {
            Ok(t) => t,
            Err(_) => {
                return Err(ComicError::Serialization);
            },
        };
        Ok(json_document(title.as_str(), self.num, date.as_str(), desc.as_str(), img_url.as_str()))
    }

    /// The rendering that `of` selects. The text rendering never fails.
    pub fn render(&self, of: OutFormat) -> (r: Result<String, ComicError>)
        ensures
            match rendering(self@, of) {
                Some(text) => r matches Ok(s) && s@ == text,
                None => r == Err::<String, ComicError>(ComicError::Serialization),
            },
    {
        match of {
            OutFormat::Text => Ok(self.to_text()),
            OutFormat::Json => self.to_json(),
        }
    }
}

} // verus!
