//! The pages that the game renders, and what a request leads to.
use vstd::prelude::*;
use crate::reply::{Reply, Status, header_views, parse_render, reply_is, server_error, server_error_text};
use crate::session::SessionWrite;
use vstd::string::StringExecFns;

verus! {

/// A page of the game with the values it shows. The progress bar that some
/// pages show is drawn from `all_points` and the number of books.
pub enum Page {
    /// The player gave up on the book at `counter`.
    GiveUp { title: String, author: String, all_points: u32, counter: usize },
    /// The guess named the book at `counter`.
    Correct { guess: String, title: String, author: String, all_points: u32, counter: usize },
    /// The guess was wrong.
    Wrong { guess: String },
    /// The sentences of the book; the first `stage` of them are readable, the
    /// rest masked.
    Sentences { stage: u8, sentence1: String, sentence2: String, sentence3: String },
    /// The first hint: the genre of the book.
    Help1 { genre: String },
    /// The second hint: the author of the book.
    Help2 { author: String },
    /// The main page, with a button for each hint still available.
    Index { help1_available: bool, help2_available: bool, all_points: u32, counter: usize },
    /// The results: for each book, `author "title"` and the points won on it.
    Finish { all_points: u32, books: Vec<(String, u8)> },
}

/// The template file that renders a page.
pub open spec fn template_text(page: Page) -> Seq<char> {
    match page {
        Page::GiveUp { .. } => "give-up.html"@,
        Page::Correct { .. } => "correct.html"@,
        Page::Wrong { .. } => "wrong.html"@,
        Page::Sentences { stage, .. } => if stage == 2 {
            "sentence2.html"@
        } else if stage == 3 {
            "sentence3.html"@
        } else {
            "sentence1.html"@
        },
        Page::Help1 { .. } => "help1.html"@,
        Page::Help2 { .. } => "help2.html"@,
        Page::Index { .. } => "index.html"@,
        Page::Finish { .. } => "finish.html"@,
    }
}

impl Page {
    /// The template file that renders the page.
    pub fn template(&self) -> (t: &'static str)
        ensures
            t@ == template_text(*self),
    {
        match self {
            Page::GiveUp { .. } => "give-up.html",
            Page::Correct { .. } => "correct.html",
            Page::Wrong { .. } => "wrong.html",
            Page::Sentences { stage, .. } => if *stage == 2 {
                "sentence2.html"
            } else if *stage == 3 {
                "sentence3.html"
            } else {
                "sentence1.html"
            },
            Page::Help1 { .. } => "help1.html",
            Page::Help2 { .. } => "help2.html",
            Page::Index { .. } => "index.html",
            Page::Finish { .. } => "finish.html",
        }
    }
}

/// The template of the button that offers hint `number` on the main page:
/// `help1-avail.html` for the first hint, `help2-avail.html` for the other.
pub fn hint_button_template(number: u8) -> (t: &'static str)
    ensures
        t@ == (if number == 1 {
            "help1-avail.html"@
        } else {
            "help2-avail.html"@
        }),
{
    if number == 1 {
        "help1-avail.html"
    } else {
        "help2-avail.html"
    }
}

/// The headers that make the browser swap a wrong guess into the form.
pub open spec fn wrong_guess_headers() -> Seq<(Seq<char>, Seq<char>)> {
    seq![("HX-Retarget"@, "#frm"@), ("HX-Reswap"@, "outerHTML"@)]
}

/// The reply to a rendered page. A wrong guess goes back into the form with
/// the headers that say so; any other page is sent as it is. Where rendering
/// failed the reply is a server error.
pub fn render_reply<E>(page: &Page, render: Result<String, E>) -> (r: Reply)
    ensures
        match render {
            Ok(html) => if page is Wrong {
                reply_is(r, Status::Success, wrong_guess_headers(), html@)
            } else {
                reply_is(r, Status::Success, Seq::empty(), html@)
            },
            Err(_) => reply_is(r, Status::InternalServerError, Seq::empty(), server_error_text()),
        },
{
    match page {
        Page::Wrong { .. } => match render {
            Ok(html) => {
                let mut headers: Vec<(String, String)> = Vec::new();
                headers.push((String::from_str("HX-Retarget"), String::from_str("#frm")));
                headers.push((String::from_str("HX-Reswap"), String::from_str("outerHTML")));
                let r = Reply { status: Status::Success, headers, body: html };
                assert(header_views(r.headers@) =~= wrong_guess_headers());
                r
            },
            Err(_) => server_error(),
        },
        _ => parse_render(render),
    }
}

/// What a request leads to: a page to render, or a reply as it stands.
pub enum Response {
    Render(Page),
    Direct(Reply),
}

/// The outcome of a request: the values to write to the session, in order,
/// and what to send back.
pub struct Outcome {
    pub writes: Vec<SessionWrite>,
    pub response: Response,
}

/// An outcome that writes nothing and answers with a server error.
pub fn failed_outcome() -> (out: Outcome)
    ensures
        out.writes@ == Seq::<SessionWrite>::empty(),
        out.response matches Response::Direct(r) && reply_is(
            r,
            Status::InternalServerError,
            Seq::empty(),
            server_error_text(),
        ),
{
    Outcome { writes: Vec::new(), response: Response::Direct(server_error()) }
}

} // verus!
