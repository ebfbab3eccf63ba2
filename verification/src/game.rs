//! The decisions of each request of the game. Each function takes the values
//! that its request reads from the session and the request itself, and
//! returns the values to write back and the page or reply to send.
use vstd::prelude::*;
use vstd::string::StringExecFns;
use crate::book::{Book, get_entry};
use crate::page::{Outcome, Page, Response, failed_outcome};
use crate::placeholder::{generate_placeholder, is_placeholder_of};
use crate::reply::{Reply, Status, header_views, reply_is, server_error_text};
use crate::requests::{FormData, HelpReq, NextReq};
use crate::session::SessionWrite;
use crate::text::{decimal, decimal_text, lowercase, lowercase_of};

verus! {

/// The points a book gives before any hint, extra sentence or wrong guess.
pub const FULL_POINTS: u8 = 5;

/// The position of the book being played: the stored one, else the first.
pub open spec fn current_index(counter: Option<usize>) -> usize {
    match counter {
        Some(c) => c,
        None => 0,
    }
}

/// A title of the book at `n` in the list, or an empty text past its end.
pub open spec fn title_at(data: Seq<Book>, n: int) -> Seq<char> {
    if 0 <= n < data.len() {
        data[n].title@
    } else {
        Seq::empty()
    }
}

/// The other accepted title of the book at `n`, or an empty text past the end.
pub open spec fn title_alter_at(data: Seq<Book>, n: int) -> Seq<char> {
    if 0 <= n < data.len() {
        data[n].title_alter@
    } else {
        Seq::empty()
    }
}

/// The author of the book at `n`, or an empty text past the end.
pub open spec fn author_at(data: Seq<Book>, n: int) -> Seq<char> {
    if 0 <= n < data.len() {
        data[n].author@
    } else {
        Seq::empty()
    }
}

// ---------------------------------------------------------------------------
// Moving on to the next book

/// The session writes of a request for the next book: the counter moves on
/// unless it is at the last book, and starts at the first book where there is
/// none yet.
pub open spec fn counter_writes(db_size: nat, counter: Option<usize>) -> Seq<SessionWrite> {
    match counter {
        Some(c) => if c + 1 < db_size {
            seq![SessionWrite::Counter((c + 1) as usize)]
        } else {
            Seq::empty()
        },
        None => seq![SessionWrite::Counter(0)],
    }
}

/// The position shown after a request for the next book.
pub open spec fn counter_after(db_size: nat, counter: Option<usize>) -> nat {
    match counter {
        Some(c) => if c + 1 < db_size {
            (c + 1) as nat
        } else {
            c as nat
        },
        None => 0,
    }
}

/// Moves on to the next book, and answers with `k/10`, where `k` counts from
/// one, and a header that tells the page a new book has come.
pub fn counter(data: &Vec<Book>, stored: Option<usize>) -> (out: Outcome)
    requires
        stored matches Some(c) ==> data@.len() >= 1 && c < usize::MAX,
    ensures
        out.writes@ == counter_writes(data@.len(), stored),
        out.response matches Response::Direct(r) && reply_is(
            r,
            Status::Success,
            seq![("HX-Trigger"@, "newBook"@)],
            decimal_text(counter_after(data@.len(), stored) + 1) + "/10"@,
        ),
        stored is Some && current_index(stored) + 1 < data@.len() ==> ({
            &&& out.writes@ == seq![SessionWrite::Counter((current_index(stored) + 1) as usize)]
            &&& out.response matches Response::Direct(r) && r.body@ == decimal_text((current_index(stored) + 2) as nat)
                + "/10"@
        }),
        stored is Some && current_index(stored) + 1 >= data@.len() ==> ({
            &&& out.writes@.len() == 0
            &&& out.response matches Response::Direct(r) && r.body@ == decimal_text((current_index(stored) + 1) as nat)
                + "/10"@
        }),
        stored is None ==> ({
            &&& out.writes@ == seq![SessionWrite::Counter(0)]
            &&& out.response matches Response::Direct(r) && r.body@ == decimal_text(1) + "/10"@
        }),
{
    let db_size = data.len();
    let mut writes: Vec<SessionWrite> = Vec::new();
    let shown: usize = match stored {
        Some(c) => if c < db_size - 1 {
            writes.push(SessionWrite::Counter(c + 1));
            c + 1
        } else {
            c
        },
        None => {
            writes.push(SessionWrite::Counter(0));
            0
        },
    };
    let mut body = decimal(shown + 1);
    body.append("/10");
    let mut headers: Vec<(String, String)> = Vec::new();
    headers.push((String::from_str("HX-Trigger"), String::from_str("newBook")));
    let r = Reply { status: Status::Success, headers, body };
    assert(header_views(r.headers@) =~= seq![("HX-Trigger"@, "newBook"@)]);
    assert(writes@ =~= counter_writes(data@.len(), stored));
    Outcome { writes, response: Response::Direct(r) }
}

// ---------------------------------------------------------------------------
// Giving up on a book

/// The session writes of giving up on the book at `count`: it is finished
/// with no points, and its first sentence is shown again.
pub open spec fn give_up_writes(count: usize) -> Seq<SessionWrite> {
    seq![
        SessionWrite::BookPoints(count, 0),
        SessionWrite::BookDone(count, true),
        SessionWrite::SentencesState(1),
    ]
}

/// Gives up on the current book: it is finished with no points, and the page
/// names it. Past the end of the list the names are empty.
pub fn give_up(data: &Vec<Book>, stored: Option<usize>, all_points: Option<u32>) -> (out: Outcome)
    ensures
        out.writes@ == give_up_writes(current_index(stored)),
        out.response matches Response::Render(Page::GiveUp { title, author, all_points: points, counter: shown }) && {
            &&& title@ == title_at(data@, current_index(stored) as int)
            &&& author@ == author_at(data@, current_index(stored) as int)
            &&& points == all_points.unwrap_or(0)
            &&& shown == current_index(stored)
        },
        current_index(stored) < data@.len() ==> (out.response matches Response::Render(
            Page::GiveUp { title, author, .. },
        ) && title@ == data@[current_index(stored) as int].title@ && author@ == data@[current_index(
            stored,
        ) as int].author@),
{
    let count = stored.unwrap_or(0);
    let mut writes: Vec<SessionWrite> = Vec::new();
    writes.push(SessionWrite::BookPoints(count, 0));
    writes.push(SessionWrite::BookDone(count, true));
    writes.push(SessionWrite::SentencesState(1));
    let points = all_points.unwrap_or(0);
    let book = match get_entry(data, count) {
        Ok(b) => b,
        Err(_) => Book::empty(),
    };
    assert(writes@ =~= give_up_writes(count));
    Outcome {
        writes,
        response: Response::Render(
            Page::GiveUp { title: book.title, author: book.author, all_points: points, counter: count },
        ),
    }
}

// ---------------------------------------------------------------------------
// Guessing a title

/// The points won over all books after `points` more.
pub open spec fn add_points(all_points: u32, points: u8) -> u32 {
    if all_points + points > u32::MAX {
        u32::MAX
    } else {
        (all_points + points) as u32
    }
}

/// A guess names the book when, case folded, it equals the title or the
/// other accepted title.
pub open spec fn guess_matches(title: Seq<char>, title_alter: Seq<char>, guess: Seq<char>) -> bool {
    lowercase_of(title) == lowercase_of(guess) || lowercase_of(title_alter) == lowercase_of(guess)
}

/// The session writes of a guess on the book at `count`. A right guess shows
/// the first sentence again and, unless the book is already finished, gives
/// the book its current points, finishes it and adds the points to the total.
/// A wrong guess costs a point, but never the last one.
pub open spec fn guess_writes(
    count: usize,
    current_points: Option<u8>,
    all_points: Option<u32>,
    done: Option<bool>,
    correct: bool,
) -> Seq<SessionWrite> {
    let cp = current_points.unwrap_or(0);
    let ap = all_points.unwrap_or(0);
    if correct {
        if done.unwrap_or(false) {
            seq![SessionWrite::SentencesState(1)]
        } else {
            seq![
                SessionWrite::SentencesState(1),
                SessionWrite::BookPoints(count, cp),
                SessionWrite::BookDone(count, true),
                SessionWrite::AllPoints(add_points(ap, cp)),
            ]
        }
    } else if cp > 1 {
        seq![SessionWrite::CurrentPoints((cp - 1) as u8)]
    } else {
        Seq::empty()
    }
}

/// The points won over all books that a right guess shows.
pub open spec fn total_after_guess(current_points: Option<u8>, all_points: Option<u32>, done: Option<bool>) -> u32 {
    if done.unwrap_or(false) {
        all_points.unwrap_or(0)
    } else {
        add_points(all_points.unwrap_or(0), current_points.unwrap_or(0))
    }
}

/// The page that answers a guess: for a right one, the book and the total;
/// for a wrong one, the guess.
pub open spec fn guess_page_is(
    page: Page,
    data: Seq<Book>,
    count: usize,
    current_points: Option<u8>,
    all_points: Option<u32>,
    done: Option<bool>,
    guess: Seq<char>,
    correct: bool,
) -> bool {
    if correct {
        page matches Page::Correct { guess: g, title, author, all_points: points, counter: shown } && {
            &&& g@ == guess
            &&& title@ == title_at(data, count as int)
            &&& author@ == author_at(data, count as int)
            &&& points == total_after_guess(current_points, all_points, done)
            &&& shown == count
        }
    } else {
        page matches Page::Wrong { guess: g } && g@ == guess
    }
}

/// Judges a guess on the current book, given the case-folded title, other
/// title and guess. `done` is the finished flag stored for the current book.
pub fn grade_guess(
    data: &Vec<Book>,
    stored: Option<usize>,
    current_points: Option<u8>,
    all_points: Option<u32>,
    done: Option<bool>,
    form: &FormData,
    title_lower: &String,
    title_alter_lower: &String,
    guess_lower: &String,
) -> (out: Outcome)
    ensures
        ({
            let correct = title_lower@ == guess_lower@ || title_alter_lower@ == guess_lower@;
            let count = current_index(stored);
            &&& out.writes@ == guess_writes(count, current_points, all_points, done, correct)
            &&& out.response matches Response::Render(page) && guess_page_is(
                page,
                data@,
                count,
                current_points,
                all_points,
                done,
                form.title@,
                correct,
            )
        }),
{
    let count = stored.unwrap_or(0);
    let cp = current_points.unwrap_or(0);
    let ap = all_points.unwrap_or(0);
    let book = match get_entry(data, count) {
        Ok(b) => b,
        Err(_) => Book::empty(),
    };
    let mut writes: Vec<SessionWrite> = Vec::new();
    if *title_lower == *guess_lower || *title_alter_lower == *guess_lower {
        let is_done = done.unwrap_or(false);
        writes.push(SessionWrite::SentencesState(1));
        let mut total = ap;
        if !is_done {
            total = ap.saturating_add(cp as u32);
            writes.push(SessionWrite::BookPoints(count, cp));
            writes.push(SessionWrite::BookDone(count, true));
            writes.push(SessionWrite::AllPoints(total));
        }
        assert(writes@ =~= guess_writes(count, current_points, all_points, done, true));
        let page = Page::Correct {
            guess: form.title.clone(),
            title: book.title,
            author: book.author,
            all_points: total,
            counter: count,
        };
        Outcome { writes, response: Response::Render(page) }
    } else {
        if cp > 1 {
            writes.push(SessionWrite::CurrentPoints(cp - 1));
        }
        assert(writes@ =~= guess_writes(count, current_points, all_points, done, false));
        Outcome { writes, response: Response::Render(Page::Wrong { guess: form.title.clone() }) }
    }
}

/// Judges the posted guess on the current book: it is right when, case
/// folded, it equals the book's title or other title. Past the end of the
/// list the titles are empty. `done` is the finished flag stored for the
/// current book.
pub fn check_book(
    data: &Vec<Book>,
    stored: Option<usize>,
    current_points: Option<u8>,
    all_points: Option<u32>,
    done: Option<bool>,
    form: &FormData,
) -> (out: Outcome)
    ensures
        ({
            let count = current_index(stored);
            let correct = guess_matches(
                title_at(data@, count as int),
                title_alter_at(data@, count as int),
                form.title@,
            );
            &&& out.writes@ == guess_writes(count, current_points, all_points, done, correct)
            &&& out.response matches Response::Render(page) && guess_page_is(
                page,
                data@,
                count,
                current_points,
                all_points,
                done,
                form.title@,
                correct,
            )
            &&& (out.response matches Response::Render(Page::Correct { .. })) <==> (lowercase_of(
                form.title@,
            ) == lowercase_of(title_at(data@, count as int)) || lowercase_of(form.title@)
                == lowercase_of(title_alter_at(data@, count as int)))
            &&& (out.response matches Response::Render(Page::Wrong { .. })) <==> (lowercase_of(
                form.title@,
            ) != lowercase_of(title_at(data@, count as int)) && lowercase_of(form.title@)
                != lowercase_of(title_alter_at(data@, count as int)))
        }),
{
    let count = stored.unwrap_or(0);
    let book = match get_entry(data, count) {
        Ok(b) => b,
        Err(_) => Book::empty(),
    };
    let title_lower = lowercase(book.title.as_str());
    let title_alter_lower = lowercase(book.title_alter.as_str());
    let guess_lower = lowercase(form.title.as_str());
    grade_guess(data, stored, current_points, all_points, done, form, &title_lower, &title_alter_lower, &guess_lower)
}

// ---------------------------------------------------------------------------
// Showing the sentences

/// The stored sentence state after a request for the sentences: with `next`,
/// one more sentence up to the third, and from the third back to the first.
pub open spec fn sentences_state_after(state: Option<i32>, next: bool) -> Option<i32> {
    let st = state.unwrap_or(1);
    if next && st < 3 {
        Some((st + 1) as i32)
    } else if next {
        Some(1)
    } else {
        state
    }
}

/// How many sentences a request shows readable: two or three where the state
/// says so, else one.
pub open spec fn sentences_stage(state: Option<i32>, next: bool) -> u8 {
    let shown = sentences_state_after(state, next).unwrap_or(1);
    if shown == 2 {
        2
    } else if shown == 3 {
        3
    } else {
        1
    }
}

/// The current points after a request for the sentences: another sentence
/// costs a point, but never the last one.
pub open spec fn sentences_points_after(current_points: Option<u8>, state: Option<i32>, next: bool) -> u8 {
    let cp = current_points.unwrap_or(0);
    if next && state.unwrap_or(1) < 3 && cp > 1 {
        (cp - 1) as u8
    } else {
        cp
    }
}

/// The session writes of a request for the sentences: the new state where
/// `next` asks for it, and the current points where two or three sentences
/// are shown.
pub open spec fn sentences_writes(current_points: Option<u8>, state: Option<i32>, next: bool) -> Seq<SessionWrite> {
    let first: Seq<SessionWrite> = if next {
        seq![SessionWrite::SentencesState(sentences_state_after(state, next).unwrap_or(1))]
    } else {
        Seq::empty()
    };
    let stage = sentences_stage(state, next);
    if stage == 2 || stage == 3 {
        first.push(SessionWrite::CurrentPoints(sentences_points_after(current_points, state, next)))
    } else {
        first
    }
}

/// The page of the sentences of `book` at `stage`: the first `stage`
/// sentences as they are, the others as the given masks.
pub open spec fn sentences_page_is(
    page: Page,
    book: Book,
    stage: u8,
    mask2: Seq<char>,
    mask3: Seq<char>,
) -> bool {
    page matches Page::Sentences { stage: st, sentence1, sentence2, sentence3 } && {
        &&& st == stage
        &&& sentence1@ == book.sentences@[0]@
        &&& sentence2@ == (if stage >= 2 {
            book.sentences@[1]@
        } else {
            mask2
        })
        &&& sentence3@ == (if stage == 3 {
            book.sentences@[2]@
        } else {
            mask3
        })
    }
}

/// The page of the sentences of `book` at `stage`, the hidden sentences
/// masked as `generate_placeholder` masks them.
pub open spec fn shows_sentences(page: Page, book: Book, stage: u8) -> bool {
    exists|mask2: Seq<char>, mask3: Seq<char>|
        {
            &&& is_placeholder_of(mask2, book.sentences@[1]@)
            &&& is_placeholder_of(mask3, book.sentences@[2]@)
            &&& #[trigger] sentences_page_is(page, book, stage, mask2, mask3)
        }
}

/// Shows the sentences of `book`, given masks of its second and third
/// sentence, and moves on to the next sentence where `params` asks for it.
pub fn show_sentences(
    book: &Book,
    current_points: Option<u8>,
    sentences_state: Option<i32>,
    params: &NextReq,
    mask2: String,
    mask3: String,
) -> (out: Outcome)
    ensures
        ({
            let next = params.next.unwrap_or(false);
            &&& out.writes@ == sentences_writes(current_points, sentences_state, next)
            &&& out.response matches Response::Render(page) && sentences_page_is(
                page,
                *book,
                sentences_stage(sentences_state, next),
                mask2@,
                mask3@,
            )
            &&& out.response matches Response::Render(
                Page::Sentences { stage, sentence1, sentence2, sentence3 },
            ) && {
                &&& 1 <= stage <= 3
                &&& sentence1@ == book.sentences@[0]@
                &&& stage < 2 ==> sentence2@ == mask2@
                &&& stage >= 2 ==> sentence2@ == book.sentences@[1]@
                &&& stage < 3 ==> sentence3@ == mask3@
                &&& stage == 3 ==> sentence3@ == book.sentences@[2]@
            }
        }),
{
    let next = params.next.unwrap_or(false);
    let mut cp = current_points.unwrap_or(0);
    let state = sentences_state.unwrap_or(1);
    let mut writes: Vec<SessionWrite> = Vec::new();
    let mut now = sentences_state;
    if next && state < 3 {
        writes.push(SessionWrite::SentencesState(state + 1));
        now = Some(state + 1);
        if cp > 1 {
            cp = cp - 1;
        }
    } else if next {
        writes.push(SessionWrite::SentencesState(1));
        now = Some(1);
    }
    let shown = now.unwrap_or(1);
    let page = if shown == 2 {
        writes.push(SessionWrite::CurrentPoints(cp));
        Page::Sentences {
            stage: 2,
            sentence1: book.sentences[0].clone(),
            sentence2: book.sentences[1].clone(),
            sentence3: mask3,
        }
    } else if shown == 3 {
        writes.push(SessionWrite::CurrentPoints(cp));
        Page::Sentences {
            stage: 3,
            sentence1: book.sentences[0].clone(),
            sentence2: book.sentences[1].clone(),
            sentence3: book.sentences[2].clone(),
        }
    } else {
        Page::Sentences { stage: 1, sentence1: book.sentences[0].clone(), sentence2: mask2, sentence3: mask3 }
    };
    assert(writes@ =~= sentences_writes(current_points, sentences_state, next));
    Outcome { writes, response: Response::Render(page) }
}

/// Shows the sentences of the current book, the hidden ones masked, and moves
/// on to the next sentence where `params` asks for it. Past the end of the
/// list the answer is a server error and nothing is written.
pub fn sentences(
    data: &Vec<Book>,
    stored: Option<usize>,
    current_points: Option<u8>,
    sentences_state: Option<i32>,
    params: &NextReq,
) -> (out: Outcome)
    ensures
        ({
            let count = current_index(stored);
            let next = params.next.unwrap_or(false);
            if count < data@.len() {
                let book = data@[count as int];
                &&& out.writes@ == sentences_writes(current_points, sentences_state, next)
                &&& out.response matches Response::Render(page) && shows_sentences(
                    page,
                    book,
                    sentences_stage(sentences_state, next),
                )
                &&& out.response matches Response::Render(
                    Page::Sentences { stage, sentence1, sentence2, sentence3 },
                ) && {
                    &&& stage == sentences_stage(sentences_state, next)
                    &&& sentence1@ == book.sentences@[0]@
                    &&& stage < 2 ==> is_placeholder_of(sentence2@, book.sentences@[1]@)
                    &&& stage >= 2 ==> sentence2@ == book.sentences@[1]@
                    &&& stage < 3 ==> is_placeholder_of(sentence3@, book.sentences@[2]@)
                    &&& stage == 3 ==> sentence3@ == book.sentences@[2]@
                }
            } else {
                &&& out.writes@ == Seq::<SessionWrite>::empty()
                &&& out.response matches Response::Direct(r) && reply_is(
                    r,
                    Status::InternalServerError,
                    Seq::empty(),
                    server_error_text(),
                )
            }
        }),
{
    let count = stored.unwrap_or(0);
    let book = match get_entry(data, count) {
        Ok(b) => b,
        Err(_) => {
            return failed_outcome();
        },
    };
    let mask2 = generate_placeholder(book.sentences[1].as_str());
    let mask3 = generate_placeholder(book.sentences[2].as_str());
    let ghost m2 = mask2@;
    let ghost m3 = mask3@;
    let out = show_sentences(&book, current_points, sentences_state, params, mask2, mask3);
    proof {
        let next = params.next.unwrap_or(false);
        let page = out.response->Render_0;
        assert(book.sentences@ == data@[count as int].sentences@);
        assert(sentences_page_is(page, data@[count as int], sentences_stage(sentences_state, next), m2, m3));
        assert(shows_sentences(page, data@[count as int], sentences_stage(sentences_state, next)));
    }
    out
}

// ---------------------------------------------------------------------------
// Hints

/// The session writes of asking for hint `number`: a point is lost, but never
/// the last one, and the hint is used up.
pub open spec fn help_writes(current_points: Option<u8>, number: u8) -> Seq<SessionWrite> {
    let cp = current_points.unwrap_or(0);
    let used = if number == 1 {
        SessionWrite::Help1State(false)
    } else {
        SessionWrite::Help2State(false)
    };
    if cp > 1 {
        seq![SessionWrite::CurrentPoints((cp - 1) as u8), used]
    } else {
        seq![used]
    }
}

/// Gives a hint on the current book: its genre for hint 1, its author for any
/// other number. Past the end of the list the answer is a server error and
/// nothing is written.
pub fn get_help(
    data: &Vec<Book>,
    stored: Option<usize>,
    current_points: Option<u8>,
    params: &HelpReq,
) -> (out: Outcome)
    ensures
        ({
            let count = current_index(stored);
            if count < data@.len() {
                let book = data@[count as int];
                &&& out.writes@ == help_writes(current_points, params.number)
                &&& if params.number == 1 {
                    out.response matches Response::Render(Page::Help1 { genre }) && genre@ == book.genre@
                } else {
                    out.response matches Response::Render(Page::Help2 { author }) && author@ == book.author@
                }
            } else {
                &&& out.writes@ == Seq::<SessionWrite>::empty()
                &&& out.response matches Response::Direct(r) && reply_is(
                    r,
                    Status::InternalServerError,
                    Seq::empty(),
                    server_error_text(),
                )
            }
        }),
{
    let count = stored.unwrap_or(0);
    let cp = current_points.unwrap_or(0);
    let book = match get_entry(data, count) {
        Ok(b) => b,
        Err(_) => {
            return failed_outcome();
        },
    };
    let mut writes: Vec<SessionWrite> = Vec::new();
    if cp > 1 {
        writes.push(SessionWrite::CurrentPoints(cp - 1));
    }
    if params.number == 1 {
        writes.push(SessionWrite::Help1State(false));
        assert(writes@ =~= help_writes(current_points, params.number));
        Outcome { writes, response: Response::Render(Page::Help1 { genre: book.genre }) }
    } else {
        writes.push(SessionWrite::Help2State(false));
        assert(writes@ =~= help_writes(current_points, params.number));
        Outcome { writes, response: Response::Render(Page::Help2 { author: book.author }) }
    }
}

// ---------------------------------------------------------------------------
// The main page and the results

/// The main page gives way to the results when the player asks to move on
/// from the last book, or when the last book is finished.
pub open spec fn finishing(db_size: nat, stored: Option<usize>, next: bool, last_done: Option<bool>) -> bool {
    (current_index(stored) + 1 >= db_size && next) || last_done.unwrap_or(false)
}

/// The position of the book on the main page: the next one where the player
/// asks to move on, the first where there is none yet.
pub open spec fn index_counter_after(db_size: nat, stored: Option<usize>, next: bool) -> usize {
    match stored {
        Some(c) => if c < db_size && next {
            (c + 1) as usize
        } else {
            c
        },
        None => 0,
    }
}

/// The session writes of the main page: a new book starts with full points;
/// each hint not used yet is marked available.
pub open spec fn index_writes(
    db_size: nat,
    stored: Option<usize>,
    next: bool,
    help1: Option<bool>,
    help2: Option<bool>,
) -> Seq<SessionWrite> {
    let moves: Seq<SessionWrite> = match stored {
        Some(c) => if c < db_size && next {
            seq![SessionWrite::Counter((c + 1) as usize), SessionWrite::CurrentPoints(FULL_POINTS)]
        } else {
            Seq::empty()
        },
        None => seq![SessionWrite::Counter(0), SessionWrite::CurrentPoints(FULL_POINTS)],
    };
    let hint1: Seq<SessionWrite> = if help1.unwrap_or(true) {
        seq![SessionWrite::Help1State(true)]
    } else {
        Seq::empty()
    };
    let hint2: Seq<SessionWrite> = if help2.unwrap_or(true) {
        seq![SessionWrite::Help2State(true)]
    } else {
        Seq::empty()
    };
    moves + hint1 + hint2
}

/// The line of a book in the results: `author "title"`.
pub open spec fn result_key(book: Book) -> Seq<char> {
    book.author@ + " \""@ + book.title@ + "\""@
}

/// The results list every book, in order, with the points stored for it, or
/// none.
pub open spec fn results_are(books: Seq<(String, u8)>, data: Seq<Book>, points: Seq<Option<u8>>) -> bool {
    &&& books.len() == data.len()
    &&& forall|i: int|
        0 <= i < books.len() ==> (#[trigger] books[i]).0@ == result_key(data[i]) && books[i].1
            == points[i].unwrap_or(0)
}

fn result_key_of(book: &Book) -> (k: String)
    ensures
        k@ == result_key(*book),
{
    let mut k = book.author.clone();
    k.append(" \"");
    k.append(book.title.as_str());
    k.append("\"");
    k
}

/// The main page, or the results once the game is over. `last_done` is the
/// finished flag stored for the last book, and `book_points` the points
/// stored for each book, in order.
pub fn render_index(
    data: &Vec<Book>,
    stored: Option<usize>,
    params: &NextReq,
    last_done: Option<bool>,
    help1: Option<bool>,
    help2: Option<bool>,
    all_points: Option<u32>,
    book_points: &Vec<Option<u8>>,
) -> (out: Outcome)
    requires
        data@.len() > 0 || params.next == Some(true),
        stored matches Some(c) ==> c < usize::MAX,
        book_points@.len() == data@.len(),
    ensures
        ({
            let next = params.next.unwrap_or(false);
            if finishing(data@.len(), stored, next, last_done) {
                &&& out.writes@ == Seq::<SessionWrite>::empty()
                &&& out.response matches Response::Render(Page::Finish { all_points: points, books }) && {
                    &&& points == all_points.unwrap_or(0)
                    &&& results_are(books@, data@, book_points@)
                    &&& books@.len() == data@.len()
                    &&& forall|i: int|
                        0 <= i < books@.len() ==> (#[trigger] books@[i]).0@ == data@[i].author@
                            + " \""@ + data@[i].title@ + "\""@ && books@[i].1 == book_points@[i].unwrap_or(
                            0,
                        )
                }
            } else {
                &&& out.writes@ == index_writes(data@.len(), stored, next, help1, help2)
                &&& out.response matches Response::Render(
                    Page::Index { help1_available, help2_available, all_points: points, counter: shown },
                ) && {
                    &&& help1_available == help1.unwrap_or(true)
                    &&& help2_available == help2.unwrap_or(true)
                    &&& points == all_points.unwrap_or(0)
                    &&& shown == index_counter_after(data@.len(), stored, next)
                    &&& stored is None ==> shown == 0
                    &&& (stored is Some && !next) ==> shown == current_index(stored)
                }
            }
        }),
        (out.response matches Response::Render(Page::Finish { .. })) <==> ((current_index(stored) + 1
            >= data@.len() && params.next == Some(true)) || last_done == Some(true)),
        (out.response matches Response::Render(Page::Index { .. })) <==> !((current_index(stored) + 1
            >= data@.len() && params.next == Some(true)) || last_done == Some(true)),
        stored is Some && current_index(stored) + 1 < data@.len() && params.next == Some(true) && last_done
            != Some(true) ==> ({
            &&& out.writes@.len() >= 2
            &&& out.writes@[0] == SessionWrite::Counter((current_index(stored) + 1) as usize)
            &&& out.writes@[1] == SessionWrite::CurrentPoints(5)
            &&& out.response matches Response::Render(Page::Index { counter: shown, .. }) && shown == current_index(stored) + 1
        }),
{
    let db_size = data.len();
    let count = stored.unwrap_or(0);
    let next = params.next.unwrap_or(false);
    let total = all_points.unwrap_or(0);
    if count + 1 >= db_size && next || last_done.unwrap_or(false) {
        let mut books: Vec<(String, u8)> = Vec::new();
        let mut i: usize = 0;
        while i < db_size
            invariant
                db_size == data@.len(),
                book_points@.len() == data@.len(),
                i <= db_size,
                books@.len() == i,
                forall|j: int|
                    0 <= j < i ==> (#[trigger] books@[j]).0@ == result_key(data@[j]) && books@[j].1
                        == book_points@[j].unwrap_or(0),
            decreases db_size - i,
        {
            let key = result_key_of(&data[i]);
            let points = book_points[i].unwrap_or(0);
            books.push((key, points));
            i = i + 1;
        }
        return Outcome {
            writes: Vec::new(),
            response: Response::Render(Page::Finish { all_points: total, books }),
        };
    }
    let mut writes: Vec<SessionWrite> = Vec::new();
    let mut shown = count;
    match stored {
        Some(c) => {
            if c < db_size && next {
                writes.push(SessionWrite::Counter(c + 1));
                writes.push(SessionWrite::CurrentPoints(FULL_POINTS));
                shown = c + 1;
            }
        },
        None => {
            writes.push(SessionWrite::Counter(0));
            writes.push(SessionWrite::CurrentPoints(FULL_POINTS));
            shown = 0;
        },
    }
    let h1 = help1.unwrap_or(true);
    let h2 = help2.unwrap_or(true);
    if h1 {
        writes.push(SessionWrite::Help1State(true));
    }
    if h2 {
        writes.push(SessionWrite::Help2State(true));
    }
    assert(writes@ =~= index_writes(data@.len(), stored, next, help1, help2));
    Outcome {
        writes,
        response: Response::Render(
            Page::Index { help1_available: h1, help2_available: h2, all_points: total, counter: shown },
        ),
    }
}

} // verus!
