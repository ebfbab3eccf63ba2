use book_guess::book::Book;
use book_guess::game::{check_book, counter, get_help, give_up, grade_guess, render_index, sentences, show_sentences};
use book_guess::page::{hint_button_template, render_reply, Page, Response};
use book_guess::reply::Status;
use book_guess::requests::{FormData, HelpReq, NextReq};
use book_guess::session::SessionWrite;
use std::collections::HashMap;

fn book(title: &str, alter: &str, author: &str, genre: &str) -> Book {
    Book {
        title: title.to_string(),
        title_alter: alter.to_string(),
        author: author.to_string(),
        genre: genre.to_string(),
        sentences: [
            "A desert planet.".to_string(),
            "Spice must flow".to_string(),
            "He is <br> the one".to_string(),
        ],
    }
}

fn library() -> Vec<Book> {
    vec![
        book("Dune", "Diuna", "Frank Herbert", "Science fiction"),
        book("Emma", "", "Jane Austen", "Novel"),
        book("Ulysses", "", "James Joyce", "Modernism"),
    ]
}

fn form(title: &str) -> FormData {
    FormData { title: title.to_string() }
}

/// A session held as key names and the values written to them.
#[derive(Default)]
struct Store {
    counter: Option<usize>,
    current_points: Option<u8>,
    all_points: Option<u32>,
    book_points: HashMap<usize, u8>,
    book_done: HashMap<usize, bool>,
    sentences_state: Option<i32>,
    help1: Option<bool>,
    help2: Option<bool>,
}

impl Store {
    fn apply(&mut self, writes: &[SessionWrite]) {
        for w in writes {
            match *w {
                SessionWrite::Counter(c) => self.counter = Some(c),
                SessionWrite::CurrentPoints(p) => self.current_points = Some(p),
                SessionWrite::AllPoints(p) => self.all_points = Some(p),
                SessionWrite::BookPoints(n, p) => {
                    self.book_points.insert(n, p);
                }
                SessionWrite::BookDone(n, d) => {
                    self.book_done.insert(n, d);
                }
                SessionWrite::SentencesState(s) => self.sentences_state = Some(s),
                SessionWrite::Help1State(h) => self.help1 = Some(h),
                SessionWrite::Help2State(h) => self.help2 = Some(h),
            }
        }
    }
    fn done(&self) -> Option<bool> {
        self.book_done.get(&self.counter.unwrap_or(0)).copied()
    }
}

fn direct(out: &Response) -> (Status, Vec<(String, String)>, String) {
    match out {
        Response::Direct(r) => (r.status, r.headers.clone(), r.body.clone()),
        Response::Render(_) => panic!("expected a direct reply"),
    }
}

#[test]
fn counter_starts_at_first_book() {
    let data = library();
    let out = counter(&data, None);
    assert_eq!(out.writes, vec![SessionWrite::Counter(0)]);
    let (status, headers, body) = direct(&out.response);
    assert_eq!(status, Status::Success);
    assert_eq!(headers, vec![("HX-Trigger".to_string(), "newBook".to_string())]);
    assert_eq!(body, "1/10");
}

#[test]
fn counter_moves_on_but_not_past_last_book() {
    let data = library();
    let out = counter(&data, Some(1));
    assert_eq!(out.writes, vec![SessionWrite::Counter(2)]);
    assert_eq!(direct(&out.response).2, "3/10");
    let out = counter(&data, Some(2));
    assert!(out.writes.is_empty());
    assert_eq!(direct(&out.response).2, "3/10");
}

#[test]
fn give_up_finishes_book_without_points() {
    let data = library();
    let out = give_up(&data, Some(1), Some(7));
    assert_eq!(
        out.writes,
        vec![SessionWrite::BookPoints(1, 0), SessionWrite::BookDone(1, true), SessionWrite::SentencesState(1)]
    );
    match out.response {
        Response::Render(Page::GiveUp { title, author, all_points, counter }) => {
            assert_eq!(title, "Emma");
            assert_eq!(author, "Jane Austen");
            assert_eq!(all_points, 7);
            assert_eq!(counter, 1);
        }
        _ => panic!("expected the give-up page"),
    }
}

#[test]
fn give_up_past_the_end_names_no_book() {
    let data = library();
    let out = give_up(&data, Some(9), None);
    assert_eq!(out.writes[0], SessionWrite::BookPoints(9, 0));
    match out.response {
        Response::Render(Page::GiveUp { title, author, all_points, counter }) => {
            assert_eq!(title, "");
            assert_eq!(author, "");
            assert_eq!(all_points, 0);
            assert_eq!(counter, 9);
        }
        _ => panic!("expected the give-up page"),
    }
}

#[test]
fn right_guess_ignores_case() {
    let data = library();
    let out = check_book(&data, Some(0), Some(4), Some(10), None, &form("dUNE"));
    assert_eq!(
        out.writes,
        vec![
            SessionWrite::SentencesState(1),
            SessionWrite::BookPoints(0, 4),
            SessionWrite::BookDone(0, true),
            SessionWrite::AllPoints(14),
        ]
    );
    match out.response {
        Response::Render(Page::Correct { guess, title, author, all_points, counter }) => {
            assert_eq!(guess, "dUNE");
            assert_eq!(title, "Dune");
            assert_eq!(author, "Frank Herbert");
            assert_eq!(all_points, 14);
            assert_eq!(counter, 0);
        }
        _ => panic!("expected the correct page"),
    }
}

#[test]
fn other_title_is_accepted() {
    let data = library();
    let out = check_book(&data, None, Some(5), None, None, &form("DIUNA"));
    assert_eq!(out.writes[3], SessionWrite::AllPoints(5));
}

#[test]
fn right_guess_on_finished_book_scores_nothing() {
    let data = library();
    let out = check_book(&data, Some(0), Some(4), Some(10), Some(true), &form("Dune"));
    assert_eq!(out.writes, vec![SessionWrite::SentencesState(1)]);
    match out.response {
        Response::Render(Page::Correct { all_points, .. }) => assert_eq!(all_points, 10),
        _ => panic!("expected the correct page"),
    }
}

#[test]
fn wrong_guess_costs_a_point_but_not_the_last() {
    let data = library();
    let out = check_book(&data, Some(0), Some(3), Some(10), None, &form("Emma"));
    assert_eq!(out.writes, vec![SessionWrite::CurrentPoints(2)]);
    match &out.response {
        Response::Render(Page::Wrong { guess }) => assert_eq!(guess, "Emma"),
        _ => panic!("expected the wrong page"),
    }
    let out = check_book(&data, Some(0), Some(1), Some(10), None, &form("Emma"));
    assert!(out.writes.is_empty());
}

#[test]
fn empty_guess_names_a_book_past_the_end() {
    let data = library();
    let out = check_book(&data, Some(5), Some(2), None, None, &form(""));
    assert_eq!(out.writes.len(), 4);
    assert_eq!(out.writes[3], SessionWrite::AllPoints(2));
}

#[test]
fn total_saturates() {
    let data = library();
    let out = check_book(&data, Some(0), Some(5), Some(u32::MAX - 2), None, &form("dune"));
    assert_eq!(out.writes[3], SessionWrite::AllPoints(u32::MAX));
}

#[test]
fn grade_guess_compares_folded_texts() {
    let data = library();
    let t = "dune".to_string();
    let a = "diuna".to_string();
    let out = grade_guess(&data, Some(0), Some(5), Some(0), None, &form("DUNE"), &t, &a, &"dune".to_string());
    assert_eq!(out.writes.len(), 4);
    let out = grade_guess(&data, Some(0), Some(5), Some(0), None, &form("DUNE"), &t, &a, &"DUNE".to_string());
    assert_eq!(out.writes, vec![SessionWrite::CurrentPoints(4)]);
}

fn next(n: Option<bool>) -> NextReq {
    NextReq { next: n }
}

#[test]
fn sentences_first_stage_masks_the_rest() {
    let data = library();
    let out = sentences(&data, Some(0), Some(5), None, &next(None));
    assert!(out.writes.is_empty());
    match out.response {
        Response::Render(Page::Sentences { stage, sentence1, sentence2, sentence3 }) => {
            assert_eq!(stage, 1);
            assert_eq!(sentence1, "A desert planet.");
            assert_eq!(sentence2.len(), "Spice must flow".len());
            assert_ne!(sentence2, "Spice must flow");
            let w: Vec<&str> = sentence3.split(' ').collect();
            assert_eq!(w.len(), 5);
            assert_eq!(w[2], "<br>");
        }
        _ => panic!("expected the sentences page"),
    }
}

#[test]
fn sentences_next_shows_one_more_and_costs_a_point() {
    let data = library();
    let out = sentences(&data, Some(0), Some(5), Some(1), &next(Some(true)));
    assert_eq!(out.writes, vec![SessionWrite::SentencesState(2), SessionWrite::CurrentPoints(4)]);
    match out.response {
        Response::Render(Page::Sentences { stage, sentence2, .. }) => {
            assert_eq!(stage, 2);
            assert_eq!(sentence2, "Spice must flow");
        }
        _ => panic!("expected the sentences page"),
    }
    let out = sentences(&data, Some(0), Some(4), Some(2), &next(Some(true)));
    assert_eq!(out.writes, vec![SessionWrite::SentencesState(3), SessionWrite::CurrentPoints(3)]);
    match out.response {
        Response::Render(Page::Sentences { stage, sentence3, .. }) => {
            assert_eq!(stage, 3);
            assert_eq!(sentence3, "He is <br> the one");
        }
        _ => panic!("expected the sentences page"),
    }
}

#[test]
fn sentences_wrap_around_after_the_third() {
    let data = library();
    let out = sentences(&data, Some(0), Some(3), Some(3), &next(Some(true)));
    assert_eq!(out.writes, vec![SessionWrite::SentencesState(1)]);
    match out.response {
        Response::Render(Page::Sentences { stage, .. }) => assert_eq!(stage, 1),
        _ => panic!("expected the sentences page"),
    }
}

#[test]
fn sentences_without_next_keep_stage_and_points() {
    let data = library();
    let out = sentences(&data, Some(0), Some(1), Some(3), &next(Some(false)));
    assert_eq!(out.writes, vec![SessionWrite::CurrentPoints(1)]);
}

#[test]
fn sentences_past_the_end_fail() {
    let data = library();
    let out = sentences(&data, Some(3), Some(5), None, &next(Some(true)));
    assert!(out.writes.is_empty());
    let (status, _, body) = direct(&out.response);
    assert_eq!(status, Status::InternalServerError);
    assert_eq!(body, "500 Internal Server Error");
}

#[test]
fn show_sentences_uses_given_masks() {
    let b = library().remove(0);
    let out = show_sentences(&b, Some(5), None, &next(None), "xxxxx".to_string(), "yy".to_string());
    match out.response {
        Response::Render(Page::Sentences { stage, sentence2, sentence3, .. }) => {
            assert_eq!(stage, 1);
            assert_eq!(sentence2, "xxxxx");
            assert_eq!(sentence3, "yy");
        }
        _ => panic!("expected the sentences page"),
    }
}

#[test]
fn hints_give_genre_and_author() {
    let data = library();
    let out = get_help(&data, Some(1), Some(5), &HelpReq { number: 1 });
    assert_eq!(out.writes, vec![SessionWrite::CurrentPoints(4), SessionWrite::Help1State(false)]);
    match out.response {
        Response::Render(Page::Help1 { genre }) => assert_eq!(genre, "Novel"),
        _ => panic!("expected the first hint"),
    }
    let out = get_help(&data, Some(1), Some(1), &HelpReq { number: 7 });
    assert_eq!(out.writes, vec![SessionWrite::Help2State(false)]);
    match out.response {
        Response::Render(Page::Help2 { author }) => assert_eq!(author, "Jane Austen"),
        _ => panic!("expected the second hint"),
    }
}

#[test]
fn hints_past_the_end_fail() {
    let data = library();
    let out = get_help(&data, Some(10), Some(5), &HelpReq { number: 1 });
    assert!(out.writes.is_empty());
    assert_eq!(direct(&out.response).0, Status::InternalServerError);
}

#[test]
fn index_starts_a_new_game() {
    let data = library();
    let points = vec![None, None, None];
    let out = render_index(&data, None, &next(None), None, None, None, None, &points);
    assert_eq!(
        out.writes,
        vec![
            SessionWrite::Counter(0),
            SessionWrite::CurrentPoints(5),
            SessionWrite::Help1State(true),
            SessionWrite::Help2State(true),
        ]
    );
    match out.response {
        Response::Render(Page::Index { help1_available, help2_available, all_points, counter }) => {
            assert!(help1_available && help2_available);
            assert_eq!(all_points, 0);
            assert_eq!(counter, 0);
        }
        _ => panic!("expected the main page"),
    }
}

#[test]
fn index_moves_on_and_keeps_used_hints() {
    let data = library();
    let points = vec![Some(3), None, None];
    let out = render_index(&data, Some(0), &next(Some(true)), Some(false), Some(false), None, Some(3), &points);
    assert_eq!(
        out.writes,
        vec![SessionWrite::Counter(1), SessionWrite::CurrentPoints(5), SessionWrite::Help2State(true)]
    );
    match out.response {
        Response::Render(Page::Index { help1_available, help2_available, all_points, counter }) => {
            assert!(!help1_available);
            assert!(help2_available);
            assert_eq!(all_points, 3);
            assert_eq!(counter, 1);
        }
        _ => panic!("expected the main page"),
    }
}

#[test]
fn index_shows_results_after_last_book() {
    let data = library();
    let points = vec![Some(3), None, Some(5)];
    let out = render_index(&data, Some(2), &next(Some(true)), None, None, None, Some(8), &points);
    assert!(out.writes.is_empty());
    match out.response {
        Response::Render(Page::Finish { all_points, books }) => {
            assert_eq!(all_points, 8);
            assert_eq!(
                books,
                vec![
                    ("Frank Herbert \"Dune\"".to_string(), 3),
                    ("Jane Austen \"Emma\"".to_string(), 0),
                    ("James Joyce \"Ulysses\"".to_string(), 5),
                ]
            );
        }
        _ => panic!("expected the results"),
    }
}

#[test]
fn index_shows_results_when_last_book_done() {
    let data = library();
    let points = vec![None, None, None];
    let out = render_index(&data, Some(0), &next(None), Some(true), None, None, None, &points);
    assert!(out.writes.is_empty());
    assert!(matches!(out.response, Response::Render(Page::Finish { .. })));
}

#[test]
fn templates_of_pages() {
    assert_eq!(Page::Wrong { guess: String::new() }.template(), "wrong.html");
    assert_eq!(
        Page::Sentences { stage: 3, sentence1: String::new(), sentence2: String::new(), sentence3: String::new() }
            .template(),
        "sentence3.html"
    );
    assert_eq!(Page::Finish { all_points: 0, books: vec![] }.template(), "finish.html");
    assert_eq!(hint_button_template(1), "help1-avail.html");
    assert_eq!(hint_button_template(2), "help2-avail.html");
}

#[test]
fn wrong_guess_reply_swaps_the_form() {
    let page = Page::Wrong { guess: "x".to_string() };
    let r = render_reply::<String>(&page, Ok("<form/>".to_string()));
    assert_eq!(r.status, Status::Success);
    assert_eq!(
        r.headers,
        vec![
            ("HX-Retarget".to_string(), "#frm".to_string()),
            ("HX-Reswap".to_string(), "outerHTML".to_string())
        ]
    );
    let r = render_reply::<String>(&page, Err("bad".to_string()));
    assert_eq!(r.status, Status::InternalServerError);
    assert!(r.headers.is_empty());
    let r = render_reply::<String>(&Page::Help1 { genre: "g".to_string() }, Ok("h".to_string()));
    assert!(r.headers.is_empty());
    assert_eq!(r.body, "h");
}

#[test]
fn a_book_scores_only_once() {
    let data = library();
    let mut s = Store::default();
    s.apply(&render_index(&data, None, &next(None), None, None, None, None, &vec![None, None, None]).writes);
    let out = check_book(&data, s.counter, s.current_points, s.all_points, s.done(), &form("dune"));
    s.apply(&out.writes);
    assert_eq!(s.all_points, Some(5));
    let out = check_book(&data, s.counter, s.current_points, s.all_points, s.done(), &form("dune"));
    s.apply(&out.writes);
    assert_eq!(s.all_points, Some(5));
    assert_eq!(s.book_points.get(&0), Some(&5));
}

#[test]
fn counter_never_passes_last_book() {
    let data = library();
    let mut s = Store::default();
    for _ in 0..10 {
        let out = counter(&data, s.counter);
        s.apply(&out.writes);
        assert!(s.counter.unwrap() < data.len());
    }
    assert_eq!(s.counter, Some(2));
}

#[test]
fn points_never_drop_below_one() {
    let data = library();
    let mut s = Store::default();
    s.apply(&render_index(&data, None, &next(None), None, None, None, None, &vec![None, None, None]).writes);
    for i in 0..8 {
        let out = if i % 3 == 0 {
            check_book(&data, s.counter, s.current_points, s.all_points, s.done(), &form("nope"))
        } else if i % 3 == 1 {
            get_help(&data, s.counter, s.current_points, &HelpReq { number: 1 })
        } else {
            sentences(&data, s.counter, s.current_points, s.sentences_state, &next(Some(true)))
        };
        s.apply(&out.writes);
        assert!(s.current_points.unwrap() >= 1);
    }
    assert_eq!(s.current_points, Some(1));
}

#[test]
fn giving_up_keeps_the_total() {
    let data = library();
    let mut s = Store::default();
    s.all_points = Some(4);
    s.counter = Some(2);
    s.apply(&give_up(&data, s.counter, s.all_points).writes);
    assert_eq!(s.all_points, Some(4));
    assert_eq!(s.book_done.get(&2), Some(&true));
    assert_eq!(s.book_points.get(&2), Some(&0));
    assert_eq!(s.sentences_state, Some(1));
}

#[test]
fn giving_up_then_guessing_scores_nothing() {
    let data = library();
    let mut s = Store::default();
    s.apply(&render_index(&data, None, &next(None), None, None, None, None, &vec![None, None, None]).writes);
    s.apply(&give_up(&data, s.counter, s.all_points).writes);
    let out = check_book(&data, s.counter, s.current_points, s.all_points, s.done(), &form("Dune"));
    s.apply(&out.writes);
    assert_eq!(s.all_points, None);
    assert_eq!(s.book_points.get(&0), Some(&0));
}

#[test]
fn points_never_exceed_five() {
    let data = library();
    let mut s = Store::default();
    for step in 0..12 {
        let out = match step % 4 {
            0 => render_index(&data, s.counter, &next(Some(true)), s.done(), s.help1, s.help2, s.all_points, &vec![None, None, None]),
            1 => sentences(&data, s.counter, s.current_points, s.sentences_state, &next(Some(true))),
            2 => get_help(&data, s.counter, s.current_points, &HelpReq { number: 2 }),
            _ => check_book(&data, s.counter, s.current_points, s.all_points, s.done(), &form("?")),
        };
        s.apply(&out.writes);
        assert!(s.current_points.unwrap_or(0) <= 5);
    }
}
