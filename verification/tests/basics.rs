use book_guess::book::{get_entry, Book};
use book_guess::config::Config;
use book_guess::placeholder::{fill_placeholder, generate_placeholder, split_words};
use book_guess::reply::{change_lang, parse_render, template_language, Status};
use book_guess::session::{SessionKey, SessionWrite};
use book_guess::text::decimal;
use book_guess::messages::Messages;

fn book(title: &str, alter: &str, author: &str, genre: &str) -> Book {
    Book {
        title: title.to_string(),
        title_alter: alter.to_string(),
        author: author.to_string(),
        genre: genre.to_string(),
        sentences: [
            "First sentence.".to_string(),
            "Second one here".to_string(),
            "Third <br> line".to_string(),
        ],
    }
}

#[test]
fn decimal_writes_numbers() {
    assert_eq!(decimal(0), "0");
    assert_eq!(decimal(7), "7");
    assert_eq!(decimal(10), "10");
    assert_eq!(decimal(1234), "1234");
    assert_eq!(decimal(usize::MAX), usize::MAX.to_string());
}

#[test]
fn session_key_names() {
    assert_eq!(SessionKey::Counter.name(), "counter");
    assert_eq!(SessionKey::CurrentPoints.name(), "current_points");
    assert_eq!(SessionKey::AllPoints.name(), "all_points");
    assert_eq!(SessionKey::BookPoints(12).name(), "points_12");
    assert_eq!(SessionKey::BookDone(3).name(), "book_3_done");
    assert_eq!(SessionKey::SentencesState.name(), "sentences_state");
    assert_eq!(SessionKey::Help1State.name(), "help1_state");
    assert_eq!(SessionKey::Help2State.name(), "help2_state");
    assert_eq!(SessionKey::Lang.name(), "lang");
    assert_eq!(SessionWrite::BookDone(4, true).key(), SessionKey::BookDone(4));
    assert_eq!(SessionWrite::AllPoints(9).key(), SessionKey::AllPoints);
}

#[test]
fn empty_book_has_empty_texts() {
    let b = Book::empty();
    assert_eq!(b.title, "");
    assert_eq!(b.title_alter, "");
    assert_eq!(b.author, "");
    assert_eq!(b.genre, "");
    for s in b.sentences.iter() {
        assert_eq!(s, "");
    }
}

#[test]
fn get_entry_finds_books_by_position() {
    let data = vec![book("Dune", "", "Frank Herbert", "SF"), book("Emma", "", "Jane Austen", "Novel")];
    let found = get_entry(&data, 1).ok().unwrap();
    assert_eq!(found.title, "Emma");
    assert_eq!(found.author, "Jane Austen");
    assert_eq!(found.sentences[2], "Third <br> line");
    let missing = get_entry(&data, 2);
    match missing {
        Err(e) => {
            assert_eq!(e.index, 2);
            assert_eq!(e.message(), "Out of index [2]! Book not found.");
        }
        Ok(_) => panic!("a book past the end was found"),
    }
}

#[test]
fn config_defaults() {
    let c = Config::new(None, None, "db.json".to_string(), None);
    assert_eq!(c.get_bind_host(), "127.0.0.1");
    assert_eq!(c.get_bind_port(), 8080);
    assert_eq!(c.get_db_file(), "db.json");
    assert!(!c.is_db_safe());
}

#[test]
fn config_explicit_values() {
    let c = Config::new(Some("0.0.0.0".to_string()), Some(9000), "books.json".to_string(), Some(true));
    assert_eq!(c.get_bind_host(), "0.0.0.0");
    assert_eq!(c.get_bind_port(), 9000);
    assert_eq!(c.get_db_file(), "books.json");
    assert!(c.is_db_safe());
}

#[test]
fn split_words_keeps_empty_pieces() {
    assert_eq!(split_words("a  b"), vec!["a", "", "b"]);
    assert_eq!(split_words(""), vec![""]);
    assert_eq!(split_words(" x "), vec!["", "x", ""]);
    assert_eq!(split_words("one two"), vec!["one", "two"]);
}

#[test]
fn fill_placeholder_keeps_line_breaks() {
    let words = vec!["Call".to_string(), "<br>".to_string(), "me".to_string(), "</br>".to_string()];
    let randoms = vec!["abcd".to_string(), "WXYZ".to_string(), "q1".to_string(), "ZZZZZ".to_string()];
    assert_eq!(fill_placeholder(&words, &randoms), "abcd <br> q1 </br>");
}

#[test]
fn placeholder_masks_each_word_by_its_byte_length() {
    let input = "Hello <br> wörld  x";
    let out = generate_placeholder(input);
    let words: Vec<&str> = out.split(' ').collect();
    assert_eq!(words.len(), 5);
    assert_eq!(words[0].len(), 5);
    assert_ne!(words[0], "Hello");
    assert_eq!(words[1], "<br>");
    assert_eq!(words[2].len(), 6);
    assert_eq!(words[3], "");
    assert_eq!(words[4].len(), 1);
    for (i, w) in words.iter().enumerate() {
        if i != 1 {
            assert!(w.chars().all(|c| c.is_ascii_alphanumeric()));
        }
    }
}

#[test]
fn placeholder_of_empty_text_is_empty() {
    assert_eq!(generate_placeholder(""), "");
}

#[test]
fn parse_render_success_and_failure() {
    let ok = parse_render::<String>(Ok("<p>page</p>".to_string()));
    assert_eq!(ok.status, Status::Success);
    assert!(ok.headers.is_empty());
    assert_eq!(ok.body, "<p>page</p>");
    let err = parse_render::<String>(Err("template missing".to_string()));
    assert_eq!(err.status, Status::InternalServerError);
    assert_eq!(err.body, "500 Internal Server Error");
}

fn messages() -> Messages {
    Messages {
        correct: "Correct".to_string(),
        results: "Results".to_string(),
        next_button_msg: "Next".to_string(),
        give_up_page_msg: "Given up".to_string(),
        give_up_button_msg: "Give up".to_string(),
        check_button_msg: "Check".to_string(),
        input_placeholder: "Title".to_string(),
        help1_button_msg: "Genre".to_string(),
        help2_button_msg: "Author".to_string(),
    }
}

#[test]
fn change_lang_refreshes_on_known_language() {
    let r = change_lang::<String>(Ok(messages()));
    assert_eq!(r.status, Status::Success);
    assert_eq!(r.headers, vec![("HX-Refresh".to_string(), "true".to_string())]);
    assert_eq!(r.body, "");
}

#[test]
fn change_lang_rejects_unknown_language() {
    let r = change_lang::<String>(Err("no such file".to_string()));
    assert_eq!(r.status, Status::BadRequest);
    assert!(r.headers.is_empty());
    assert_eq!(r.body, "400 Bad Request. Language not supported.");
}

#[test]
fn template_language_defaults_to_english() {
    assert_eq!(template_language(None), "en");
    assert_eq!(template_language(Some("pl".to_string())), "pl");
}
