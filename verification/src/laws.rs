//! Properties of the game that hold across requests, stated over the model of
//! the session and the writes that each request makes.
use vstd::prelude::*;
use crate::book::Book;
use crate::game::{
    FULL_POINTS, total_after_guess, counter_after, guess_matches, index_counter_after, sentences_page_is, add_points, counter_writes, current_index, finishing, give_up_writes,
    guess_writes, help_writes, index_writes, sentences_points_after, sentences_stage,
    sentences_state_after, sentences_writes,
};
use crate::page::Page;
use crate::placeholder::{byte_len, fits, is_alphanumeric, join_with_spaces, split_on_spaces};
use crate::session::{SessionModel, SessionWrite};
use crate::text::{decimal_text, digit_char, lowercase_of};

verus! {

/// The stored position, if any, names a book of the list.
pub open spec fn on_a_book(counter: Option<usize>, db_size: nat) -> bool {
    counter matches Some(c) ==> c < db_size
}

/// Writing one more value acts after the earlier writes.
pub proof fn lemma_apply_push(s: SessionModel, ws: Seq<SessionWrite>, w: SessionWrite)
    ensures
        s.apply_all(ws.push(w)) == s.apply_all(ws).apply(w),
{
    assert(ws.push(w).drop_last() =~= ws);
}

/// Two lists of writes act one after the other.
pub proof fn lemma_apply_concat(s: SessionModel, a: Seq<SessionWrite>, b: Seq<SessionWrite>)
    ensures
        s.apply_all(a + b) == s.apply_all(a).apply_all(b),
    decreases b.len(),
{
    if b.len() == 0 {
        assert(a + b =~= a);
    } else {
        lemma_apply_concat(s, a, b.drop_last());
        assert((a + b).drop_last() =~= a + b.drop_last());
    }
}

proof fn lemma_apply_one(s: SessionModel, w: SessionWrite)
    ensures
        s.apply_all(seq![w]) == s.apply(w),
{
    lemma_apply_push(s, Seq::empty(), w);
}

proof fn lemma_apply_two(s: SessionModel, w1: SessionWrite, w2: SessionWrite)
    ensures
        s.apply_all(seq![w1, w2]) == s.apply(w1).apply(w2),
{
    assert(seq![w1, w2] =~= seq![w1].push(w2));
    lemma_apply_push(s, seq![w1], w2);
    lemma_apply_one(s, w1);
}

proof fn lemma_apply_three(s: SessionModel, w1: SessionWrite, w2: SessionWrite, w3: SessionWrite)
    ensures
        s.apply_all(seq![w1, w2, w3]) == s.apply(w1).apply(w2).apply(w3),
{
    assert(seq![w1, w2, w3] =~= seq![w1, w2].push(w3));
    lemma_apply_push(s, seq![w1, w2], w3);
    lemma_apply_two(s, w1, w2);
}

proof fn lemma_apply_four(
    s: SessionModel,
    w1: SessionWrite,
    w2: SessionWrite,
    w3: SessionWrite,
    w4: SessionWrite,
)
    ensures
        s.apply_all(seq![w1, w2, w3, w4]) == s.apply(w1).apply(w2).apply(w3).apply(w4),
{
    assert(seq![w1, w2, w3, w4] =~= seq![w1, w2, w3].push(w4));
    lemma_apply_push(s, seq![w1, w2, w3], w4);
    lemma_apply_three(s, w1, w2, w3);
}

/// Asking for the next book leaves the player on a book of the list: the
/// position starts at the first book and never moves past the last one.
pub proof fn counter_stays_on_a_book(db_size: nat, s: SessionModel)
    requires
        db_size >= 1,
        on_a_book(s.counter, db_size),
    ensures
        ({
            let after = s.apply_all(counter_writes(db_size, s.counter));
            after.counter is Some && on_a_book(after.counter, db_size)
        }),
{
    match s.counter {
        Some(c) => {
            if c + 1 < db_size {
                lemma_apply_one(s, SessionWrite::Counter((c + 1) as usize));
            }
        },
        None => {
            lemma_apply_one(s, SessionWrite::Counter(0));
        },
    }
}

/// The main page leaves the player on a book of the list: where it moves on
/// it does so only before the last book, and otherwise the results are shown.
pub proof fn index_stays_on_a_book(
    db_size: nat,
    s: SessionModel,
    next: bool,
    last_done: Option<bool>,
)
    requires
        db_size >= 1,
        on_a_book(s.counter, db_size),
        !finishing(db_size, s.counter, next, last_done),
    ensures
        ({
            let after = s.apply_all(index_writes(db_size, s.counter, next, s.help1_state, s.help2_state));
            after.counter is Some && on_a_book(after.counter, db_size)
        }),
{
    lemma_index_moves(db_size, s, next);
}

/// The part of the main page's writes that moves to a book and the rest,
/// which touches only the hints.
pub proof fn lemma_index_moves(db_size: nat, s: SessionModel, next: bool)
    ensures
        ({
            let after = s.apply_all(index_writes(db_size, s.counter, next, s.help1_state, s.help2_state));
            &&& after.counter == (match s.counter {
                Some(c) => if c < db_size && next {
                    Some((c + 1) as usize)
                } else {
                    Some(c)
                },
                None => Some(0usize),
            })
            &&& after.current_points == (match s.counter {
                Some(c) => if c < db_size && next {
                    Some(FULL_POINTS)
                } else {
                    s.current_points
                },
                None => Some(FULL_POINTS),
            })
            &&& after.help1_state == (if s.help1_state.unwrap_or(true) {
                Some(true)
            } else {
                s.help1_state
            })
            &&& after.help2_state == (if s.help2_state.unwrap_or(true) {
                Some(true)
            } else {
                s.help2_state
            })
            &&& after.all_points == s.all_points
            &&& after.book_points == s.book_points
            &&& after.book_done == s.book_done
        }),
{
    let moves: Seq<SessionWrite> = match s.counter {
        Some(c) => if c < db_size && next {
            seq![SessionWrite::Counter((c + 1) as usize), SessionWrite::CurrentPoints(FULL_POINTS)]
        } else {
            Seq::empty()
        },
        None => seq![SessionWrite::Counter(0), SessionWrite::CurrentPoints(FULL_POINTS)],
    };
    let hint1: Seq<SessionWrite> = if s.help1_state.unwrap_or(true) {
        seq![SessionWrite::Help1State(true)]
    } else {
        Seq::empty()
    };
    let hint2: Seq<SessionWrite> = if s.help2_state.unwrap_or(true) {
        seq![SessionWrite::Help2State(true)]
    } else {
        Seq::empty()
    };
    assert(index_writes(db_size, s.counter, next, s.help1_state, s.help2_state) == moves + hint1
        + hint2);
    lemma_apply_concat(s, moves + hint1, hint2);
    lemma_apply_concat(s, moves, hint1);
    match s.counter {
        Some(c) => {
            if c < db_size && next {
                lemma_apply_two(
                    s,
                    SessionWrite::Counter((c + 1) as usize),
                    SessionWrite::CurrentPoints(FULL_POINTS),
                );
            }
        },
        None => {
            lemma_apply_two(s, SessionWrite::Counter(0), SessionWrite::CurrentPoints(FULL_POINTS));
        },
    }
    let m = s.apply_all(moves);
    if s.help1_state.unwrap_or(true) {
        lemma_apply_one(m, SessionWrite::Help1State(true));
    }
    let h = m.apply_all(hint1);
    if s.help2_state.unwrap_or(true) {
        lemma_apply_one(h, SessionWrite::Help2State(true));
    }
}

/// A new book starts with full points: where the main page moves on to a book,
/// the current points are five.
pub proof fn new_book_starts_with_full_points(db_size: nat, s: SessionModel, next: bool)
    requires
        s.counter is None || (s.counter matches Some(c) && c < db_size && next),
    ensures
        s.apply_all(index_writes(db_size, s.counter, next, s.help1_state, s.help2_state)).current_points
            == Some(FULL_POINTS),
{
    lemma_index_moves(db_size, s, next);
}

/// A used hint stays used: the main page never offers again a hint that was
/// taken.
pub proof fn used_hint_stays_used(db_size: nat, s: SessionModel, next: bool)
    ensures
        ({
            let after = s.apply_all(index_writes(db_size, s.counter, next, s.help1_state, s.help2_state));
            &&& s.help1_state == Some(false) ==> after.help1_state == Some(false)
            &&& s.help2_state == Some(false) ==> after.help2_state == Some(false)
        }),
{
    lemma_index_moves(db_size, s, next);
}

/// Taking a hint uses it up and never costs the last point.
pub proof fn hint_is_used_up(s: SessionModel, number: u8)
    ensures
        ({
            let after = s.apply_all(help_writes(s.current_points, number));
            let cp = s.current_points.unwrap_or(0);
            &&& number == 1 ==> after.help1_state == Some(false)
            &&& number != 1 ==> after.help2_state == Some(false)
            &&& after.current_points == (if cp > 1 {
                Some((cp - 1) as u8)
            } else {
                s.current_points
            })
            &&& after.counter == s.counter
            &&& after.all_points == s.all_points
        }),
{
    let cp = s.current_points.unwrap_or(0);
    let used = if number == 1 {
        SessionWrite::Help1State(false)
    } else {
        SessionWrite::Help2State(false)
    };
    if cp > 1 {
        lemma_apply_two(s, SessionWrite::CurrentPoints((cp - 1) as u8), used);
    } else {
        lemma_apply_one(s, used);
    }
}

/// The session after a guess on the current book.
pub open spec fn after_guess(s: SessionModel, correct: bool) -> SessionModel {
    let count = current_index(s.counter);
    s.apply_all(guess_writes(count, s.current_points, s.all_points, s.done_of(count), correct))
}

/// What a guess does to the session: a right guess on a book not yet finished
/// adds the current points to the total once, records them for the book and
/// finishes it; a right guess on a finished book changes no score; a wrong
/// guess costs a point but never the last. No guess moves the counter.
pub proof fn guess_scores_once(s: SessionModel, correct: bool)
    ensures
        ({
            let count = current_index(s.counter);
            let cp = s.current_points.unwrap_or(0);
            let after = after_guess(s, correct);
            &&& after.counter == s.counter
            &&& (correct && s.done_of(count) != Some(true)) ==> {
                &&& after.all_points == Some(add_points(s.all_points.unwrap_or(0), cp))
                &&& after.points_of(count) == Some(cp)
                &&& after.done_of(count) == Some(true)
                &&& after.current_points == s.current_points
                &&& after.sentences_state == Some(1i32)
            }
            &&& (correct && s.done_of(count) == Some(true)) ==> {
                &&& after.all_points == s.all_points
                &&& after.book_points == s.book_points
                &&& after.book_done == s.book_done
                &&& after.current_points == s.current_points
            }
            &&& !correct ==> {
                &&& after.all_points == s.all_points
                &&& after.book_points == s.book_points
                &&& after.book_done == s.book_done
                &&& after.current_points == (if cp > 1 {
                    Some((cp - 1) as u8)
                } else {
                    s.current_points
                })
            }
        }),
{
    let count = current_index(s.counter);
    let cp = s.current_points.unwrap_or(0);
    let ap = s.all_points.unwrap_or(0);
    if correct {
        if s.done_of(count).unwrap_or(false) {
            lemma_apply_one(s, SessionWrite::SentencesState(1));
        } else {
            lemma_apply_four(
                s,
                SessionWrite::SentencesState(1),
                SessionWrite::BookPoints(count, cp),
                SessionWrite::BookDone(count, true),
                SessionWrite::AllPoints(add_points(ap, cp)),
            );
        }
    } else if cp > 1 {
        lemma_apply_one(s, SessionWrite::CurrentPoints((cp - 1) as u8));
    }
}

/// A book scores once: guessing it right a second time leaves the total as
/// the first right guess made it.
pub proof fn second_right_guess_scores_nothing(s: SessionModel)
    ensures
        after_guess(after_guess(s, true), true).all_points == after_guess(s, true).all_points,
{
    let s1 = after_guess(s, true);
    guess_scores_once(s, true);
    guess_scores_once(s1, true);
    let count = current_index(s.counter);
    if s.done_of(count) != Some(true) {
        assert(s1.done_of(count) == Some(true));
    }
}

/// Giving up finishes the current book with no points; the total stays as it
/// was and the first sentence is shown again.
pub proof fn give_up_forfeits_the_book(s: SessionModel)
    ensures
        ({
            let count = current_index(s.counter);
            let after = s.apply_all(give_up_writes(count));
            &&& after.points_of(count) == Some(0u8)
            &&& after.done_of(count) == Some(true)
            &&& after.all_points == s.all_points
            &&& after.current_points == s.current_points
            &&& after.counter == s.counter
            &&& after.sentences_state == Some(1i32)
        }),
{
    let count = current_index(s.counter);
    lemma_apply_three(
        s,
        SessionWrite::BookPoints(count, 0),
        SessionWrite::BookDone(count, true),
        SessionWrite::SentencesState(1),
    );
}

/// The sentences come in a cycle: moving on shows one more sentence, and
/// after the third the first again; without moving on the stage stays.
pub proof fn sentences_cycle(state: Option<i32>)
    requires
        state matches Some(k) ==> 1 <= k <= 3,
    ensures
        ({
            let k = state.unwrap_or(1);
            &&& sentences_stage(state, false) == k
            &&& sentences_stage(state, true) == (if k == 3 {
                1
            } else {
                k + 1
            })
            &&& sentences_state_after(state, true) == Some((if k == 3 {
                1
            } else {
                k + 1
            }) as i32)
            &&& sentences_state_after(state, false) == state
        }),
{
}

/// Reading more sentences costs points but never the last one, and never
/// moves the counter or changes the scores.
pub proof fn sentences_never_cost_the_last_point(s: SessionModel, next: bool)
    ensures
        ({
            let cp = s.current_points.unwrap_or(0);
            let after = s.apply_all(sentences_writes(s.current_points, s.sentences_state, next));
            let cp_after = after.current_points.unwrap_or(0);
            &&& cp_after <= cp
            &&& cp >= 1 ==> cp_after >= 1
            &&& after.counter == s.counter
            &&& after.all_points == s.all_points
            &&& after.book_points == s.book_points
            &&& after.book_done == s.book_done
        }),
{
    let ws = sentences_writes(s.current_points, s.sentences_state, next);
    let first: Seq<SessionWrite> = if next {
        seq![SessionWrite::SentencesState(sentences_state_after(s.sentences_state, next).unwrap_or(1))]
    } else {
        Seq::empty()
    };
    let stage = sentences_stage(s.sentences_state, next);
    if next {
        lemma_apply_one(s, first[0]);
    }
    if stage == 2 || stage == 3 {
        lemma_apply_push(s, first, SessionWrite::CurrentPoints(sentences_points_after(s.current_points, s.sentences_state, next)));
    }
}

/// A book given up on scores nothing afterwards: a right guess after giving
/// up leaves the total as it was.
pub proof fn give_up_then_right_guess_scores_nothing(s: SessionModel)
    ensures
        ({
            let given_up = s.apply_all(give_up_writes(current_index(s.counter)));
            after_guess(given_up, true).all_points == s.all_points
        }),
{
    let given_up = s.apply_all(give_up_writes(current_index(s.counter)));
    give_up_forfeits_the_book(s);
    guess_scores_once(given_up, true);
}

/// The current points never exceed the full five: the main page sets them to
/// five for a new book, and every other request keeps or lowers them.
pub proof fn points_stay_within_full(
    s: SessionModel,
    db_size: nat,
    next: bool,
    correct: bool,
    number: u8,
)
    requires
        s.current_points.unwrap_or(0) <= FULL_POINTS,
    ensures
        s.apply_all(index_writes(db_size, s.counter, next, s.help1_state, s.help2_state)).current_points.unwrap_or(0)
            <= FULL_POINTS,
        after_guess(s, correct).current_points.unwrap_or(0) <= FULL_POINTS,
        s.apply_all(sentences_writes(s.current_points, s.sentences_state, next)).current_points.unwrap_or(0)
            <= FULL_POINTS,
        s.apply_all(help_writes(s.current_points, number)).current_points.unwrap_or(0) <= FULL_POINTS,
        s.apply_all(give_up_writes(current_index(s.counter))).current_points.unwrap_or(0)
            <= FULL_POINTS,
{
    lemma_index_moves(db_size, s, next);
    guess_scores_once(s, correct);
    sentences_never_cost_the_last_point(s, next);
    hint_is_used_up(s, number);
    give_up_forfeits_the_book(s);
}

/// Asking for the next book moves exactly one book on, never past the last
/// one, and the reply counts the book the player is on.
pub proof fn counter_moves_one_book_at_a_time(db_size: nat, s: SessionModel)
    ensures
        ({
            let after = s.apply_all(counter_writes(db_size, s.counter));
            match s.counter {
                Some(c) => if c + 1 < db_size {
                    after.counter == Some((c + 1) as usize) && counter_after(db_size, s.counter) == c + 1
                } else {
                    after.counter == Some(c) && counter_after(db_size, s.counter) == c
                },
                None => after.counter == Some(0usize) && counter_after(db_size, s.counter) == 0,
            }
        }),
{
    match s.counter {
        Some(c) => {
            if c + 1 < db_size {
                lemma_apply_one(s, SessionWrite::Counter((c + 1) as usize));
            } else {
                assert(s.apply_all(Seq::empty()) == s);
            }
        },
        None => {
            lemma_apply_one(s, SessionWrite::Counter(0));
        },
    }
}

/// The results come only after the last book: they are shown exactly when
/// the player asks to move on from the last book (or past it), or when the
/// last book is finished.
pub proof fn results_only_after_the_last_book(
    db_size: nat,
    stored: Option<usize>,
    next: bool,
    last_done: Option<bool>,
)
    ensures
        finishing(db_size, stored, next, last_done) <==> ((current_index(stored) + 1 >= db_size
            && next) || last_done == Some(true)),
{
}

/// Before the last book, moving on from the main page goes to the very next
/// book with full points, and does not show the results.
pub proof fn index_moves_to_the_next_book(db_size: nat, s: SessionModel, last_done: Option<bool>)
    requires
        s.counter is Some,
        current_index(s.counter) < usize::MAX,
        current_index(s.counter) + 1 < db_size,
        last_done != Some(true),
    ensures
        ({
            let c = current_index(s.counter);
            let after = s.apply_all(index_writes(db_size, s.counter, true, s.help1_state, s.help2_state));
            &&& !finishing(db_size, s.counter, true, last_done)
            &&& index_counter_after(db_size, s.counter, true) == c + 1
            &&& after.counter == Some((c + 1) as usize)
            &&& after.current_points == Some(FULL_POINTS)
        }),
{
    lemma_index_moves(db_size, s, true);
    assert(last_done.unwrap_or(false) == false);
    assert(s.counter == Some(current_index(s.counter)));
}

/// The texts a sentences page shows, in order.
pub open spec fn shown_sentences(page: Page) -> Seq<Seq<char>> {
    match page {
        Page::Sentences { sentence1, sentence2, sentence3, .. } => seq![
            sentence1@,
            sentence2@,
            sentence3@,
        ],
        _ => Seq::empty(),
    }
}

/// A sentences page at `stage` shows exactly the first `stage` sentences of
/// the book in clear and the given masks for the others.
pub proof fn clear_sentences_match_the_stage(
    page: Page,
    book: Book,
    stage: u8,
    mask2: Seq<char>,
    mask3: Seq<char>,
)
    requires
        sentences_page_is(page, book, stage, mask2, mask3),
        1 <= stage <= 3,
    ensures
        shown_sentences(page) == (if stage == 1 {
            seq![book.sentences@[0]@, mask2, mask3]
        } else if stage == 2 {
            seq![book.sentences@[0]@, book.sentences@[1]@, mask3]
        } else {
            seq![book.sentences@[0]@, book.sentences@[1]@, book.sentences@[2]@]
        }),
{
}

/// Hidden sentences do not leak: two books that differ only in sentences not
/// yet revealed give the same page, for the same masks.
pub proof fn hidden_sentences_do_not_leak(
    page1: Page,
    page2: Page,
    book1: Book,
    book2: Book,
    stage: u8,
    mask2: Seq<char>,
    mask3: Seq<char>,
)
    requires
        sentences_page_is(page1, book1, stage, mask2, mask3),
        sentences_page_is(page2, book2, stage, mask2, mask3),
        1 <= stage <= 3,
        forall|i: int| 0 <= i < stage ==> book1.sentences@[i]@ == book2.sentences@[i]@,
    ensures
        shown_sentences(page1) == shown_sentences(page2),
{
    assert(book1.sentences@[0]@ == book2.sentences@[0]@);
    if stage >= 2 {
        assert(book1.sentences@[1]@ == book2.sentences@[1]@);
    }
    if stage == 3 {
        assert(book1.sentences@[2]@ == book2.sentences@[2]@);
    }
}

/// Another sentence costs exactly one point while more than one is left;
/// staying on the same sentence costs nothing.
pub proof fn another_sentence_costs_one_point(s: SessionModel)
    ensures
        ({
            let cp = s.current_points.unwrap_or(0);
            let moved = s.apply_all(sentences_writes(s.current_points, s.sentences_state, true));
            let stayed = s.apply_all(sentences_writes(s.current_points, s.sentences_state, false));
            &&& (1 <= s.sentences_state.unwrap_or(1) < 3 && cp > 1) ==> moved.current_points == Some(
                (cp - 1) as u8,
            )
            &&& stayed.current_points.unwrap_or(0) == cp
            &&& stayed.sentences_state == s.sentences_state
        }),
{
    let st = s.sentences_state.unwrap_or(1);
    let first = seq![SessionWrite::SentencesState(sentences_state_after(s.sentences_state, true).unwrap_or(1))];
    lemma_apply_one(s, first[0]);
    if 1 <= st < 3 {
        assert(sentences_stage(s.sentences_state, true) == 2 || sentences_stage(s.sentences_state, true) == 3);
        lemma_apply_push(
            s,
            first,
            SessionWrite::CurrentPoints(sentences_points_after(s.current_points, s.sentences_state, true)),
        );
    }
    let stage = sentences_stage(s.sentences_state, false);
    if stage == 2 || stage == 3 {
        lemma_apply_push(
            s,
            Seq::empty(),
            SessionWrite::CurrentPoints(sentences_points_after(s.current_points, s.sentences_state, false)),
        );
        assert(Seq::<SessionWrite>::empty().push(
            SessionWrite::CurrentPoints(sentences_points_after(s.current_points, s.sentences_state, false)),
        ) == sentences_writes(s.current_points, s.sentences_state, false));
    } else {
        assert(sentences_writes(s.current_points, s.sentences_state, false) == Seq::<SessionWrite>::empty());
    }
}

/// A guess is right exactly when its case-folded text equals the case-folded
/// title or the case-folded other title; any other guess, a prefix of the
/// title included, is wrong.
pub proof fn guess_is_right_exactly_on_a_folded_title(
    title: Seq<char>,
    title_alter: Seq<char>,
    guess: Seq<char>,
)
    ensures
        guess_matches(title, title_alter, guess) <==> (lowercase_of(guess) == lowercase_of(title)
            || lowercase_of(guess) == lowercase_of(title_alter)),
        lowercase_of(guess) != lowercase_of(title) && lowercase_of(guess) != lowercase_of(title_alter)
            ==> !guess_matches(title, title_alter, guess),
{
}

/// Guesses that fold to the same text are judged alike.
pub proof fn guesses_fold_alike(
    title: Seq<char>,
    title_alter: Seq<char>,
    guess1: Seq<char>,
    guess2: Seq<char>,
)
    requires
        lowercase_of(guess1) == lowercase_of(guess2),
    ensures
        guess_matches(title, title_alter, guess1) == guess_matches(title, title_alter, guess2),
{
}

/// Every character of a mask is an ASCII letter or digit, and a mask has as
/// many characters as the word has bytes.
pub proof fn masks_are_letters_and_digits(word: Seq<char>, mask: Seq<char>)
    requires
        fits(word, mask),
    ensures
        mask.len() == byte_len(word),
        forall|i: int| 0 <= i < mask.len() ==> is_alphanumeric(#[trigger] mask[i]),
{
}

/// A mask takes nothing from its word but the byte length: whatever may mask
/// one word may mask any other word of the same byte length.
pub proof fn masks_depend_only_on_length(word1: Seq<char>, word2: Seq<char>, mask: Seq<char>)
    requires
        byte_len(word1) == byte_len(word2),
        fits(word1, mask),
    ensures
        fits(word2, mask),
{
}

/// Splitting at spaces and joining with spaces gives the text back.
pub proof fn split_then_join_is_identity(s: Seq<char>)
    ensures
        join_with_spaces(split_on_spaces(s)) == s,
        forall|i: int, j: int|
            0 <= i < split_on_spaces(s).len() && 0 <= j < split_on_spaces(s)[i].len()
                ==> #[trigger] split_on_spaces(s)[i][j] != ' ',
    decreases s.len(),
{
    if s.len() == 0 {
        assert(split_on_spaces(s) =~= seq![Seq::<char>::empty()]);
    } else {
        let t = s.drop_last();
        let c = s.last();
        split_then_join_is_identity(t);
        let prev = split_on_spaces(t);
        lemma_split_len(t);
        if c == ' ' {
            let cur = prev.push(Seq::<char>::empty());
            assert(cur.drop_last() =~= prev);
            assert(join_with_spaces(cur) == join_with_spaces(prev) + seq![' '] + Seq::<char>::empty());
            assert(t + seq![' '] + Seq::<char>::empty() =~= s);
        } else {
            let n = prev.len();
            let cur = prev.update(n - 1, prev.last().push(c));
            if n == 1 {
                assert(join_with_spaces(prev) == prev[0]);
                assert(cur.len() == 1);
                assert(join_with_spaces(cur) == cur[0]);
                assert(t.push(c) =~= s);
            } else {
                assert(cur.drop_last() =~= prev.drop_last());
                assert(join_with_spaces(prev) == join_with_spaces(prev.drop_last()) + seq![' ']
                    + prev.last());
                assert(join_with_spaces(cur) == join_with_spaces(cur.drop_last()) + seq![' ']
                    + cur.last());
                assert(join_with_spaces(cur) =~= t.push(c));
                assert(t.push(c) =~= s);
            }
            assert forall|i: int, j: int|
                0 <= i < cur.len() && 0 <= j < cur[i].len() implies #[trigger] cur[i][j] != ' ' by {
                if i == n - 1 && j == cur[i].len() - 1 {
                } else if i == n - 1 {
                    assert(cur[i][j] == prev[i][j]);
                } else {
                    assert(cur[i] == prev[i]);
                }
            }
        }
    }
}

proof fn lemma_split_len(s: Seq<char>)
    ensures
        split_on_spaces(s).len() >= 1,
    decreases s.len(),
{
    if s.len() > 0 {
        lemma_split_len(s.drop_last());
    }
}

/// The number that a text of decimal digits writes.
pub open spec fn digits_value(s: Seq<char>) -> int
    decreases s.len(),
{
    if s.len() == 0 {
        0
    } else {
        digits_value(s.drop_last()) * 10 + (s.last() as int - 48)
    }
}

/// The decimal numeral of `n` is made of digits, has no leading zero, and
/// reads back as `n`.
pub proof fn decimal_reads_back(n: nat)
    ensures
        digits_value(decimal_text(n)) == n,
        forall|i: int|
            0 <= i < decimal_text(n).len() ==> '0' <= #[trigger] decimal_text(n)[i] <= '9',
        decimal_text(n).len() >= 1,
        n > 0 ==> decimal_text(n)[0] != '0',
    decreases n,
{
    if n < 10 {
        assert(decimal_text(n) == seq![digit_char(n)]);
        assert(seq![digit_char(n)].drop_last() =~= Seq::<char>::empty());
        assert(digit_char(n) as int == n + 48);
        assert(digits_value(Seq::<char>::empty()) == 0);
        assert(digits_value(seq![digit_char(n)]) == n);
    } else {
        decimal_reads_back(n / 10);
        let prev = decimal_text(n / 10);
        assert(decimal_text(n) == prev.push(digit_char(n % 10)));
        assert(prev.push(digit_char(n % 10)).drop_last() =~= prev);
        vstd::arithmetic::div_mod::lemma_fundamental_div_mod(n as int, 10);
        assert(digit_char(n % 10) as int == n % 10 + 48);
        assert(digits_value(decimal_text(n)) == digits_value(prev) * 10 + (n % 10) as int);
        assert(digits_value(prev) == n / 10);
        assert((n / 10) as int * 10 == 10 * (n / 10) as int);
        assert(decimal_text(n)[0] == prev[0]);
    }
}

/// Adding to the total never loses points below the cap: the total grows by
/// exactly the points unless it would pass the largest value it can hold.
pub proof fn points_add_up(all_points: u32, points: u8)
    ensures
        add_points(all_points, points) >= all_points,
        all_points + points <= u32::MAX ==> add_points(all_points, points) == all_points + points,
        all_points + points > u32::MAX ==> add_points(all_points, points) == u32::MAX,
{
}

/// The total that the page of a right guess shows is the total the session
/// holds after the guess.
pub proof fn right_guess_page_shows_the_stored_total(s: SessionModel)
    ensures
        ({
            let count = current_index(s.counter);
            after_guess(s, true).all_points.unwrap_or(0) == total_after_guess(
                s.current_points,
                s.all_points,
                s.done_of(count),
            )
        }),
{
    guess_scores_once(s, true);
}

} // verus!
