//! The player's session: the keys the game keeps there, the writes a request
//! makes, and a model of the whole session that the writes act on.
use vstd::prelude::*;
use vstd::string::StringExecFns;
use crate::text::{decimal, decimal_text};

verus! {

/// A key of the session. The per-book keys carry the position of the book.
#[derive(Clone, Copy, Debug, PartialEq, Eq, Structural)]
pub enum SessionKey {
    Counter,
    CurrentPoints,
    AllPoints,
    BookPoints(usize),
    BookDone(usize),
    SentencesState,
    Help1State,
    Help2State,
    Lang,
}

/// The name under which a key is stored.
pub open spec fn key_text(key: SessionKey) -> Seq<char> {
    match key {
        SessionKey::Counter => "counter"@,
        SessionKey::CurrentPoints => "current_points"@,
        SessionKey::AllPoints => "all_points"@,
        SessionKey::BookPoints(n) => "points_"@ + decimal_text(n as nat),
        SessionKey::BookDone(n) => "book_"@ + decimal_text(n as nat) + "_done"@,
        SessionKey::SentencesState => "sentences_state"@,
        SessionKey::Help1State => "help1_state"@,
        SessionKey::Help2State => "help2_state"@,
        SessionKey::Lang => "lang"@,
    }
}

impl SessionKey {
    /// The name under which the key is stored, such as `book_3_done`.
    pub fn name(&self) -> (s: String)
        ensures
            s@ == key_text(*self),
    {
        match self {
            SessionKey::Counter => String::from_str("counter"),
            SessionKey::CurrentPoints => String::from_str("current_points"),
            SessionKey::AllPoints => String::from_str("all_points"),
            SessionKey::BookPoints(n) => {
                let mut s = String::from_str("points_");
                let d = decimal(*n);
                s.append(d.as_str());
                s
            },
            SessionKey::BookDone(n) => {
                let mut s = String::from_str("book_");
                let d = decimal(*n);
                s.append(d.as_str());
                s.append("_done");
                s
            },
            SessionKey::SentencesState => String::from_str("sentences_state"),
            SessionKey::Help1State => String::from_str("help1_state"),
            SessionKey::Help2State => String::from_str("help2_state"),
            SessionKey::Lang => String::from_str("lang"),
        }
    }
}

/// One value written to the session.
#[derive(Clone, Copy, Debug, PartialEq, Eq, Structural)]
pub enum SessionWrite {
    /// The position of the book being played.
    Counter(usize),
    /// The points the current book still gives.
    CurrentPoints(u8),
    /// The points won over all books.
    AllPoints(u32),
    /// The points won on the book at a position.
    BookPoints(usize, u8),
    /// Whether the book at a position is finished.
    BookDone(usize, bool),
    /// How many sentences of the current book are shown.
    SentencesState(i32),
    /// Whether the first hint is still available.
    Help1State(bool),
    /// Whether the second hint is still available.
    Help2State(bool),
}

impl SessionWrite {
    /// The key that the write stores its value under.
    pub fn key(&self) -> (k: SessionKey)
        ensures
            k == write_key(*self),
    {
        match self {
            SessionWrite::Counter(_) => SessionKey::Counter,
            SessionWrite::CurrentPoints(_) => SessionKey::CurrentPoints,
            SessionWrite::AllPoints(_) => SessionKey::AllPoints,
            SessionWrite::BookPoints(n, _) => SessionKey::BookPoints(*n),
            SessionWrite::BookDone(n, _) => SessionKey::BookDone(*n),
            SessionWrite::SentencesState(_) => SessionKey::SentencesState,
            SessionWrite::Help1State(_) => SessionKey::Help1State,
            SessionWrite::Help2State(_) => SessionKey::Help2State,
        }
    }
}

/// The key that a write stores its value under.
pub open spec fn write_key(w: SessionWrite) -> SessionKey {
    match w {
        SessionWrite::Counter(_) => SessionKey::Counter,
        SessionWrite::CurrentPoints(_) => SessionKey::CurrentPoints,
        SessionWrite::AllPoints(_) => SessionKey::AllPoints,
        SessionWrite::BookPoints(n, _) => SessionKey::BookPoints(n),
        SessionWrite::BookDone(n, _) => SessionKey::BookDone(n),
        SessionWrite::SentencesState(_) => SessionKey::SentencesState,
        SessionWrite::Help1State(_) => SessionKey::Help1State,
        SessionWrite::Help2State(_) => SessionKey::Help2State,
    }
}

/// The game's part of a session: each value is absent until first written.
pub struct SessionModel {
    pub counter: Option<usize>,
    pub current_points: Option<u8>,
    pub all_points: Option<u32>,
    pub book_points: Map<usize, u8>,
    pub book_done: Map<usize, bool>,
    pub sentences_state: Option<i32>,
    pub help1_state: Option<bool>,
    pub help2_state: Option<bool>,
}

impl SessionModel {
    /// The points stored for the book at `n`, if any.
    pub open spec fn points_of(self, n: usize) -> Option<u8> {
        if self.book_points.dom().contains(n) {
            Some(self.book_points[n])
        } else {
            None
        }
    }

    /// The finished flag stored for the book at `n`, if any.
    pub open spec fn done_of(self, n: usize) -> Option<bool> {
        if self.book_done.dom().contains(n) {
            Some(self.book_done[n])
        } else {
            None
        }
    }

    /// The session after one write.
    pub open spec fn apply(self, w: SessionWrite) -> SessionModel {
        match w {
            SessionWrite::Counter(c) => SessionModel { counter: Some(c), ..self },
            SessionWrite::CurrentPoints(p) => SessionModel { current_points: Some(p), ..self },
            SessionWrite::AllPoints(p) => SessionModel { all_points: Some(p), ..self },
            SessionWrite::BookPoints(n, p) => SessionModel {
                book_points: self.book_points.insert(n, p),
                ..self
            },
            SessionWrite::BookDone(n, d) => SessionModel {
                book_done: self.book_done.insert(n, d),
                ..self
            },
            SessionWrite::SentencesState(st) => SessionModel { sentences_state: Some(st), ..self },
            SessionWrite::Help1State(h) => SessionModel { help1_state: Some(h), ..self },
            SessionWrite::Help2State(h) => SessionModel { help2_state: Some(h), ..self },
        }
    }

    /// The session after the writes, in order.
    pub open spec fn apply_all(self, ws: Seq<SessionWrite>) -> SessionModel
        decreases ws.len(),
    {
        if ws.len() == 0 {
            self
        } else {
            self.apply_all(ws.drop_last()).apply(ws.last())
        }
    }
}

} // verus!
