//! The books of the quiz and lookup by position.
use vstd::prelude::*;
use vstd::string::StringExecFns;
use crate::text::{decimal, decimal_text};

verus! {

/// One entry of the quiz: a book, another accepted title, its author and
/// genre, and three sentences from it, shown one after another.
pub struct Book {
    pub title: String,
    pub title_alter: String,
    pub author: String,
    pub genre: String,
    pub sentences: [String; 3],
}

impl Book {
    /// A book whose every text is empty.
    pub fn empty() -> (b: Self)
        ensures
            b.title@ == Seq::<char>::empty(),
            b.title_alter@ == Seq::<char>::empty(),
            b.author@ == Seq::<char>::empty(),
            b.genre@ == Seq::<char>::empty(),
            forall|i: int| 0 <= i < 3 ==> (#[trigger] b.sentences@[i])@ == Seq::<char>::empty(),
    {
        Book {
            title: String::new(),
            title_alter: String::new(),
            author: String::new(),
            genre: String::new(),
            sentences: [String::new(), String::new(), String::new()],
        }
    }
}

impl Book {
    /// The two books hold the same texts.
    pub open spec fn same_as(self, other: Book) -> bool {
        &&& self.title == other.title
        &&& self.title_alter == other.title_alter
        &&& self.author == other.author
        &&& self.genre == other.genre
        &&& self.sentences@ == other.sentences@
    }
}

impl Clone for Book {
    fn clone(&self) -> (b: Self)
        ensures
            b.same_as(*self),
    {
        let b = Book {
            title: self.title.clone(),
            title_alter: self.title_alter.clone(),
            author: self.author.clone(),
            genre: self.genre.clone(),
            sentences: [self.sentences[0].clone(), self.sentences[1].clone(), self.sentences[2].clone()],
        };
        assert(b.sentences@ =~= self.sentences@);
        b
    }
}

/// The error of a lookup past the end of the book list.
pub struct BookNotFound {
    pub index: usize,
}

impl BookNotFound {
    /// The message of the error: `Out of index [n]! Book not found.`
    pub fn message(&self) -> (s: String)
        ensures
            s@ == "Out of index ["@ + decimal_text(self.index as nat) + "]! Book not found."@,
    {
        let mut s = String::from_str("Out of index [");
        let n = decimal(self.index);
        s.append(n.as_str());
        s.append("]! Book not found.");
        s
    }
}

/// The book at position `n`, or `BookNotFound` past the end of the list.
pub fn get_entry(data: &Vec<Book>, n: usize) -> (r: Result<Book, BookNotFound>)
    ensures
        n < data@.len() <==> r is Ok,
        r matches Ok(b) ==> b.same_as(data@[n as int]),
        n >= data@.len() ==> r == Err::<Book, BookNotFound>(BookNotFound { index: n }),
{
    if n < data.len() {
        Ok(data[n].clone())
    } else {
        Err(BookNotFound { index: n })
    }
}

} // verus!
