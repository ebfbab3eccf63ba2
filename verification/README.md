# book_guess

A book-guessing quiz served over HTTP. The player reads up to three sentences
from a book and guesses its title; hints, extra sentences and wrong guesses
cost points.

- `src/` is the verified library (Verus). It decides, from the values a request
  reads from the player's session, which values to write back and which page or
  reply to send. `src/laws.rs` proves properties that hold across requests, for
  example that the counter never leaves the book list, that a book scores only
  once, and that the current points never rise above five and never fall
  below one through a penalty.
- `app/` is the actix-web server around it: settings and book list loading,
  session reads and writes, Tera rendering, and the progress percentage, which
  is a float.
- `tests/` runs the library on concrete games.
