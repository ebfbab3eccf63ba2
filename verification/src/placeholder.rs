//! Masking of a sentence: each word is replaced by random letters and digits
//! of the same length, so that the shape of a hidden sentence shows but not
//! its words.
use rand::Rng;
use vstd::prelude::*;
use vstd::string::{StrSliceExecFns, StringExecFns};
use vstd::utf8::encode_utf8;

verus! {

/// The pieces of `s` between its spaces, as `str::split(' ')` yields them:
/// one more piece than there are spaces, empty pieces included.
pub open spec fn split_on_spaces(s: Seq<char>) -> Seq<Seq<char>>
    decreases s.len(),
{
    if s.len() == 0 {
        seq![Seq::<char>::empty()]
    } else {
        let prev = split_on_spaces(s.drop_last());
        if s.last() == ' ' {
            prev.push(Seq::<char>::empty())
        } else {
            prev.update(prev.len() - 1, prev.last().push(s.last()))
        }
    }
}

/// The words joined with one space between neighbours.
pub open spec fn join_with_spaces(words: Seq<Seq<char>>) -> Seq<char>
    decreases words.len(),
{
    if words.len() == 0 {
        Seq::<char>::empty()
    } else if words.len() == 1 {
        words[0]
    } else {
        join_with_spaces(words.drop_last()) + seq![' '] + words.last()
    }
}

/// The two line-break tags that a placeholder keeps as they are.
pub open spec fn is_line_break(word: Seq<char>) -> bool {
    word == "<br>"@ || word == "</br>"@
}

/// An ASCII letter or digit.
pub open spec fn is_alphanumeric(c: char) -> bool {
    ('A' <= c && c <= 'Z') || ('a' <= c && c <= 'z') || ('0' <= c && c <= '9')
}

/// The length of a word in UTF-8 bytes, as `str::len` reports it.
pub open spec fn byte_len(word: Seq<char>) -> nat {
    (encode_utf8(word).len() as usize) as nat
}

/// The piece that stands for `word` in a placeholder, given the random text
/// drawn for it.
pub open spec fn masked(word: Seq<char>, random: Seq<char>) -> Seq<char> {
    if is_line_break(word) {
        word
    } else {
        random
    }
}

/// `random` is a text that the random source may draw for `word`: as many
/// ASCII letters and digits as the word has bytes.
pub open spec fn fits(word: Seq<char>, random: Seq<char>) -> bool {
    &&& random.len() == byte_len(word)
    &&& forall|i: int| 0 <= i < random.len() ==> is_alphanumeric(#[trigger] random[i])
}

/// `out` is a placeholder of `input`: the words of `input` between its spaces,
/// each line-break tag kept and each other word replaced by as many random
/// ASCII letters and digits as it has bytes, joined again by single spaces.
pub open spec fn is_placeholder_of(out: Seq<char>, input: Seq<char>) -> bool {
    let words = split_on_spaces(input);
    exists|randoms: Seq<Seq<char>>|
        {
            &&& randoms.len() == words.len()
            &&& forall|i: int| 0 <= i < words.len() ==> fits(words[i], #[trigger] randoms[i])
            &&& out == join_with_spaces(
                Seq::new(words.len(), |i: int| masked(words[i], randoms[i])),
            )
        }
}

proof fn lemma_split_nonempty(s: Seq<char>)
    ensures
        split_on_spaces(s).len() >= 1,
    decreases s.len(),
{
    if s.len() > 0 {
        lemma_split_nonempty(s.drop_last());
    }
}

/// Draws `len` ASCII letters and digits from the thread's random generator.
/// Calls `rand::thread_rng` and samples `rand::distributions::Alphanumeric`
/// `len` times; the contract claims the length and that each character is one
/// of `A-Z`, `a-z`, `0-9`, which is the set that distribution draws from.
/// Which characters come out is left open.
#[verifier::external_body]
fn random_alphanumeric(len: usize) -> (s: String)
    ensures
        s@.len() == len,
        forall|i: int| 0 <= i < s@.len() ==> is_alphanumeric(#[trigger] s@[i]),
{
    let rng = rand::thread_rng();
    rng.sample_iter(&rand::distributions::Alphanumeric).take(len).map(char::from).collect()
}

/// Splits `input` at each space, as `input.split(' ')` does.
pub fn split_words(input: &str) -> (words: Vec<String>)
    ensures
        words@.map_values(|w: String| w@) == split_on_spaces(input@),
{
    let n = input.unicode_len();
    let mut words: Vec<String> = Vec::new();
    let mut start: usize = 0;
    let mut i: usize = 0;
    assert(input@.take(0) =~= Seq::<char>::empty());
    assert(input@.subrange(0, 0) =~= Seq::<char>::empty());
    assert(words@.map_values(|w: String| w@) =~= Seq::<Seq<char>>::empty());
    while i < n
        invariant
            n == input@.len(),
            start <= i <= n,
            words@.map_values(|w: String| w@).push(input@.subrange(start as int, i as int))
                == split_on_spaces(input@.take(i as int)),
        decreases n - i,
    {
        let c = input.get_char(i);
        let ghost prev = input@.take(i as int);
        let ghost next = input@.take(i as int + 1);
        let ghost old_views = words@.map_values(|w: String| w@);
        let ghost cur = input@.subrange(start as int, i as int);
        assert(next.drop_last() =~= prev);
        assert(next.last() == c);
        assert(split_on_spaces(prev) == old_views.push(cur));
        if c == ' ' {
            let word = String::from_str(input.substring_char(start, i));
            words.push(word);
            start = i + 1;
            assert(words@.map_values(|w: String| w@) =~= old_views.push(cur));
            assert(input@.subrange(start as int, i as int + 1) =~= Seq::<char>::empty());
            assert(split_on_spaces(next) == split_on_spaces(prev).push(Seq::<char>::empty()));
        } else {
            assert(input@.subrange(start as int, i as int + 1) =~= cur.push(c));
            assert(split_on_spaces(next) == split_on_spaces(prev).update(
                split_on_spaces(prev).len() - 1,
                split_on_spaces(prev).last().push(c),
            ));
            assert(old_views.push(cur).update(old_views.len() as int, cur.push(c))
                =~= old_views.push(cur.push(c)));
        }
        i = i + 1;
    }
    let ghost old_views = words@.map_values(|w: String| w@);
    let last = String::from_str(input.substring_char(start, n));
    words.push(last);
    assert(words@.map_values(|w: String| w@) =~= old_views.push(input@.subrange(start as int, n as int)));
    assert(input@.take(n as int) =~= input@);
    words
}

fn is_line_break_word(word: &String) -> (b: bool)
    ensures
        b == is_line_break(word@),
{
    let open = String::from_str("<br>");
    let close = String::from_str("</br>");
    *word == open || *word == close
}

/// Joins the words with single spaces, keeping each line-break tag and taking
/// every other word's piece from `randoms` at the same position.
pub fn fill_placeholder(words: &Vec<String>, randoms: &Vec<String>) -> (out: String)
    requires
        words@.len() == randoms@.len(),
    ensures
        out@ == join_with_spaces(
            Seq::new(words@.len(), |i: int| masked(words@[i]@, randoms@[i]@)),
        ),
{
    let ghost pieces = Seq::new(words@.len(), |i: int| masked(words@[i]@, randoms@[i]@));
    let mut out = String::new();
    let mut i: usize = 0;
    while i < words.len()
        invariant
            words@.len() == randoms@.len(),
            pieces == Seq::new(words@.len(), |i: int| masked(words@[i]@, randoms@[i]@)),
            i <= words@.len(),
            out@ == join_with_spaces(pieces.take(i as int)),
        decreases words.len() - i,
    {
        let ghost before = out@;
        proof {
            reveal_strlit(" ");
        }
        if i > 0 {
            out.append(" ");
        }
        if is_line_break_word(&words[i]) {
            out.append(words[i].as_str());
        } else {
            out.append(randoms[i].as_str());
        }
        let ghost taken = pieces.take(i as int + 1);
        assert(taken.drop_last() =~= pieces.take(i as int));
        assert(taken.last() == pieces[i as int]);
        if i == 0 {
            assert(before =~= Seq::<char>::empty());
            assert(out@ =~= taken[0]);
        } else {
            assert(out@ =~= before + seq![' '] + pieces[i as int]);
        }
        i = i + 1;
    }
    assert(pieces.take(words@.len() as int) == pieces);
    out
}

/// Masks a sentence: splits it at spaces, keeps each `<br>` and `</br>`, and
/// replaces every other word by random ASCII letters and digits, as many as
/// the word has bytes.
pub fn generate_placeholder(input: &str) -> (out: String)
    ensures
        is_placeholder_of(out@, input@),
{
    let words = split_words(input);
    let mut randoms: Vec<String> = Vec::new();
    let mut i: usize = 0;
    while i < words.len()
        invariant
            i <= words@.len(),
            randoms@.len() == i,
            forall|j: int| 0 <= j < i ==> fits(words@[j]@, #[trigger] randoms@[j]@),
        decreases words.len() - i,
    {
        let r = random_alphanumeric(words[i].as_str().len());
        assert(fits(words@[i as int]@, r@));
        let ghost before = randoms@;
        randoms.push(r);
        assert(forall|j: int| 0 <= j < i ==> randoms@[j] == before[j]);
        i = i + 1;
    }
    let out = fill_placeholder(&words, &randoms);
    proof {
        let ws = split_on_spaces(input@);
        let rs = randoms@.map_values(|r: String| r@);
        assert(words@.map_values(|w: String| w@) == ws);
        assert(rs.len() == ws.len());
        assert forall|j: int| 0 <= j < ws.len() implies fits(ws[j], #[trigger] rs[j]) by {
            assert(ws[j] == words@[j]@);
        }
        assert(Seq::new(ws.len(), |j: int| masked(ws[j], rs[j])) == Seq::new(
            words@.len(),
            |j: int| masked(words@[j]@, randoms@[j]@),
        ));
    }
    out
}

} // verus!
