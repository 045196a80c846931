use vstd::prelude::*;

verus! {

/// The texts of a list of strings.
pub open spec fn texts(v: Seq<String>) -> Seq<Seq<char>> {
    v.map_values(|s: String| s@)
}

/// The lines joined with line breaks.
pub open spec fn joined(lines: Seq<Seq<char>>) -> Seq<char>
    decreases lines.len(),
{
    if lines.len() == 0 {
        Seq::empty()
    } else if lines.len() == 1 {
        lines[0]
    } else {
        joined(lines.drop_last()) + "\n"@ + lines.last()
    }
}

/// The first `n` lines, or all of them when there are fewer.
pub open spec fn first_lines(lines: Seq<Seq<char>>, n: int) -> Seq<Seq<char>> {
    if lines.len() <= n {
        lines
    } else {
        lines.take(n)
    }
}

/// The lines joined with line breaks.
pub fn join_lines(lines: &Vec<String>) -> (s: String)
    ensures
        s@ == joined(texts(lines@)),
{
    let mut s = String::new();
    let mut i: usize = 0;
    while i < lines.len()
        invariant
            i <= lines@.len(),
            s@ == joined(texts(lines@).take(i as int)),
        decreases lines@.len() - i,
    {
        let ghost before = s@;
        if i > 0 {
            s.append("\n");
        }
        s.append(lines[i].as_str());
        proof {
            reveal_strlit("\n");
            let t = texts(lines@).take(i + 1);
            assert(t.drop_last() =~= texts(lines@).take(i as int));
            assert(t.last() == lines@[i as int]@);
            if i == 0 {
                assert(s@ =~= t[0]);
            } else {
                assert(s@ =~= joined(t.drop_last()) + "\n"@ + t.last());
            }
        }
        i = i + 1;
    }
    assert(texts(lines@).take(i as int) =~= texts(lines@));
    s
}

/// Appends the first `n` of `more` to `lines`.
pub fn push_first_lines(lines: &mut Vec<String>, more: Vec<String>, n: usize)
    ensures
        texts(final(lines)@) == texts(old(lines)@) + first_lines(texts(more@), n as int),
{
    let mut more = more;
    let ghost all = texts(more@);
    let count = if more.len() <= n {
        more.len()
    } else {
        n
    };
    more.truncate(count);
    assert(texts(more@) =~= first_lines(all, n as int));
    let ghost start = texts(lines@);
    let ghost added = texts(more@);
    lines.append(&mut more);
    assert(texts(lines@) =~= start + added);
}

/// Whether code point `v` is white space in the sense of Unicode's
/// `White_Space` property, the set `char::is_whitespace` tests.
pub open spec fn is_space_code(v: u32) -> bool {
    ||| 9 <= v <= 13
    ||| v == 32
    ||| v == 0x85
    ||| v == 0xa0
    ||| v == 0x1680
    ||| 0x2000 <= v <= 0x200a
    ||| v == 0x2028
    ||| v == 0x2029
    ||| v == 0x202f
    ||| v == 0x205f
    ||| v == 0x3000
}

/// Whether `c` is white space.
pub open spec fn is_space(c: char) -> bool {
    is_space_code(c as u32)
}

/// Whether `c` is white space.
pub fn char_is_space(c: char) -> (b: bool)
    ensures
        b == is_space(c),
{
    let v = c as u32;
    (9 <= v && v <= 13) || v == 32 || v == 0x85 || v == 0xa0 || v == 0x1680 || (0x2000 <= v && v
        <= 0x200a) || v == 0x2028 || v == 0x2029 || v == 0x202f || v == 0x205f || v == 0x3000
}

// ---------------------------------------------------------------------------
// Splitting a text into words.

/// The end of the run of non-space characters of `s` that starts at `i`.
pub open spec fn word_end(s: Seq<char>, i: int) -> int
    decreases s.len() - i,
{
    if i >= s.len() || is_space(s[i]) {
        i
    } else {
        word_end(s, i + 1)
    }
}

pub proof fn lemma_word_end(s: Seq<char>, i: int)
    requires
        0 <= i <= s.len(),
    ensures
        i <= word_end(s, i) <= s.len(),
        forall|j: int| i <= j < word_end(s, i) ==> !is_space(#[trigger] s[j]),
        word_end(s, i) < s.len() ==> is_space(s[word_end(s, i)]),
    decreases s.len() - i,
{
    if i < s.len() && !is_space(s[i]) {
        lemma_word_end(s, i + 1);
    }
}

/// The words of `s` from position `i` on: its maximal runs of non-space
/// characters, in order.
pub open spec fn words_from(s: Seq<char>, i: int) -> Seq<Seq<char>>
    decreases s.len() - i,
{
    if i < 0 || i >= s.len() {
        Seq::empty()
    } else if is_space(s[i]) {
        words_from(s, i + 1)
    } else {
        let e = word_end(s, i);
        proof {
            lemma_word_end(s, i + 1);
        }
        seq![s.subrange(i, e)] + words_from(s, e)
    }
}

/// The words of `s`, as `str::split_whitespace` yields them.
pub open spec fn words(s: Seq<char>) -> Seq<Seq<char>> {
    words_from(s, 0)
}

// ---------------------------------------------------------------------------
// Cutting an over-long word into chunks.

/// The chunks done and the chunk being filled after cutting the characters
/// of `w` one by one: a chunk is closed before a character once it holds
/// `max` characters.
pub open spec fn chunk_scan(w: Seq<char>, max: int) -> (Seq<Seq<char>>, Seq<char>)
    decreases w.len(),
{
    if w.len() == 0 {
        (Seq::empty(), Seq::empty())
    } else {
        let (done, chunk) = chunk_scan(w.drop_last(), max);
        if chunk.len() >= max {
            (done.push(chunk), seq![w.last()])
        } else {
            (done, chunk.push(w.last()))
        }
    }
}

/// The chunks `w` is cut into, each `max` characters long but the last.
pub open spec fn chunks(w: Seq<char>, max: int) -> Seq<Seq<char>> {
    let (done, chunk) = chunk_scan(w, max);
    if chunk.len() > 0 {
        done.push(chunk)
    } else {
        done
    }
}

// ---------------------------------------------------------------------------
// Filling lines.

/// The lines done and the line being filled after adding `word`: a word
/// longer than `max` closes the line and is cut into chunks of its own;
/// another word joins the line after a space when it still fits, else it
/// opens a new line.
pub open spec fn wrap_step(state: (Seq<Seq<char>>, Seq<char>), word: Seq<char>, max: int) -> (
    Seq<Seq<char>>,
    Seq<char>,
) {
    let (lines, current) = state;
    if word.len() > max {
        let closed = if current.len() > 0 {
            lines.push(current)
        } else {
            lines
        };
        (closed + chunks(word, max), Seq::empty())
    } else {
        let next_len = if current.len() == 0 {
            word.len() as int
        } else {
            (current.len() + 1 + word.len()) as int
        };
        if next_len > max && current.len() > 0 {
            (lines.push(current), word)
        } else if current.len() > 0 {
            (lines, current + seq![' '] + word)
        } else {
            (lines, word)
        }
    }
}

/// The state after adding `ws` one by one to an empty one.
pub open spec fn wrap_fold(ws: Seq<Seq<char>>, max: int) -> (Seq<Seq<char>>, Seq<char>)
    decreases ws.len(),
{
    if ws.len() == 0 {
        (Seq::empty(), Seq::empty())
    } else {
        wrap_step(wrap_fold(ws.drop_last(), max), ws.last(), max)
    }
}

/// The lines `text` is wrapped into for a width of `max` characters.
pub open spec fn wrapped(text: Seq<char>, max: int) -> Seq<Seq<char>> {
    let (lines, current) = wrap_fold(words(text), max);
    if current.len() > 0 {
        lines.push(current)
    } else {
        lines
    }
}

/// Every line is non-empty and at most `max` characters long.
pub open spec fn lines_fit(lines: Seq<Seq<char>>, max: int) -> bool {
    forall|k: int| 0 <= k < lines.len() ==> 0 < (#[trigger] lines[k]).len() <= max
}

proof fn lemma_words_nonempty(s: Seq<char>, i: int)
    ensures
        forall|k: int|
            0 <= k < words_from(s, i).len() ==> (#[trigger] words_from(s, i)[k]).len() > 0,
    decreases s.len() - i,
{
    if 0 <= i < s.len() {
        if is_space(s[i]) {
            lemma_words_nonempty(s, i + 1);
            assert(words_from(s, i) == words_from(s, i + 1));
        } else {
            let e = word_end(s, i);
            lemma_word_end(s, i + 1);
            assert(e == word_end(s, i + 1));
            lemma_words_nonempty(s, e);
            let rest = words_from(s, e);
            assert(words_from(s, i) == seq![s.subrange(i, e)] + rest);
            assert(words_from(s, i)[0] == s.subrange(i, e));
            assert forall|k: int| 0 <= k < words_from(s, i).len() implies (#[trigger] words_from(
                s,
                i,
            )[k]).len() > 0 by {
                if k > 0 {
                    assert(words_from(s, i)[k] == rest[k - 1]);
                }
            }
        }
    }
}

proof fn lemma_chunk_scan_fits(w: Seq<char>, max: int)
    requires
        max > 0,
    ensures
        forall|k: int|
            0 <= k < chunk_scan(w, max).0.len() ==> (#[trigger] chunk_scan(w, max).0[k]).len()
                == max,
        chunk_scan(w, max).1.len() <= max,
        w.len() > 0 ==> chunk_scan(w, max).1.len() > 0,
    decreases w.len(),
{
    if w.len() > 0 {
        lemma_chunk_scan_fits(w.drop_last(), max);
    }
}

proof fn lemma_chunks_fit(w: Seq<char>, max: int)
    requires
        max > 0,
    ensures
        lines_fit(chunks(w, max), max),
{
    lemma_chunk_scan_fits(w, max);
}

proof fn lemma_wrap_fold_fits(ws: Seq<Seq<char>>, max: int)
    requires
        max > 0,
        forall|k: int| 0 <= k < ws.len() ==> (#[trigger] ws[k]).len() > 0,
    ensures
        lines_fit(wrap_fold(ws, max).0, max),
        wrap_fold(ws, max).1.len() <= max,
    decreases ws.len(),
{
    if ws.len() > 0 {
        let prev = ws.drop_last();
        assert forall|k: int| 0 <= k < prev.len() implies (#[trigger] prev[k]).len() > 0 by {
            assert(prev[k] == ws[k]);
        }
        lemma_wrap_fold_fits(prev, max);
        let word = ws.last();
        assert(word.len() > 0);
        if word.len() > max {
            lemma_chunks_fit(word, max);
        }
    }
}

/// Wrapping for a positive width gives non-empty lines no longer than it.
pub proof fn lemma_wrapped_fits(text: Seq<char>, max: int)
    requires
        max > 0,
    ensures
        lines_fit(wrapped(text, max), max),
{
    lemma_words_nonempty(text, 0);
    lemma_wrap_fold_fits(words(text), max);
}

/// Appends to `lines` the chunks that `word` is cut into.
fn push_chunks(lines: &mut Vec<String>, word: &str, max: usize)
    ensures
        texts(final(lines)@) == texts(old(lines)@) + chunks(word@, max as int),
{
    let n = word.unicode_len();
    let ghost start = texts(lines@);
    let mut chunk = String::new();
    let mut chunk_len: usize = 0;
    let mut j: usize = 0;
    while j < n
        invariant
            n == word@.len(),
            j <= n,
            chunk_len == chunk@.len(),
            (texts(lines@).skip(start.len() as int), chunk@) == chunk_scan(word@.take(j as int), max as int),
            texts(lines@).take(start.len() as int) == start,
            texts(lines@).len() >= start.len(),
        decreases n - j,
    {
        proof {
            assert(word@.take(j + 1).drop_last() =~= word@.take(j as int));
            assert(word@.take(j + 1).last() == word@[j as int]);
        }
        if chunk_len >= max {
            let ghost before = texts(lines@);
            lines.push(chunk);
            proof {
                assert(texts(lines@) =~= before.push(chunk@));
                assert(texts(lines@).skip(start.len() as int) =~= before.skip(start.len() as int).push(
                    chunk@,
                ));
                assert(texts(lines@).take(start.len() as int) =~= before.take(start.len() as int));
            }
            chunk = String::new();
            chunk_len = 0;
        }
        let piece = word.substring_char(j, j + 1);
        chunk.append(piece);
        proof {
            assert(piece@ =~= seq![word@[j as int]]);
        }
        chunk_len = chunk_len + 1;
        j = j + 1;
    }
    proof {
        assert(word@.take(n as int) =~= word@);
    }
    if chunk_len > 0 {
        let ghost before = texts(lines@);
        lines.push(chunk);
        proof {
            assert(texts(lines@) =~= before.push(chunk@));
        }
    }
    proof {
        assert(texts(lines@) =~= start + texts(lines@).skip(start.len() as int));
    }
}

/// Adds `word` to the lines being wrapped.
fn wrap_word(lines: &mut Vec<String>, current: &mut String, word: &str, max: usize)
    ensures
        (texts(final(lines)@), final(current)@) == wrap_step(
            (texts(old(lines)@), old(current)@),
            word@,
            max as int,
        ),
{
    let word_len = word.unicode_len();
    let current_len = current.as_str().unicode_len();
    if word_len > max {
        if current_len > 0 {
            let ghost before = texts(lines@);
            let done = current.clone();
            lines.push(done);
            proof {
                assert(texts(lines@) =~= before.push(old(current)@));
            }
        }
        push_chunks(lines, word, max);
        *current = String::new();
        return ;
    }
    let next_len: u128 = if current_len == 0 {
        word_len as u128
    } else {
        current_len as u128 + 1 + word_len as u128
    };
    if next_len > max as u128 && current_len > 0 {
        let ghost before = texts(lines@);
        let done = current.clone();
        lines.push(done);
        proof {
            assert(texts(lines@) =~= before.push(old(current)@));
        }
        *current = String::from_str(word);
    } else if current_len > 0 {
        current.append(" ");
        current.append(word);
        proof {
            reveal_strlit(" ");
        }
    } else {
        *current = String::from_str(word);
    }
}

/// Wraps `text` into lines of at most `max_chars` characters, breaking at
/// white space and cutting longer words into pieces.
pub fn wrap_text(text: &str, max_chars: usize) -> (lines: Vec<String>)
    ensures
        texts(lines@) == wrapped(text@, max_chars as int),
        max_chars > 0 ==> lines_fit(texts(lines@), max_chars as int),
{
    proof {
        if max_chars > 0 {
            lemma_wrapped_fits(text@, max_chars as int);
        }
    }
    let ghost s = text@;
    let n = text.unicode_len();
    let mut lines: Vec<String> = Vec::new();
    let mut current = String::new();
    let ghost mut done: Seq<Seq<char>> = Seq::empty();
    let mut i: usize = 0;
    while i < n
        invariant
            n == s.len(),
            s == text@,
            i <= n,
            words(s) == done + words_from(s, i as int),
            (texts(lines@), current@) == wrap_fold(done, max_chars as int),
        decreases n - i,
    {
        if char_is_space(text.get_char(i)) {
            i = i + 1;
        } else {
            let start = i;
            while i < n && !char_is_space(text.get_char(i))
                invariant
                    n == s.len(),
                    s == text@,
                    start <= i <= n,
                    !is_space(s[start as int]),
                    forall|j: int| start <= j < i ==> !is_space(#[trigger] s[j]),
                decreases n - i,
            {
                i = i + 1;
            }
            proof {
                lemma_word_end(s, start as int);
                assert(word_end(s, start as int) == i) by {
                    if word_end(s, start as int) < i {
                        assert(!is_space(s[word_end(s, start as int)]));
                    }
                    if word_end(s, start as int) > i {
                        assert(is_space(s[i as int]));
                    }
                }
            }
            let word = text.substring_char(start, i);
            let ghost prev = done;
            wrap_word(&mut lines, &mut current, word, max_chars);
            proof {
                done = done.push(word@);
                assert(done.drop_last() =~= prev);
                assert(words(s) =~= done + words_from(s, i as int));
            }
        }
    }
    if current.as_str().unicode_len() > 0 {
        let ghost before = texts(lines@);
        lines.push(current);
        proof {
            assert(texts(lines@) =~= before.push(current@));
        }
    }
    proof {
        assert(done =~= words(s));
    }
    lines
}

} // verus!
