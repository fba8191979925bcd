//! Text clean-up applied to every Whisper transcript.

use vstd::prelude::*;

verus! {

/// Unicode `White_Space` characters, the set `char::is_whitespace` tests.
pub open spec fn is_white_space(c: char) -> bool {
    let u = c as u32;
    ||| 0x09 <= u <= 0x0D
    ||| u == 0x20
    ||| u == 0x85
    ||| u == 0xA0
    ||| u == 0x1680
    ||| 0x2000 <= u <= 0x200A
    ||| u == 0x2028
    ||| u == 0x2029
    ||| u == 0x202F
    ||| u == 0x205F
    ||| u == 0x3000
}

/// Calls `char::is_whitespace`, documented as the Unicode `White_Space` property.
#[verifier::external_body]
pub(crate) fn char_is_whitespace(c: char) -> (r: bool)
    ensures
        r == is_white_space(c),
{
    c.is_whitespace()
}

/// Reads the input left to right, keeping non-whitespace characters and
/// turning every whitespace run that stands between two of them into one
/// space. The second component says whether such a run is pending.
pub open spec fn squeeze(s: Seq<char>) -> (Seq<char>, bool)
    decreases s.len(),
{
    if s.len() == 0 {
        (seq![], false)
    } else {
        let (out, pending) = squeeze(s.drop_last());
        let c = s.last();
        if is_white_space(c) {
            (out, out.len() > 0)
        } else if pending {
            (out.push(' ').push(c), false)
        } else {
            (out.push(c), false)
        }
    }
}

/// The words of the input, in order, separated by single spaces.
pub open spec fn normalized_transcript(s: Seq<char>) -> Seq<char> {
    squeeze(s).0
}

/// Normalizes whitespace for paste-friendly output.
pub fn normalize_transcript(input: &str) -> (out: String)
    ensures
        out@ == normalized_transcript(input@),
{
    let n = input.unicode_len();
    let mut out = String::new();
    let mut pending = false;
    let mut i: usize = 0;
    while i < n
        invariant
            n == input@.len(),
            i <= n,
            (out@, pending) == squeeze(input@.take(i as int)),
        decreases n - i,
    {
        let c = input.get_char(i);
        assert(input@.take(i + 1).drop_last() == input@.take(i as int));
        assert(input@.take(i + 1).last() == c);
        assert(input@.subrange(i as int, i + 1) =~= seq![c]);
        let ghost prev = out@;
        proof {
            reveal_strlit(" ");
        }
        if char_is_whitespace(c) {
            pending = out.unicode_len() > 0;
        } else {
            if pending {
                out.append(" ");
            }
            out.append(input.substring_char(i, i + 1));
            pending = false;
            assert(out@ =~= (if squeeze(input@.take(i as int)).1 { prev.push(' ').push(c) } else { prev.push(c) }));
        }
        i = i + 1;
    }
    assert(input@.take(n as int) == input@);
    out
}


/// A transcript in paste-friendly form: no whitespace at either end, and
/// every whitespace character is a single space between two words.
pub open spec fn is_clean(t: Seq<char>) -> bool {
    &&& (t.len() > 0 ==> !is_white_space(t[0]) && !is_white_space(t.last()))
    &&& forall|i: int|
        0 <= i < t.len() && #[trigger] is_white_space(t[i]) ==> t[i] == ' ' && 0 < i < t.len() - 1
            && !is_white_space(t[i - 1]) && !is_white_space(t[i + 1])
}

proof fn lemma_squeeze_clean(s: Seq<char>)
    ensures
        is_clean(squeeze(s).0),
        squeeze(s).1 ==> squeeze(s).0.len() > 0,
    decreases s.len(),
{
    if s.len() > 0 {
        lemma_squeeze_clean(s.drop_last());
        let (out, pending) = squeeze(s.drop_last());
        let c = s.last();
        if !is_white_space(c) {
            assert(is_white_space(' '));
            if pending {
                let t = out.push(' ').push(c);
                assert forall|i: int| 0 <= i < t.len() && #[trigger] is_white_space(t[i]) implies t[i]
                    == ' ' && 0 < i < t.len() - 1 && !is_white_space(t[i - 1]) && !is_white_space(
                    t[i + 1],
                ) by {
                    if i < out.len() {
                        assert(t[i] == out[i]);
                        assert(i != out.len() - 1);
                    }
                }
            } else {
                let t = out.push(c);
                assert forall|i: int| 0 <= i < t.len() && #[trigger] is_white_space(t[i]) implies t[i]
                    == ' ' && 0 < i < t.len() - 1 && !is_white_space(t[i - 1]) && !is_white_space(
                    t[i + 1],
                ) by {
                    if i < out.len() {
                        assert(t[i] == out[i]);
                    }
                }
            }
        }
    }
}

proof fn lemma_squeeze_of_clean(t: Seq<char>, k: int)
    requires
        is_clean(t),
        0 <= k <= t.len(),
    ensures
        squeeze(t.take(k)) == if k > 0 && is_white_space(t[k - 1]) {
            (t.take(k - 1), true)
        } else {
            (t.take(k), false)
        },
    decreases k,
{
    if k > 0 {
        lemma_squeeze_of_clean(t, k - 1);
        assert(t.take(k).drop_last() =~= t.take(k - 1));
        assert(t.take(k).last() == t[k - 1]);
        let c = t[k - 1];
        if is_white_space(c) {
            assert(k - 1 > 0 && !is_white_space(t[k - 2]));
        } else if k > 1 && is_white_space(t[k - 2]) {
            assert(t[k - 2] == ' ');
            assert(t.take(k - 2).push(' ').push(c) =~= t.take(k));
        } else {
            assert(t.take(k - 1).push(c) =~= t.take(k));
        }
    }
}

/// Normalized transcripts are clean: trimmed, with single spaces between words.
pub proof fn law_normalized_is_clean(s: Seq<char>)
    ensures
        is_clean(normalized_transcript(s)),
{
    lemma_squeeze_clean(s);
}

/// Normalizing a clean text changes nothing; in particular normalizing twice
/// is the same as normalizing once.
pub proof fn law_normalize_idempotent(s: Seq<char>)
    ensures
        is_clean(s) ==> normalized_transcript(s) == s,
        normalized_transcript(normalized_transcript(s)) == normalized_transcript(s),
{
    if is_clean(s) {
        lemma_squeeze_of_clean(s, s.len() as int);
        assert(s.take(s.len() as int) =~= s);
    }
    lemma_squeeze_clean(s);
    let t = normalized_transcript(s);
    lemma_squeeze_of_clean(t, t.len() as int);
    assert(t.take(t.len() as int) =~= t);
}


/// The non-whitespace characters of a text, in order.
pub open spec fn non_white(s: Seq<char>) -> Seq<char>
    decreases s.len(),
{
    if s.len() == 0 {
        seq![]
    } else if is_white_space(s.last()) {
        non_white(s.drop_last())
    } else {
        non_white(s.drop_last()).push(s.last())
    }
}

/// Normalization only touches whitespace: the other characters all stay, in
/// their order.
pub proof fn law_normalize_keeps_text(s: Seq<char>)
    ensures
        non_white(normalized_transcript(s)) == non_white(s),
    decreases s.len(),
{
    if s.len() > 0 {
        law_normalize_keeps_text(s.drop_last());
        let (out, pending) = squeeze(s.drop_last());
        let c = s.last();
        if !is_white_space(c) {
            assert(is_white_space(' '));
            if pending {
                assert(out.push(' ').push(c).drop_last() == out.push(' '));
                assert(out.push(' ').drop_last() == out);
                assert(non_white(out.push(' ')) == non_white(out));
                assert(non_white(out.push(' ').push(c)) == non_white(out.push(' ')).push(c));
            } else {
                assert(out.push(c).drop_last() == out);
                assert(non_white(out.push(c)) == non_white(out).push(c));
            }
        }
    }
}

/// Adds the word read so far, unless there is none.
pub open spec fn keep_word(done: Seq<Seq<char>>, cur: Seq<char>) -> Seq<Seq<char>> {
    if cur.len() == 0 {
        done
    } else {
        done.push(cur)
    }
}

/// Reads a text left to right, splitting it at whitespace: the words
/// completed so far, and the one being read.
pub open spec fn scan_words(s: Seq<char>) -> (Seq<Seq<char>>, Seq<char>)
    decreases s.len(),
{
    if s.len() == 0 {
        (seq![], seq![])
    } else {
        let prev = scan_words(s.drop_last());
        if is_white_space(s.last()) {
            (keep_word(prev.0, prev.1), seq![])
        } else {
            (prev.0, prev.1.push(s.last()))
        }
    }
}

/// The words of a text: its maximal runs of non-whitespace characters, in order.
pub open spec fn words(s: Seq<char>) -> Seq<Seq<char>> {
    keep_word(scan_words(s).0, scan_words(s).1)
}

/// Words joined by single spaces.
pub open spec fn join_words(ws: Seq<Seq<char>>) -> Seq<char>
    decreases ws.len(),
{
    if ws.len() == 0 {
        seq![]
    } else if ws.len() == 1 {
        ws[0]
    } else {
        join_words(ws.drop_last()) + seq![' '] + ws.last()
    }
}

/// Joining one more word.
proof fn lemma_join_push(ws: Seq<Seq<char>>, w: Seq<char>)
    ensures
        join_words(ws.push(w)) == if ws.len() == 0 { w } else { join_words(ws) + seq![' '] + w },
{
    assert(ws.push(w).drop_last() =~= ws);
}

/// Words that are all non-empty join to a non-empty text when there is one.
proof fn lemma_join_nonempty(ws: Seq<Seq<char>>)
    requires
        forall|i: int| 0 <= i < ws.len() ==> (#[trigger] ws[i]).len() > 0,
    ensures
        (join_words(ws).len() > 0) == (ws.len() > 0),
{
    if ws.len() > 1 {
        assert(ws.last().len() > 0);
    }
}

/// How the normalizing scan and the word scan advance together.
proof fn lemma_squeeze_words(s: Seq<char>)
    ensures
        forall|i: int| 0 <= i < scan_words(s).0.len() ==> (#[trigger] scan_words(s).0[i]).len() > 0,
        scan_words(s).1.len() > 0 ==> squeeze(s) == (join_words(scan_words(s).0.push(scan_words(s).1)), false),
        scan_words(s).1.len() == 0 ==> squeeze(s) == (join_words(scan_words(s).0), scan_words(s).0.len() > 0),
    decreases s.len(),
{
    if s.len() > 0 {
        let t = s.drop_last();
        lemma_squeeze_words(t);
        let (done, cur) = scan_words(t);
        let (out, pending) = squeeze(t);
        let c = s.last();
        lemma_join_nonempty(done);
        if is_white_space(c) {
            if cur.len() > 0 {
                let d2 = done.push(cur);
                assert forall|i: int| 0 <= i < d2.len() implies (#[trigger] d2[i]).len() > 0 by {
                    if i < done.len() {
                        assert(d2[i] == done[i]);
                    }
                }
                lemma_join_nonempty(d2);
            }
        } else {
            lemma_join_push(done, cur);
            lemma_join_push(done, cur.push(c));
            if cur.len() > 0 {
                if done.len() == 0 {
                    assert(out.push(c) == cur.push(c));
                } else {
                    assert((join_words(done) + seq![' '] + cur).push(c) =~= join_words(done) + seq![' ']
                        + cur.push(c));
                }
            } else {
                assert(cur.push(c) =~= seq![c]);
                if pending {
                    assert(out.push(' ').push(c) =~= join_words(done) + seq![' '] + seq![c]);
                } else {
                    assert(done.len() == 0);
                    assert(out == Seq::<char>::empty());
                    assert(out.push(c) =~= seq![c]);
                }
            }
        }
    }
}

/// A normalized transcript is the input's words (its maximal runs of
/// non-whitespace characters) joined by single spaces: two words that any
/// whitespace run separates stay separate, by exactly one space.
pub proof fn law_normalized_is_words_joined(s: Seq<char>)
    ensures
        normalized_transcript(s) == join_words(words(s)),
{
    lemma_squeeze_words(s);
}

} // verus!
