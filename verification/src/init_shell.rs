//! Helpers of the small interactive init shell: splitting a command line
//! into words, and deciding when child reaping is done.
//!
//! The shell reads a line, splits it on whitespace into the words handed to
//! exec, and reaps terminated children from its signal handler until the
//! kernel reports that none remain.

use vstd::prelude::*;
use crate::flags::words_view;

verus! {

/// ASCII whitespace: space, tab, line feed, vertical tab, form feed,
/// carriage return.
pub open spec fn is_space(b: u8) -> bool {
    b == 32 || (9 <= b && b <= 13)
}

/// Whether `b` is ASCII whitespace.
pub fn is_space_byte(b: u8) -> (r: bool)
    ensures
        r == is_space(b),
{
    b == 32 || (9 <= b && b <= 13)
}

/// The words of `s` from position `i` on, given the word `cur` read so far
/// and the words `acc` already complete: whitespace ends the current word,
/// a non-space byte extends it, and the end of the input flushes it.
pub open spec fn spec_split(s: Seq<u8>, i: int, cur: Seq<u8>, acc: Seq<Seq<u8>>) -> Seq<Seq<u8>>
    decreases s.len() - i,
{
    if i < 0 || i >= s.len() {
        if cur.len() == 0 {
            acc
        } else {
            acc.push(cur)
        }
    } else if is_space(s[i]) {
        if cur.len() == 0 {
            spec_split(s, i + 1, cur, acc)
        } else {
            spec_split(s, i + 1, Seq::empty(), acc.push(cur))
        }
    } else {
        spec_split(s, i + 1, cur.push(s[i]), acc)
    }
}

/// The whitespace-separated words of `s`.
pub open spec fn spec_words_of(s: Seq<u8>) -> Seq<Seq<u8>> {
    spec_split(s, 0, Seq::empty(), Seq::empty())
}

/// A word as the splitter produces it: non-empty and free of whitespace.
pub open spec fn good_word(w: Seq<u8>) -> bool {
    w.len() > 0 && forall|j: int| 0 <= j < w.len() ==> !is_space(w[j])
}

proof fn lemma_push_good(acc: Seq<Seq<u8>>, cur: Seq<u8>)
    requires
        forall|k: int| 0 <= k < acc.len() ==> good_word(#[trigger] acc[k]),
        good_word(cur),
    ensures
        forall|k: int| 0 <= k < acc.push(cur).len() ==> good_word(#[trigger] acc.push(cur)[k]),
{
    assert forall|k: int| 0 <= k < acc.push(cur).len() implies good_word(
        #[trigger] acc.push(cur)[k],
    ) by {
        if k < acc.len() {
            assert(acc.push(cur)[k] == acc[k]);
        } else {
            assert(acc.push(cur)[k] == cur);
        }
    }
}

proof fn lemma_split_words_good(s: Seq<u8>, i: int, cur: Seq<u8>, acc: Seq<Seq<u8>>)
    requires
        forall|j: int| 0 <= j < cur.len() ==> !is_space(cur[j]),
        forall|k: int| 0 <= k < acc.len() ==> good_word(#[trigger] acc[k]),
    ensures
        forall|k: int|
            0 <= k < spec_split(s, i, cur, acc).len() ==> good_word(
                #[trigger] spec_split(s, i, cur, acc)[k],
            ),
    decreases s.len() - i,
{
    if i < 0 || i >= s.len() {
        if cur.len() == 0 {
            assert(spec_split(s, i, cur, acc) == acc);
        } else {
            lemma_push_good(acc, cur);
            assert(spec_split(s, i, cur, acc) == acc.push(cur));
        }
    } else if is_space(s[i]) {
        if cur.len() == 0 {
            lemma_split_words_good(s, i + 1, cur, acc);
            assert(spec_split(s, i, cur, acc) == spec_split(s, i + 1, cur, acc));
        } else {
            lemma_push_good(acc, cur);
            lemma_split_words_good(s, i + 1, Seq::empty(), acc.push(cur));
            assert(spec_split(s, i, cur, acc) == spec_split(s, i + 1, Seq::empty(), acc.push(cur)));
        }
    } else {
        assert forall|j: int| 0 <= j < cur.push(s[i]).len() implies !is_space(
            cur.push(s[i])[j],
        ) by {
            if j < cur.len() {
                assert(cur.push(s[i])[j] == cur[j]);
            } else {
                assert(cur.push(s[i])[j] == s[i]);
            }
        }
        lemma_split_words_good(s, i + 1, cur.push(s[i]), acc);
        assert(spec_split(s, i, cur, acc) == spec_split(s, i + 1, cur.push(s[i]), acc));
    }
}

/// Every word of a split command line is non-empty and holds no
/// whitespace.
pub proof fn lemma_words_are_clean(s: Seq<u8>)
    ensures
        forall|k: int|
            0 <= k < spec_words_of(s).len() ==> good_word(#[trigger] spec_words_of(s)[k]),
{
    lemma_split_words_good(s, 0, Seq::empty(), Seq::empty());
}

/// Split a command line into its whitespace-separated words: `None` when
/// the line is empty (no command was given), the words otherwise.
pub fn expand_words(input: &Vec<u8>) -> (r: Option<Vec<Vec<u8>>>)
    ensures
        r is None <==> input@.len() == 0,
        r matches Some(ws) ==> words_view(ws@) == spec_words_of(input@),
{
    if input.len() == 0 {
        return None;
    }
    let mut acc: Vec<Vec<u8>> = Vec::new();
    let mut cur: Vec<u8> = Vec::new();
    let mut i: usize = 0;
    proof {
        assert(words_view(acc@) =~~= Seq::<Seq<u8>>::empty());
        assert(cur@ =~= Seq::<u8>::empty());
    }
    while i < input.len()
        invariant
            i <= input.len(),
            spec_split(input@, i as int, cur@, words_view(acc@)) == spec_words_of(input@),
        decreases input.len() - i,
    {
        let b = input[i];
        if is_space_byte(b) {
            if cur.len() > 0 {
                let ghost prev_acc = acc@;
                let ghost prev_cur = cur@;
                acc.push(cur);
                cur = Vec::new();
                proof {
                    assert(words_view(acc@) =~~= words_view(prev_acc).push(prev_cur));
                    assert(cur@ =~= Seq::<u8>::empty());
                }
            }
        } else {
            cur.push(b);
        }
        i += 1;
    }
    if cur.len() > 0 {
        let ghost prev_acc = acc@;
        let ghost prev_cur = cur@;
        acc.push(cur);
        proof {
            assert(words_view(acc@) =~~= words_view(prev_acc).push(prev_cur));
        }
    }
    Some(acc)
}

/// What one reaping attempt from the signal handler observed.
#[derive(Clone, Copy, Debug, PartialEq, Eq, Structural)]
pub enum WaitOutcome {
    /// No children are left to wait for: reaping is done.
    NoChildren,
    /// Waiting itself failed for another reason.
    WaitError,
    /// A child terminated.
    ChildExited(u32),
    /// A child was stopped.
    ChildStopped(u32),
    /// Some other status change.
    OtherChange,
}

/// Whether the signal handler keeps reaping after an outcome.
#[derive(Clone, Copy, Debug, PartialEq, Eq, Structural)]
pub enum ReapStep {
    /// Try to reap another child.
    Continue,
    /// No children remain: leave the handler.
    Stop,
}

/// Reaping stops exactly when no children remain; every other outcome,
/// errors included, is noted and reaping goes on, so that no terminated
/// child is left behind.
pub open spec fn spec_reap_step(o: WaitOutcome) -> ReapStep {
    match o {
        WaitOutcome::NoChildren => ReapStep::Stop,
        _ => ReapStep::Continue,
    }
}

/// Decide whether the signal handler keeps reaping after `o`.
pub fn reap_step(o: &WaitOutcome) -> (r: ReapStep)
    ensures
        r == spec_reap_step(*o),
{
    match o {
        WaitOutcome::NoChildren => ReapStep::Stop,
        _ => ReapStep::Continue,
    }
}

} // verus!
