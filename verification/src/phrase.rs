//! The recovery phrase and the account step: which words the check asks
//! back, whether the answers match, a pasted phrase folded for checking,
//! and a failed account creation said plainly.

use vstd::prelude::*;

use crate::text::{
    chars_of, contains_text, eq_ignore_ascii_case, holds_text, joined, lower, lower_of,
    push_all, push_str, same_ignoring_ascii_case, string_of, trim, trimmed, words, words_of,
};

verus! {

/// `rand::seq::index::sample` over the thread's generator: `amount`
/// distinct indices below `length`, in random order. Its source panics
/// when `amount > length`, so that is left out. What comes back is
/// chance: only the count, the range and the distinctness are promised.
#[verifier::external_body]
fn sample_indices(length: usize, amount: usize) -> (picked: Vec<usize>)
    requires
        amount <= length,
    ensures
        picked@.len() == amount,
        forall|k: int| 0 <= k < picked@.len() ==> #[trigger] picked@[k] < length,
        forall|a: int, b: int| 0 <= a < b < picked@.len() ==> picked@[a] != picked@[b],
{
    rand::seq::index::sample(&mut rand::thread_rng(), length, amount).into_vec()
}

/// Three word positions, ascending, below `max(words, 3)`.
pub open spec fn ascending_below(asked: [usize; 3], words: usize) -> bool {
    let bound = if words < 3 { 3 } else { words };
    asked[0] < asked[1] && asked[1] < asked[2] && asked[2] < bound
}

/// Three positions out of `picked`, put in order.
pub fn sorted_three(picked: &Vec<usize>) -> (asked: [usize; 3])
    requires
        picked@.len() == 3,
        picked@[0] != picked@[1],
        picked@[0] != picked@[2],
        picked@[1] != picked@[2],
    ensures
        asked[0] < asked[1] < asked[2],
        forall|k: int| 0 <= k < 3 ==> picked@.contains(#[trigger] asked[k]),
        forall|k: int| 0 <= k < 3 ==> asked@.contains(#[trigger] picked@[k]),
{
    let (a, b, c) = (picked[0], picked[1], picked[2]);
    let (lo, mid, hi) = if a < b {
        if b < c {
            (a, b, c)
        } else if a < c {
            (a, c, b)
        } else {
            (c, a, b)
        }
    } else {
        if a < c {
            (b, a, c)
        } else if b < c {
            (b, c, a)
        } else {
            (c, b, a)
        }
    };
    let asked = [lo, mid, hi];
    proof {
        assert(asked@ =~= seq![lo, mid, hi]);
        assert(picked@[0] == a && picked@[1] == b && picked@[2] == c);
        assert forall|k: int| 0 <= k < 3 implies picked@.contains(#[trigger] asked[k]) by {
            if asked[k] == a { assert(picked@[0] == asked[k]); }
            else if asked[k] == b { assert(picked@[1] == asked[k]); }
            else { assert(picked@[2] == asked[k]); }
        }
        assert forall|k: int| 0 <= k < 3 implies asked@.contains(#[trigger] picked@[k]) by {
            if picked@[k] == lo { assert(asked@[0] == picked@[k]); }
            else if picked@[k] == mid { assert(asked@[1] == picked@[k]); }
            else { assert(asked@[2] == picked@[k]); }
        }
    }
    asked
}

/// Three distinct word positions (0-based, ascending) out of `words` to
/// ask back — the old app's "Words 5, 12 and 20" check. Which three is
/// chance.
pub fn quiz_positions(words: usize) -> (asked: [usize; 3])
    ensures
        ascending_below(asked, words),
{
    let length = if words < 3 { 3 } else { words };
    let picked = sample_indices(length, 3);
    let asked = sorted_three(&picked);
    proof {
        assert(picked@.contains(asked[2]));
    }
    asked
}

/// Each answer is the phrase's word at the position asked, ignoring ASCII
/// case and the answer's surrounding whitespace.
pub open spec fn quiz_passes(phrase: Seq<char>, asked: [usize; 3], answers: Seq<Seq<char>>) -> bool {
    forall|k: int| 0 <= k < 3 ==> {
        &&& (#[trigger] asked[k]) < words_of(phrase).len()
        &&& same_ignoring_ascii_case(words_of(phrase)[asked[k] as int], trimmed(answers[k]))
    }
}

/// Whether each answer is the phrase's word at the position asked,
/// ignoring case and surrounding space.
pub fn quiz_matches(phrase: &str, asked: [usize; 3], answers: &[String; 3]) -> (ok: bool)
    ensures
        ok == quiz_passes(phrase@, asked, seq![answers[0]@, answers[1]@, answers[2]@]),
{
    let w = words(phrase);
    let ghost said = seq![answers[0]@, answers[1]@, answers[2]@];
    for k in 0..3
        invariant
            w@.len() == words_of(phrase@).len(),
            forall|i: int| 0 <= i < w@.len() ==> #[trigger] w@[i]@ == words_of(phrase@)[i],
            said == seq![answers[0]@, answers[1]@, answers[2]@],
            forall|j: int| 0 <= j < k ==> {
                &&& (#[trigger] asked[j]) < words_of(phrase@).len()
                &&& same_ignoring_ascii_case(words_of(phrase@)[asked[j] as int], trimmed(said[j]))
            },
    {
        let nth = asked[k];
        if nth >= w.len() {
            return false;
        }
        let answer = chars_of(answers[k].as_str());
        let answer = trim(&answer);
        proof {
            assert(said[k as int] == answers[k as int]@);
        }
        if !eq_ignore_ascii_case(&w[nth], &answer) {
            return false;
        }
    }
    true
}

/// A pasted phrase folded to what the checker reads: its words, each in
/// lower case, one space between each two.
pub open spec fn normalized(raw: Seq<char>) -> Seq<char> {
    joined(words_of(raw).map_values(|w: Seq<char>| lower_of(w)), " "@)
}

/// Whatever a person pastes for a recovery phrase — any run of whitespace
/// between words, any case — folded to what BIP39 checks.
pub fn normalize_phrase(raw: &str) -> (out: String)
    ensures
        out@ == normalized(raw@),
{
    let w = words(raw);
    let ghost lowered = words_of(raw@).map_values(|w: Seq<char>| lower_of(w));
    let mut out: Vec<char> = Vec::new();
    for i in 0..w.len()
        invariant
            w@.len() == words_of(raw@).len(),
            forall|j: int| 0 <= j < w@.len() ==> #[trigger] w@[j]@ == words_of(raw@)[j],
            lowered == words_of(raw@).map_values(|w: Seq<char>| lower_of(w)),
            out@ == joined(lowered.take(i as int), " "@),
    {
        let word = string_of(&w[i]);
        let low = lower(word.as_str());
        let low_chars = chars_of(low.as_str());
        if i > 0 {
            push_str(&mut out, " ");
        }
        push_all(&mut out, &low_chars);
        proof {
            let next = lowered.take(i + 1);
            assert(next.drop_last() =~= lowered.take(i as int));
            assert(next.last() == lower_of(words_of(raw@)[i as int]));
            if i == 0 {
                assert(out@ =~= joined(next, " "@));
            } else {
                assert(out@ =~= joined(next, " "@));
            }
        }
    }
    assert(lowered.take(w@.len() as int) =~= lowered);
    string_of(&out)
}

/// A failed `Create` in plain words: a node that could not be reached
/// reads as that, not as a transport string; a refusal names the network
/// and says why.
pub open spec fn account_error_text(network: Seq<char>, error: Seq<char>) -> Seq<char> {
    if holds_text(error, "error sending request"@) {
        "Can't reach "@ + network + "'s node right now. Try again in a moment."@
    } else {
        network + " didn't create the account: "@ + error
    }
}

pub fn account_error(network: &str, error: String) -> (out: String)
    ensures
        out@ == account_error_text(network@, error@),
{
    let mut out: Vec<char> = Vec::new();
    if contains_text(error.as_str(), "error sending request") {
        push_str(&mut out, "Can't reach ");
        push_str(&mut out, network);
        push_str(&mut out, "'s node right now. Try again in a moment.");
    } else {
        push_str(&mut out, network);
        push_str(&mut out, " didn't create the account: ");
        push_str(&mut out, error.as_str());
    }
    string_of(&out)
}

/// Whether an answer about the seated key opens the account step: only the
/// first one after a sign-in that armed the offer, and only when the key
/// holds no account on this network.
pub fn offers_account_step(armed: bool, account: &Option<(u64, String)>) -> (offers: bool)
    ensures
        offers == (armed && account is None),
{
    armed && account.is_none()
}

} // verus!
