//! The fuzzy resolver: decides whether a typed token is close enough to one
//! of the declared script names to substitute it.
//!
//! Each candidate is compared to the typed token under six subsequence
//! scoring strategies (raw and separator-stripped lowercase forms, in both
//! directions, plus the two cross forms).  Whenever the fuzzy strategies are
//! still weak for the scan so far, a Levenshtein edit-distance fallback may
//! propose the candidate instead, under a conservative double condition:
//! similarity above three quarters and raw distance at most three.  A single
//! acceptance threshold at the end decides whether the best candidate of the
//! whole scan is returned at all.

use vstd::prelude::*;
use vstd::arithmetic::div_mod::lemma_div_is_ordered;
use vstd::arithmetic::div_mod::lemma_div_multiples_vanish;

use crate::strutil::push_char;
use crate::strutil::to_chars;

verus! {

/// A character that survives normalization: anything but the word
/// separators `-` and `_`.
pub open spec fn is_plain(c: char) -> bool {
    c != '-' && c != '_'
}

/// `s` with the word separators `-` and `_` removed.
pub open spec fn strip_seps(s: Seq<char>) -> Seq<char>
    decreases s.len(),
{
    if s.len() == 0 {
        Seq::empty()
    } else if is_plain(s.last()) {
        strip_seps(s.drop_last()).push(s.last())
    } else {
        strip_seps(s.drop_last())
    }
}

/// What `str::to_lowercase` returns: a fixed function of the characters
/// alone, left uninterpreted here.
pub uninterp spec fn lower_of(s: Seq<char>) -> Seq<char>;

/// The normalized form of a token: separators stripped, then lowercased.
pub open spec fn normal_of(s: Seq<char>) -> Seq<char> {
    lower_of(strip_seps(s))
}

/// What `SkimMatcherV2::fuzzy_match` returns for a choice and a pattern: a
/// fixed function of the two character sequences alone, left uninterpreted
/// here.  `None` means the two strings share no plausible alignment.
pub uninterp spec fn skim_score(choice: Seq<char>, pattern: Seq<char>) -> Option<i64>;

/// Relies on `str::to_lowercase`: the result depends on the characters of
/// `s` alone.
#[verifier::external_body]
fn lowercase(s: &str) -> (r: String)
    ensures
        r@ == lower_of(s@),
{
    s.to_lowercase()
}

/// Relies on `fuzzy_matcher::skim::SkimMatcherV2` under its default
/// configuration: `fuzzy_match(choice, pattern)` is a deterministic score
/// of the two strings' characters alone (the matcher's thread-local caches
/// are scratch space, not state that the score depends on).
#[verifier::external_body]
fn skim_match(choice: &str, pattern: &str) -> (r: Option<i64>)
    ensures
        r == skim_score(choice@, pattern@),
{
    let matcher = fuzzy_matcher::skim::SkimMatcherV2::default();
    fuzzy_matcher::FuzzyMatcher::fuzzy_match(&matcher, choice, pattern)
}

/// `s` with separators stripped, as a string.
fn strip_separators(s: &str) -> (r: String)
    ensures
        r@ == strip_seps(s@),
{
    let cs = to_chars(s);
    let mut out = String::new();
    let mut i: usize = 0;
    while i < cs.len()
        invariant
            i <= cs.len(),
            cs@ == s@,
            out@ == strip_seps(s@.take(i as int)),
        decreases cs.len() - i,
    {
        let c = cs[i];
        proof {
            assert(s@.take(i as int + 1).drop_last() =~= s@.take(i as int));
            assert(s@.take(i as int + 1).last() == s@[i as int]);
        }
        if c != '-' && c != '_' {
            push_char(&mut out, c);
        }
        i = i + 1;
    }
    proof {
        assert(s@.take(cs@.len() as int) =~= s@);
    }
    out
}

/// The normalized form of a token: separators stripped, then lowercased.
pub fn normalize(s: &str) -> (r: String)
    ensures
        r@ == normal_of(s@),
{
    let stripped = strip_separators(s);
    lowercase(stripped.as_str())
}

/// The Levenshtein edit distance between two character sequences: the least
/// number of single-character insertions, deletions and substitutions that
/// turns one into the other.
pub open spec fn lev(a: Seq<char>, b: Seq<char>) -> nat
    decreases a.len() + b.len(),
{
    if a.len() == 0 {
        b.len()
    } else if b.len() == 0 {
        a.len()
    } else {
        let del = lev(a.drop_last(), b) + 1;
        let ins = lev(a, b.drop_last()) + 1;
        let sub = lev(a.drop_last(), b.drop_last()) + if a.last() == b.last() {
            0nat
        } else {
            1nat
        };
        if del <= ins && del <= sub {
            del
        } else if ins <= sub {
            ins
        } else {
            sub
        }
    }
}

/// The longer of the two sequences' lengths.
pub open spec fn max_len(a: Seq<char>, b: Seq<char>) -> nat {
    if a.len() >= b.len() {
        a.len()
    } else {
        b.len()
    }
}

/// The edit distance never exceeds the longer length: one can always turn
/// `a` into `b` by substituting into a prefix and inserting or deleting the
/// rest.
pub proof fn lemma_lev_le_max(a: Seq<char>, b: Seq<char>)
    ensures
        lev(a, b) <= max_len(a, b),
    decreases a.len() + b.len(),
{
    if a.len() == 0 || b.len() == 0 {
    } else {
        lemma_lev_le_max(a.drop_last(), b.drop_last());
    }
}

/// The Levenshtein edit distance between the characters of `s1` and `s2`,
/// by the usual dynamic program over prefixes.  The length bounds only rule
/// out strings at the very edge of the address space, where the row
/// arithmetic could not be carried out.
pub fn levenshtein_distance(s1: &str, s2: &str) -> (r: usize)
    requires
        s1@.len() < usize::MAX,
        s2@.len() < usize::MAX,
    ensures
        r == lev(s1@, s2@),
{
    let a = to_chars(s1);
    let b = to_chars(s2);
    let len1 = a.len();
    let len2 = b.len();

    // Row 0: distances from the empty prefix of `s1`.
    let mut prev: Vec<usize> = Vec::new();
    let mut j: usize = 0;
    while j <= len2
        invariant
            j <= len2 + 1,
            len2 == b@.len(),
            len2 < usize::MAX,
            a@ == s1@,
            b@ == s2@,
            prev@.len() == j,
            forall|k: int| 0 <= k < j ==> prev@[k] == lev(a@.take(0), b@.take(k)),
        decreases len2 + 1 - j,
    {
        prev.push(j);
        proof {
            assert(a@.take(0) =~= Seq::<char>::empty());
            assert(b@.take(j as int).len() == j);
        }
        j = j + 1;
    }

    let mut i: usize = 1;
    while i <= len1
        invariant
            1 <= i <= len1 + 1,
            len1 == a@.len(),
            len2 == b@.len(),
            len1 < usize::MAX,
            len2 < usize::MAX,
            a@ == s1@,
            b@ == s2@,
            prev@.len() == len2 + 1,
            forall|k: int| 0 <= k <= len2 ==> prev@[k] == lev(a@.take(i as int - 1), b@.take(k)),
        decreases len1 + 1 - i,
    {
        let mut cur: Vec<usize> = Vec::new();
        cur.push(i);
        proof {
            assert(b@.take(0) =~= Seq::<char>::empty());
            assert(a@.take(i as int).len() == i);
        }
        let mut j: usize = 1;
        while j <= len2
            invariant
                1 <= j <= len2 + 1,
                1 <= i <= len1,
                len1 == a@.len(),
                len2 == b@.len(),
                len1 < usize::MAX,
                len2 < usize::MAX,
                a@ == s1@,
                b@ == s2@,
                prev@.len() == len2 + 1,
                forall|k: int| 0 <= k <= len2 ==> prev@[k] == lev(
                    a@.take(i as int - 1),
                    b@.take(k),
                ),
                cur@.len() == j,
                forall|k: int| 0 <= k < j ==> cur@[k] == lev(a@.take(i as int), b@.take(k)),
            decreases len2 + 1 - j,
        {
            let cost: usize = if a[i - 1] == b[j - 1] {
                0
            } else {
                1
            };
            proof {
                lemma_lev_le_max(a@.take(i as int - 1), b@.take(j as int));
                lemma_lev_le_max(a@.take(i as int), b@.take(j as int - 1));
                lemma_lev_le_max(a@.take(i as int - 1), b@.take(j as int - 1));
            }
            let del: usize = prev[j] + 1;
            let ins: usize = cur[j - 1] + 1;
            let sub: usize = prev[j - 1] + cost;
            let mut best: usize = del;
            if ins < best {
                best = ins;
            }
            if sub < best {
                best = sub;
            }
            proof {
                assert(a@.take(i as int).drop_last() =~= a@.take(i as int - 1));
                assert(b@.take(j as int).drop_last() =~= b@.take(j as int - 1));
                assert(a@.take(i as int).last() == a@[i as int - 1]);
                assert(b@.take(j as int).last() == b@[j as int - 1]);
                assert(best == lev(a@.take(i as int), b@.take(j as int)));
            }
            cur.push(best);
            j = j + 1;
        }
        prev = cur;
        i = i + 1;
    }
    proof {
        assert(a@.take(len1 as int) =~= a@);
        assert(b@.take(len2 as int) =~= b@);
    }
    prev[len2]
}

/// `cur` raised by a strategy score, if the strategy aligned the strings at
/// all and beat the running score.
pub open spec fn raise(cur: i64, sc: Option<i64>) -> i64 {
    match sc {
        Some(v) => if v > cur {
            v
        } else {
            cur
        },
        None => cur,
    }
}

/// The running score after trying all six fuzzy strategies of one candidate
/// against the typed token, in order.
pub open spec fn fuzzy_best(cur: i64, cmd: Seq<char>, input: Seq<char>) -> i64 {
    let c1 = raise(cur, skim_score(cmd, input));
    let c2 = raise(c1, skim_score(input, cmd));
    let c3 = raise(c2, skim_score(normal_of(cmd), normal_of(input)));
    let c4 = raise(c3, skim_score(normal_of(input), normal_of(cmd)));
    let c5 = raise(c4, skim_score(normal_of(input), cmd));
    raise(c5, skim_score(input, normal_of(cmd)))
}

/// The scan state after the six fuzzy strategies of one candidate: the
/// candidate takes over as best match exactly when one of its strategy
/// scores beat everything seen before.
pub open spec fn fuzzy_step(st: (Option<Seq<char>>, i64), cmd: Seq<char>, input: Seq<char>) -> (
    Option<Seq<char>>,
    i64,
) {
    let fs = fuzzy_best(st.1, cmd, input);
    if fs > st.1 {
        (Some(cmd), fs)
    } else {
        st
    }
}

/// The edit-distance fallback score of one candidate: the percentage of the
/// longer normalized length that is not edit distance, rounded down.
pub open spec fn edit_score(a: Seq<char>, b: Seq<char>) -> int {
    100 * (max_len(a, b) - lev(a, b)) / (max_len(a, b) as int)
}

/// The scan state after the edit-distance fallback of one candidate.  The
/// candidate takes over only under the conservative double condition:
/// similarity strictly above three quarters and edit distance at most
/// three, and only if its score beats the running best.  The `usize::MAX`
/// bounds mirror the machine limit of the distance computation; they
/// exclude only strings at the very edge of the address space.
pub open spec fn fallback_step(st: (Option<Seq<char>>, i64), cmd: Seq<char>, input: Seq<char>) -> (
    Option<Seq<char>>,
    i64,
) {
    let a = normal_of(input);
    let b = normal_of(cmd);
    let ml = max_len(a, b) as int;
    let d = lev(a, b) as int;
    if ml > 0 && a.len() < usize::MAX && b.len() < usize::MAX {
        let es = edit_score(a, b) as i64;
        if es > st.1 && 100 * (ml - d) > 75 * ml && d <= 3 {
            (Some(cmd), es)
        } else {
            st
        }
    } else {
        st
    }
}

/// The scan state after considering one candidate: the six fuzzy
/// strategies, then — only while the scan's running result is still weak —
/// the edit-distance fallback.
pub open spec fn step_spec(st: (Option<Seq<char>>, i64), cmd: Seq<char>, input: Seq<char>) -> (
    Option<Seq<char>>,
    i64,
) {
    let st1 = fuzzy_step(st, cmd, input);
    if st1.0 is None || st1.1 < 50 {
        fallback_step(st1, cmd, input)
    } else {
        st1
    }
}

/// The scan state after considering every candidate in order.
pub open spec fn scan_spec(
    cmds: Seq<Seq<char>>,
    input: Seq<char>,
    st: (Option<Seq<char>>, i64),
) -> (Option<Seq<char>>, i64)
    decreases cmds.len(),
{
    if cmds.len() == 0 {
        st
    } else {
        scan_spec(cmds.drop_first(), input, step_spec(st, cmds[0], input))
    }
}

/// The result of the whole scan: the best candidate and its score, if the
/// best score clears the global acceptance threshold of 60.
pub open spec fn find_similar_spec(input: Seq<char>, cmds: Seq<Seq<char>>) -> Option<
    (Seq<char>, i64),
> {
    let st = scan_spec(cmds, input, (None::<Seq<char>>, 0i64));
    match st.0 {
        Some(c) => if st.1 > 60 {
            Some((c, st.1))
        } else {
            None
        },
        None => None,
    }
}

proof fn lemma_scan_match_source(
    cmds: Seq<Seq<char>>,
    input: Seq<char>,
    st: (Option<Seq<char>>, i64),
)
    ensures
        ({
            let r = scan_spec(cmds, input, st);
            r.0 is Some ==> r.0 == st.0 || cmds.contains(r.0->0)
        }),
    decreases cmds.len(),
{
    if cmds.len() > 0 {
        let st1 = step_spec(st, cmds[0], input);
        lemma_scan_match_source(cmds.drop_first(), input, st1);
        let r = scan_spec(cmds, input, st);
        if r.0 is Some && r.0 != st.0 {
            if r.0 == st1.0 {
                assert(cmds.contains(cmds[0]));
            } else {
                let k = choose|k: int|
                    0 <= k < cmds.drop_first().len() && cmds.drop_first()[k] == r.0->0;
                assert(cmds[k + 1] == r.0->0);
            }
        }
    }
}

/// The resolver never invents a name: whatever it returns is one of the
/// declared candidates.
pub proof fn lemma_resolver_returns_member(input: Seq<char>, cmds: Seq<Seq<char>>)
    ensures
        find_similar_spec(input, cmds) matches Some(p) ==> cmds.contains(p.0),
{
    lemma_scan_match_source(cmds, input, (None::<Seq<char>>, 0i64));
}

/// The view of the running best match.
pub open spec fn match_view(m: Option<String>) -> Option<Seq<char>> {
    match m {
        Some(s) => Some(s@),
        None => None,
    }
}

/// Scan every available command and return the one most similar to
/// `input`, with its score, if the best score of the scan clears the
/// acceptance threshold.
pub fn find_similar_command(input: &str, available_commands: &Vec<String>) -> (r: Option<
    (String, i64),
>)
    ensures
        match r {
            Some(p) => find_similar_spec(input@, available_commands.deep_view()) == Some(
                (p.0@, p.1),
            ),
            None => find_similar_spec(input@, available_commands.deep_view()) is None,
        },
{
    let ghost cmds = available_commands.deep_view();
    let ghost init = (None::<Seq<char>>, 0i64);
    let norm_input = normalize(input);
    let n1 = to_chars(norm_input.as_str()).len();
    let mut best_match: Option<String> = None;
    let mut best_score: i64 = 0;
    let mut i: usize = 0;
    proof {
        assert(cmds.skip(0) =~= cmds);
    }
    while i < available_commands.len()
        invariant
            i <= available_commands.len(),
            cmds == available_commands.deep_view(),
            cmds.len() == available_commands.len(),
            forall|j: int| 0 <= j < cmds.len() ==> cmds[j] == available_commands@[j]@,
            norm_input@ == normal_of(input@),
            n1 == normal_of(input@).len(),
            init == (None::<Seq<char>>, 0i64),
            scan_spec(cmds, input@, init) == scan_spec(
                cmds.skip(i as int),
                input@,
                (match_view(best_match), best_score),
            ),
        decreases available_commands.len() - i,
    {
        let ghost st0 = (match_view(best_match), best_score);
        let command = &available_commands[i];
        let norm_cmd = normalize(command.as_str());

        let s1 = skim_match(command.as_str(), input);
        if let Some(v) = s1 {
            if v > best_score {
                best_score = v;
                best_match = Some(command.clone());
            }
        }
        let s2 = skim_match(input, command.as_str());
        if let Some(v) = s2 {
            if v > best_score {
                best_score = v;
                best_match = Some(command.clone());
            }
        }
        let s3 = skim_match(norm_cmd.as_str(), norm_input.as_str());
        if let Some(v) = s3 {
            if v > best_score {
                best_score = v;
                best_match = Some(command.clone());
            }
        }
        let s4 = skim_match(norm_input.as_str(), norm_cmd.as_str());
        if let Some(v) = s4 {
            if v > best_score {
                best_score = v;
                best_match = Some(command.clone());
            }
        }
        let s5 = skim_match(norm_input.as_str(), command.as_str());
        if let Some(v) = s5 {
            if v > best_score {
                best_score = v;
                best_match = Some(command.clone());
            }
        }
        let s6 = skim_match(input, norm_cmd.as_str());
        if let Some(v) = s6 {
            if v > best_score {
                best_score = v;
                best_match = Some(command.clone());
            }
        }
        proof {
            assert((match_view(best_match), best_score) == fuzzy_step(st0, cmds[i as int], input@));
        }

        if best_match.is_none() || best_score < 50 {
            let ghost st1 = (match_view(best_match), best_score);
            let n2 = to_chars(norm_cmd.as_str()).len();
            let ml = if n1 >= n2 {
                n1
            } else {
                n2
            };
            if ml > 0 && n1 < usize::MAX && n2 < usize::MAX {
                let d = levenshtein_distance(norm_input.as_str(), norm_cmd.as_str());
                proof {
                    lemma_lev_le_max(norm_input@, norm_cmd@);
                }
                let mlu: u128 = ml as u128;
                let du: u128 = d as u128;
                let es_wide: u128 = 100 * (mlu - du) / mlu;
                proof {
                    lemma_div_is_ordered(
                        100 * (mlu - du) as int,
                        (mlu as int) * 100,
                        mlu as int,
                    );
                    lemma_div_multiples_vanish(100, mlu as int);
                }
                let es: i64 = es_wide as i64;
                if es > best_score && 100 * (mlu - du) > 75 * mlu && d <= 3 {
                    best_score = es;
                    best_match = Some(command.clone());
                }
                proof {
                    assert((match_view(best_match), best_score) == fallback_step(
                        st1,
                        cmds[i as int],
                        input@,
                    ));
                }
            } else {
                proof {
                    assert((match_view(best_match), best_score) == fallback_step(
                        st1,
                        cmds[i as int],
                        input@,
                    ));
                }
            }
        }
        proof {
            assert((match_view(best_match), best_score) == step_spec(st0, cmds[i as int], input@));
            assert(cmds.skip(i as int)[0] == cmds[i as int]);
            assert(cmds.skip(i as int).drop_first() =~= cmds.skip(i as int + 1));
        }
        i = i + 1;
    }
    proof {
        assert(cmds.skip(cmds.len() as int).len() == 0);
    }
    if best_score > 60 {
        match best_match {
            Some(m) => Some((m, best_score)),
            None => None,
        }
    } else {
        None
    }
}

} // verus!
