//! The pure half of font discovery: parsing the font-listing tool's
//! output into a clean, sorted list of family names.
//!
//! The raw text carries one or more family names per line, separated
//! by commas.  Each name is trimmed; empty entries, hidden families
//! (leading `.`), comment-like entries (leading `#`) and one-character
//! entries are dropped; duplicates are kept once; and the survivors
//! are ordered by their case-folded form.  Running the listing tool
//! itself stays outside.

use vstd::prelude::*;
use crate::text::str_eq;

verus! {

/// The characters that separate family names in the tool's output:
/// line breaks and commas.
pub open spec fn is_delim(c: char) -> bool {
    c == '\n' || c == ','
}

/// The whitespace stripped from each side of a family name.
pub open spec fn is_space(c: char) -> bool {
    c == ' ' || c == '\t' || c == '\r'
}

/// A name with its leading whitespace stripped.
pub open spec fn trim_front(s: Seq<char>) -> Seq<char>
    decreases s.len(),
{
    if s.len() > 0 && is_space(s[0]) {
        trim_front(s.drop_first())
    } else {
        s
    }
}

/// A name with its trailing whitespace stripped.
pub open spec fn trim_back(s: Seq<char>) -> Seq<char>
    decreases s.len(),
{
    if s.len() > 0 && is_space(s.last()) {
        trim_back(s.drop_last())
    } else {
        s
    }
}

/// A name with the whitespace stripped from both sides.
pub open spec fn trimmed(s: Seq<char>) -> Seq<char> {
    trim_back(trim_front(s))
}

/// Which trimmed entries are kept: more than one character, and
/// neither hidden (leading `.`) nor comment-like (leading `#`).
pub open spec fn keep_font(t: Seq<char>) -> bool {
    t.len() > 1 && t[0] != '.' && t[0] != '#'
}

/// `[a, b)` spans exactly one delimiter-separated piece of `s`.
pub open spec fn piece_at(s: Seq<char>, a: int, b: int) -> bool {
    &&& 0 <= a <= b <= s.len()
    &&& (a == 0 || is_delim(s[a - 1]))
    &&& (b == s.len() || is_delim(s[b]))
    &&& forall|k: int| a <= k < b ==> !is_delim(s[k])
}

/// The names the parsed list must consist of: the trimmed,
/// keep-worthy pieces of the raw text.
pub open spec fn font_candidate(s: Seq<char>, t: Seq<char>) -> bool {
    exists|a: int, b: int|
        #[trigger] piece_at(s, a, b) && t == trimmed(s.subrange(a, b)) && keep_font(t)
}

/// As `font_candidate`, but only over pieces that end before `upto`.
pub open spec fn candidate_before(s: Seq<char>, t: Seq<char>, upto: int) -> bool {
    exists|a: int, b: int|
        #[trigger] piece_at(s, a, b) && b < upto && t == trimmed(s.subrange(a, b)) && keep_font(t)
}

/// Whether some entry of the list reads `t`.
pub open spec fn in_list(v: Seq<String>, t: Seq<char>) -> bool {
    exists|k: int| 0 <= k < v.len() && v[k]@ == t
}

/// Whether `t` reads some entry among the first `upto` of a list.
pub open spec fn candidate_prefix(v: Seq<String>, t: Seq<char>, upto: int) -> bool {
    exists|k: int| 0 <= k < upto && k < v.len() && v[k]@ == t
}

/// A character with any upper-case basic-Latin letter folded to lower
/// case; the ordering key of the final list.
pub open spec fn fold_char(c: char) -> char {
    if 'A' <= c <= 'Z' {
        ((c as u32 + 32) as char)
    } else {
        c
    }
}

/// A name case-folded for ordering.
pub open spec fn folded(s: Seq<char>) -> Seq<char> {
    s.map_values(|c: char| fold_char(c))
}

/// Lexicographic order on names by character code.
pub open spec fn lex_leq(a: Seq<char>, b: Seq<char>) -> bool
    decreases a.len(),
{
    if a.len() == 0 {
        true
    } else if b.len() == 0 {
        false
    } else if (a[0] as u32) != (b[0] as u32) {
        (a[0] as u32) < (b[0] as u32)
    } else {
        lex_leq(a.drop_first(), b.drop_first())
    }
}

/// The order is total: of two names, one precedes the other.
pub proof fn lemma_lex_total(a: Seq<char>, b: Seq<char>)
    ensures
        lex_leq(a, b) || lex_leq(b, a),
    decreases a.len(),
{
    if a.len() > 0 && b.len() > 0 && (a[0] as u32) == (b[0] as u32) {
        lemma_lex_total(a.drop_first(), b.drop_first());
    }
}

fn is_delim_char(c: char) -> (r: bool)
    ensures
        r == is_delim(c),
{
    c == '\n' || c == ','
}

fn is_space_char(c: char) -> (r: bool)
    ensures
        r == is_space(c),
{
    c == ' ' || c == '\t' || c == '\r'
}

/// Strips whitespace from both sides of a name.
fn trim_spaces(s: &str) -> (r: String)
    ensures
        r@ == trimmed(s@),
{
    let n = s.unicode_len();
    proof {
        assert(s@.subrange(0, n as int) =~= s@);
    }
    let mut a: usize = 0;
    while a < n && is_space_char(s.get_char(a))
        invariant
            n == s@.len(),
            a <= n,
            trim_front(s@) == trim_front(s@.subrange(a as int, n as int)),
        decreases n - a,
    {
        proof {
            assert(s@.subrange(a as int, n as int).drop_first() =~= s@.subrange(
                a + 1,
                n as int,
            ));
        }
        a = a + 1;
    }
    proof {
        assert(trim_front(s@) =~= s@.subrange(a as int, n as int));
    }
    let mut b: usize = n;
    while b > a && is_space_char(s.get_char(b - 1))
        invariant
            n == s@.len(),
            a <= b <= n,
            trim_front(s@) == s@.subrange(a as int, n as int),
            trim_back(s@.subrange(a as int, n as int)) == trim_back(
                s@.subrange(a as int, b as int),
            ),
        decreases b,
    {
        proof {
            assert(s@.subrange(a as int, b as int).drop_last() =~= s@.subrange(
                a as int,
                b - 1,
            ));
        }
        b = b - 1;
    }
    proof {
        assert(trim_back(s@.subrange(a as int, b as int)) =~= s@.subrange(a as int, b as int));
    }
    String::from_str(s.substring_char(a, b))
}

/// Whether a trimmed entry is kept.
fn keep_check(t: &str) -> (r: bool)
    ensures
        r == keep_font(t@),
{
    let n = t.unicode_len();
    if n <= 1 {
        return false;
    }
    let first = t.get_char(0);
    first != '.' && first != '#'
}

fn contains_string(v: &Vec<String>, t: &str) -> (r: bool)
    ensures
        r == in_list(v@, t@),
{
    let n = v.len();
    let mut k: usize = 0;
    while k < n
        invariant
            n == v@.len(),
            k <= n,
            forall|j: int| 0 <= j < k ==> v@[j]@ != t@,
        decreases n - k,
    {
        if str_eq(v[k].as_str(), t) {
            return true;
        }
        k = k + 1;
    }
    false
}

/// Compares the suffixes of two names starting at `i`.
fn lex_leq_from(a: &str, b: &str, i: usize) -> (r: bool)
    requires
        i <= a@.len(),
        i <= b@.len(),
    ensures
        r == lex_leq(a@.skip(i as int), b@.skip(i as int)),
    decreases a@.len() - i,
{
    if i == a.unicode_len() {
        return true;
    }
    if i == b.unicode_len() {
        proof {
            assert(b@.skip(i as int).len() == 0);
            assert(a@.skip(i as int).len() > 0);
        }
        return false;
    }
    let ca = a.get_char(i);
    let cb = b.get_char(i);
    if (ca as u32) != (cb as u32) {
        (ca as u32) < (cb as u32)
    } else {
        proof {
            assert(a@.skip(i as int).drop_first() =~= a@.skip(i + 1));
            assert(b@.skip(i as int).drop_first() =~= b@.skip(i + 1));
        }
        lex_leq_from(a, b, i + 1)
    }
}

/// Case-folds a name to its ordering key.
fn fold_name(s: &str) -> (r: String)
    ensures
        r@ == folded(s@),
{
    let n = s.unicode_len();
    let mut out = String::new();
    let mut i: usize = 0;
    while i < n
        invariant
            n == s@.len(),
            i <= n,
            out@ == folded(s@.subrange(0, i as int)),
        decreases n - i,
    {
        let c = s.get_char(i);
        if 'A' <= c && c <= 'Z' {
            let lower = match c {
                'A' => "a",
                'B' => "b",
                'C' => "c",
                'D' => "d",
                'E' => "e",
                'F' => "f",
                'G' => "g",
                'H' => "h",
                'I' => "i",
                'J' => "j",
                'K' => "k",
                'L' => "l",
                'M' => "m",
                'N' => "n",
                'O' => "o",
                'P' => "p",
                'Q' => "q",
                'R' => "r",
                'S' => "s",
                'T' => "t",
                'U' => "u",
                'V' => "v",
                'W' => "w",
                'X' => "x",
                'Y' => "y",
                _ => "z",
            };
            out.append(lower);
            proof {
                reveal_strlit("a");
                reveal_strlit("b");
                reveal_strlit("c");
                reveal_strlit("d");
                reveal_strlit("e");
                reveal_strlit("f");
                reveal_strlit("g");
                reveal_strlit("h");
                reveal_strlit("i");
                reveal_strlit("j");
                reveal_strlit("k");
                reveal_strlit("l");
                reveal_strlit("m");
                reveal_strlit("n");
                reveal_strlit("o");
                reveal_strlit("p");
                reveal_strlit("q");
                reveal_strlit("r");
                reveal_strlit("s");
                reveal_strlit("t");
                reveal_strlit("u");
                reveal_strlit("v");
                reveal_strlit("w");
                reveal_strlit("x");
                reveal_strlit("y");
                reveal_strlit("z");
                assert(lower@ =~= seq![fold_char(c)]);
            }
        } else {
            let piece = s.substring_char(i, i + 1);
            out.append(piece);
            proof {
                assert(piece@ =~= seq![s@[i as int]]);
                assert(seq![s@[i as int]] =~= seq![fold_char(c)]);
            }
        }
        proof {
            assert(out@ =~= folded(s@.subrange(0, i + 1)));
        }
        i = i + 1;
    }
    proof {
        assert(s@.subrange(0, n as int) =~= s@);
    }
    out
}

/// Whether `a` precedes `b` in the final list: by case-folded name.
fn font_leq(a: &str, b: &str) -> (r: bool)
    ensures
        r == lex_leq(folded(a@), folded(b@)),
{
    let fa = fold_name(a);
    let fb = fold_name(b);
    proof {
        assert(fa@.skip(0) =~= fa@);
        assert(fb@.skip(0) =~= fb@);
    }
    lex_leq_from(fa.as_str(), fb.as_str(), 0)
}

fn handle_piece(text: &str, a: usize, b: usize, acc: &mut Vec<String>)
    requires
        a <= b <= text@.len(),
        piece_at(text@, a as int, b as int),
        forall|k: int| 0 <= k < old(acc)@.len() ==> font_candidate(text@, old(acc)@[k]@),
        forall|k1: int, k2: int|
            0 <= k1 < k2 < old(acc)@.len() ==> old(acc)@[k1]@ != old(acc)@[k2]@,
    ensures
        forall|k: int| 0 <= k < final(acc)@.len() ==> font_candidate(text@, final(acc)@[k]@),
        forall|k1: int, k2: int|
            0 <= k1 < k2 < final(acc)@.len() ==> final(acc)@[k1]@ != final(acc)@[k2]@,
        forall|u: Seq<char>|
            in_list(final(acc)@, u) <==> (in_list(old(acc)@, u) || (keep_font(
                trimmed(text@.subrange(a as int, b as int)),
            ) && u == trimmed(text@.subrange(a as int, b as int)))),
{
    let piece = text.substring_char(a, b);
    let t = trim_spaces(piece);
    if keep_check(t.as_str()) && !contains_string(acc, t.as_str()) {
        let ghost t_view = t@;
        acc.push(t);
        proof {
            assert(piece_at(text@, a as int, b as int) && t_view == trimmed(
                text@.subrange(a as int, b as int),
            ) && keep_font(t_view));
            assert(font_candidate(text@, t_view));
            assert forall|u: Seq<char>| in_list(acc@, u) implies (in_list(old(acc)@, u) || u
                == t_view) by {
                let k = choose|k: int| 0 <= k < acc@.len() && acc@[k]@ == u;
                if k < acc@.len() - 1 {
                    assert(in_list(old(acc)@, u));
                }
            }
            assert forall|u: Seq<char>| in_list(old(acc)@, u) implies in_list(acc@, u) by {
                let k = choose|k: int| 0 <= k < old(acc)@.len() && old(acc)@[k]@ == u;
                assert(acc@[k]@ == u);
            }
            assert(in_list(acc@, t_view)) by {
                assert(acc@[acc@.len() - 1]@ == t_view);
            }
        }
    } else {
        proof {
            if keep_font(trimmed(text@.subrange(a as int, b as int))) {
                assert(in_list(acc@, trimmed(text@.subrange(a as int, b as int))));
            }
        }
    }
}

fn collect_fonts(text: &str) -> (r: Vec<String>)
    ensures
        forall|k: int| 0 <= k < r@.len() ==> font_candidate(text@, r@[k]@),
        forall|t: Seq<char>| font_candidate(text@, t) ==> in_list(r@, t),
        forall|k1: int, k2: int| 0 <= k1 < k2 < r@.len() ==> r@[k1]@ != r@[k2]@,
{
    let n = text.unicode_len();
    let mut acc: Vec<String> = Vec::new();
    let mut ps: usize = 0;
    let mut i: usize = 0;
    while i < n
        invariant
            n == text@.len(),
            ps <= i <= n,
            ps == 0 || is_delim(text@[ps - 1]),
            forall|k: int| ps <= k < i ==> !is_delim(text@[k]),
            forall|k: int| 0 <= k < acc@.len() ==> font_candidate(text@, acc@[k]@),
            forall|k1: int, k2: int| 0 <= k1 < k2 < acc@.len() ==> acc@[k1]@ != acc@[k2]@,
            forall|t: Seq<char>| candidate_before(text@, t, i as int) ==> in_list(acc@, t),
        decreases n - i,
    {
        let c = text.get_char(i);
        if is_delim_char(c) {
            proof {
                assert(piece_at(text@, ps as int, i as int));
            }
            handle_piece(text, ps, i, &mut acc);
            proof {
                assert forall|t: Seq<char>| candidate_before(text@, t, i + 1) implies in_list(
                    acc@,
                    t,
                ) by {
                    let (pa, pb) = choose|pa: int, pb: int|
                        #[trigger] piece_at(text@, pa, pb) && pb < i + 1 && t == trimmed(
                            text@.subrange(pa, pb),
                        ) && keep_font(t);
                    if pb < i {
                        assert(candidate_before(text@, t, i as int));
                    } else {
                        assert(pb == i);
                        assert(pa == ps) by {
                            if pa < ps {
                                assert(is_delim(text@[ps - 1]));
                                assert(pa <= ps - 1 < pb);
                            }
                            if pa > ps {
                                assert(!is_delim(text@[pa - 1]));
                            }
                        }
                    }
                }
            }
            ps = i + 1;
        } else {
            proof {
                assert forall|t: Seq<char>| candidate_before(text@, t, i + 1) implies in_list(
                    acc@,
                    t,
                ) by {
                    let (pa, pb) = choose|pa: int, pb: int|
                        #[trigger] piece_at(text@, pa, pb) && pb < i + 1 && t == trimmed(
                            text@.subrange(pa, pb),
                        ) && keep_font(t);
                    assert(pb != i);
                    assert(candidate_before(text@, t, i as int));
                }
            }
        }
        i = i + 1;
    }
    proof {
        assert(piece_at(text@, ps as int, n as int));
    }
    handle_piece(text, ps, n, &mut acc);
    proof {
        assert forall|t: Seq<char>| font_candidate(text@, t) implies in_list(acc@, t) by {
            let (pa, pb) = choose|pa: int, pb: int|
                #[trigger] piece_at(text@, pa, pb) && t == trimmed(text@.subrange(pa, pb))
                    && keep_font(t);
            if pb < n {
                assert(candidate_before(text@, t, n as int));
            } else {
                assert(pa == ps) by {
                    if pa < ps {
                        assert(is_delim(text@[ps - 1]));
                        assert(pa <= ps - 1 < pb);
                    }
                    if pa > ps {
                        assert(!is_delim(text@[pa - 1]));
                    }
                }
            }
        }
    }
    acc
}

fn find_insert_pos(out: &Vec<String>, x: &str) -> (j: usize)
    ensures
        j <= out@.len(),
        forall|k: int| 0 <= k < j ==> #[trigger] lex_leq(folded(out@[k]@), folded(x@)),
        j < out@.len() ==> !lex_leq(folded(out@[j as int]@), folded(x@)),
{
    let n = out.len();
    let mut j: usize = 0;
    while j < n
        invariant
            n == out@.len(),
            j <= n,
            forall|k: int| 0 <= k < j ==> #[trigger] lex_leq(folded(out@[k]@), folded(x@)),
        decreases n - j,
    {
        if !font_leq(out[j].as_str(), x) {
            return j;
        }
        j = j + 1;
    }
    j
}

fn sort_fonts(list: Vec<String>) -> (r: Vec<String>)
    requires
        forall|k1: int, k2: int| 0 <= k1 < k2 < list@.len() ==> list@[k1]@ != list@[k2]@,
    ensures
        r@.len() == list@.len(),
        forall|t: Seq<char>| in_list(r@, t) <==> in_list(list@, t),
        forall|k1: int, k2: int| 0 <= k1 < k2 < r@.len() ==> r@[k1]@ != r@[k2]@,
        forall|k: int| 0 <= k < r@.len() - 1 ==> #[trigger] lex_leq(folded(r@[k]@), folded(r@[k + 1]@)),
{
    let n = list.len();
    let mut out: Vec<String> = Vec::new();
    for i in 0..n
        invariant
            n == list@.len(),
            out@.len() == i,
            forall|k1: int, k2: int| 0 <= k1 < k2 < list@.len() ==> list@[k1]@ != list@[k2]@,
            forall|t: Seq<char>| in_list(out@, t) <==> candidate_prefix(list@, t, i as int),
            forall|k1: int, k2: int| 0 <= k1 < k2 < out@.len() ==> out@[k1]@ != out@[k2]@,
            forall|k: int|
                0 <= k < out@.len() - 1 ==> #[trigger] lex_leq(folded(out@[k]@), folded(out@[k + 1]@)),
    {
        let x = list[i].clone();
        let j = find_insert_pos(&out, x.as_str());
        proof {
            if j < out@.len() {
                lemma_lex_total(folded(out@[j as int]@), folded(x@));
            }
        }
        let ghost pre = out@;
        out.insert(j, x);
        proof {
            assert forall|t: Seq<char>| in_list(out@, t) implies (in_list(pre, t) || t
                == list@[i as int]@) by {
                let k = choose|k: int| 0 <= k < out@.len() && out@[k]@ == t;
                if k < j {
                    assert(pre[k]@ == t);
                } else if k > j {
                    assert(pre[k - 1]@ == t);
                }
            }
            assert forall|t: Seq<char>| in_list(pre, t) implies in_list(out@, t) by {
                let k = choose|k: int| 0 <= k < pre.len() && pre[k]@ == t;
                if k < j {
                    assert(out@[k]@ == t);
                } else {
                    assert(out@[k + 1]@ == t);
                }
            }
            assert(out@[j as int]@ == list@[i as int]@);
            assert(!in_list(pre, x@)) by {
                if in_list(pre, x@) {
                    let k = choose|k: int|
                        0 <= k < i && k < list@.len() && list@[k]@ == x@;
                    assert(list@[k]@ == list@[i as int]@);
                }
            }
            assert forall|k1: int, k2: int| 0 <= k1 < k2 < out@.len() implies out@[k1]@
                != out@[k2]@ by {
                if k1 == j {
                    assert(out@[k2]@ == pre[k2 - 1]@);
                    if out@[k2]@ == x@ {
                        assert(pre[k2 - 1]@ == x@);
                        assert(in_list(pre, x@));
                    }
                } else if k2 == j {
                    assert(out@[k1]@ == pre[k1]@);
                    if out@[k1]@ == x@ {
                        assert(in_list(pre, x@));
                    }
                } else {
                    let p1: int = if k1 < j { k1 } else { k1 - 1 };
                    let p2: int = if k2 < j { k2 } else { k2 - 1 };
                    assert(out@[k1]@ == pre[p1]@);
                    assert(out@[k2]@ == pre[p2]@);
                }
            }
            assert forall|t: Seq<char>| in_list(out@, t) implies candidate_prefix(
                list@,
                t,
                i + 1,
            ) by {
                if in_list(pre, t) {
                    let k = choose|k: int| 0 <= k < i && k < list@.len() && list@[k]@ == t;
                    assert(0 <= k < i + 1 && k < list@.len() && list@[k]@ == t);
                } else {
                    assert(t == list@[i as int]@);
                    assert(0 <= i < i + 1 && i < list@.len() && list@[i as int]@ == t);
                }
            }
            assert forall|t: Seq<char>| candidate_prefix(list@, t, i + 1) implies in_list(
                out@,
                t,
            ) by {
                let k = choose|k: int| 0 <= k < i + 1 && k < list@.len() && list@[k]@ == t;
                if k < i {
                    assert(candidate_prefix(list@, t, i as int));
                    assert(in_list(pre, t));
                } else {
                    assert(t == x@);
                    assert(out@[j as int]@ == t);
                }
            }
            assert forall|k: int| 0 <= k < out@.len() - 1 implies #[trigger] lex_leq(
                folded(out@[k]@),
                folded(out@[k + 1]@),
            ) by {
                if k + 1 < j {
                    assert(out@[k]@ == pre[k]@);
                    assert(out@[k + 1]@ == pre[k + 1]@);
                    assert(lex_leq(folded(pre[k]@), folded(pre[k + 1]@)));
                } else if k + 1 == j {
                    assert(out@[k]@ == pre[k]@);
                    assert(lex_leq(folded(pre[k]@), folded(x@)));
                } else if k == j {
                    assert(out@[k + 1]@ == pre[k]@);
                    assert(lex_leq(folded(x@), folded(pre[k]@)));
                } else {
                    let m = k - 1;
                    assert(out@[k]@ == pre[m]@);
                    assert(out@[k + 1]@ == pre[m + 1]@);
                    assert(lex_leq(folded(pre[m]@), folded(pre[m + 1]@)));
                }
            }
        }
    }
    out
}

/// Parses the font-listing tool's captured output into the sorted,
/// de-duplicated list of family names: exactly the trimmed,
/// keep-worthy comma- or line-separated entries of the text, each
/// once, ordered by case-folded name.
pub fn list_system_fonts(text: &str) -> (r: Vec<String>)
    ensures
        forall|k: int| 0 <= k < r@.len() ==> font_candidate(text@, r@[k]@),
        forall|t: Seq<char>| font_candidate(text@, t) ==> in_list(r@, t),
        forall|k1: int, k2: int| 0 <= k1 < k2 < r@.len() ==> r@[k1]@ != r@[k2]@,
        forall|k: int| 0 <= k < r@.len() - 1 ==> #[trigger] lex_leq(folded(r@[k]@), folded(r@[k + 1]@)),
{
    let collected = collect_fonts(text);
    let ghost collected_view = collected@;
    let sorted_list = sort_fonts(collected);
    proof {
        assert forall|k: int| 0 <= k < sorted_list@.len() implies font_candidate(
            text@,
            sorted_list@[k]@,
        ) by {
            assert(in_list(sorted_list@, sorted_list@[k]@));
            let t = sorted_list@[k]@;
            let k2 = choose|k2: int| 0 <= k2 < collected_view.len() && collected_view[k2]@ == t;
            assert(font_candidate(text@, collected_view[k2]@));
        }
    }
    sorted_list
}

} // verus!
