//! Recovering the names of required fields from the text of a rejected
//! validate-only write.
//!
//! Two patterns are applied to the text: a qualified reference in
//! parentheses, `(Some.Field)`, kept only when it holds a dot; and the
//! phrase `Field 'Name' is required`. Their results are joined, the
//! parenthesised ones first, and repeats are dropped so that each name stays
//! where it was first seen.

use vstd::prelude::*;

verus! {

/// A qualified reference enclosed in parentheses.
pub const PAREN_REF_PATTERN: &'static str = "\\(([A-Za-z0-9_.]+)\\)";

/// The phrase `field '<name>' is required`, with either case of the `f`.
pub const FIELD_PHRASE_PATTERN: &'static str = "[Ff]ield\\s+'([^']+)'\\s+is\\s+required";

/// What the `regex` crate finds for `pattern` in `text`: `None` when the
/// pattern does not compile, otherwise, for each successive non-overlapping
/// match, the text of capture group 1 (`None` where that group took no part
/// in the match).
pub uninterp spec fn regex_group_one(pattern: Seq<char>, text: Seq<char>) -> Option<Seq<Option<Seq<char>>>>;

/// The views of a sequence of strings.
pub open spec fn views(v: Seq<String>) -> Seq<Seq<char>> {
    v.map_values(|s: String| s@)
}

/// The views of a sequence of optional strings.
pub open spec fn opt_views(v: Seq<Option<String>>) -> Seq<Option<Seq<char>>> {
    v.map_values(|o: Option<String>| match o {
        Some(s) => Some(s@),
        None => None,
    })
}

/// Relies on `regex::Regex::new` to compile `pattern` and on
/// `Regex::captures_iter` with `Captures::get(1)` for the text of capture
/// group 1 in each successive match.
#[verifier::external_body]
fn group_one_matches(pattern: &str, text: &str) -> (r: Option<Vec<Option<String>>>)
    ensures
        match r {
            Some(v) => regex_group_one(pattern@, text@) == Some(opt_views(v@)),
            None => regex_group_one(pattern@, text@) is None,
        },
{
    regex::Regex::new(pattern).ok().map(
        |re: regex::Regex|
            re.captures_iter(text).map(|c| c.get(1).map(|m| m.as_str().to_string())).collect(),
    )
}

/// The captures that are present, in order.
pub open spec fn present(xs: Seq<Option<Seq<char>>>) -> Seq<Seq<char>>
    decreases xs.len(),
{
    if xs.len() == 0 {
        Seq::empty()
    } else {
        let p = present(xs.drop_last());
        match xs.last() {
            Some(c) => p.push(c),
            None => p,
        }
    }
}

/// The names that hold a dot, in order.
pub open spec fn dotted(xs: Seq<Seq<char>>) -> Seq<Seq<char>>
    decreases xs.len(),
{
    if xs.len() == 0 {
        Seq::empty()
    } else {
        let p = dotted(xs.drop_last());
        if xs.last().contains('.') {
            p.push(xs.last())
        } else {
            p
        }
    }
}

/// `xs` with every repeat dropped, each name kept where it first occurs.
pub open spec fn first_seen(xs: Seq<Seq<char>>) -> Seq<Seq<char>>
    decreases xs.len(),
{
    if xs.len() == 0 {
        Seq::empty()
    } else {
        let p = first_seen(xs.drop_last());
        if p.contains(xs.last()) {
            p
        } else {
            p.push(xs.last())
        }
    }
}

/// The required field names read from the two patterns' captures.
pub open spec fn required_field_names(
    paren: Seq<Option<Seq<char>>>,
    phrase: Seq<Option<Seq<char>>>,
) -> Seq<Seq<char>> {
    first_seen(dotted(present(paren)) + present(phrase))
}

/// The captures of a pattern, none where it did not compile.
pub open spec fn captures_or_none(found: Option<Seq<Option<Seq<char>>>>) -> Seq<Option<Seq<char>>> {
    match found {
        Some(c) => c,
        None => Seq::empty(),
    }
}

/// The required field names that an error text names.
pub open spec fn names_in_message(message: Seq<char>) -> Seq<Seq<char>> {
    required_field_names(
        captures_or_none(regex_group_one(PAREN_REF_PATTERN@, message)),
        captures_or_none(regex_group_one(FIELD_PHRASE_PATTERN@, message)),
    )
}

fn has_dot(s: &str) -> (r: bool)
    ensures
        r == s@.contains('.'),
{
    let n = s.unicode_len();
    let mut i: usize = 0;
    while i < n
        invariant
            n == s@.len(),
            i <= n,
            forall|j: int| 0 <= j < i ==> s@[j] != '.',
        decreases n - i,
    {
        if s.get_char(i) == '.' {
            return true;
        }
        i = i + 1;
    }
    false
}

fn holds_name(names: &Vec<String>, name: &String) -> (r: bool)
    ensures
        r == views(names@).contains(name@),
{
    let mut i: usize = 0;
    while i < names.len()
        invariant
            i <= names.len(),
            forall|j: int| 0 <= j < i ==> names[j]@ != name@,
        decreases names.len() - i,
    {
        if names[i] == *name {
            proof {
                assert(views(names@)[i as int] == name@);
            }
            return true;
        }
        i = i + 1;
    }
    proof {
        if views(names@).contains(name@) {
            let k = choose|k: int| 0 <= k < views(names@).len() && views(names@)[k] == name@;
            assert(names[k]@ == name@);
        }
    }
    false
}

/// Appends the present captures of `caps` to `out`, keeping only those that
/// hold a dot when `dots_only` is set.
fn append_present(out: &mut Vec<String>, caps: &Vec<Option<String>>, dots_only: bool)
    ensures
        views(final(out)@) == views(old(out)@) + (if dots_only {
            dotted(present(opt_views(caps@)))
        } else {
            present(opt_views(caps@))
        }),
{
    let ghost start = views(out@);
    let mut i: usize = 0;
    while i < caps.len()
        invariant
            i <= caps.len(),
            views(out@) == start + (if dots_only {
                dotted(present(opt_views(caps@).take(i as int)))
            } else {
                present(opt_views(caps@).take(i as int))
            }),
        decreases caps.len() - i,
    {
        let ghost before = opt_views(caps@).take(i as int);
        proof {
            assert(opt_views(caps@).take(i + 1).drop_last() =~= before);
        }
        let ghost out_before = out@;
        match &caps[i] {
            Some(c) => {
                let keep = if dots_only {
                    has_dot(c.as_str())
                } else {
                    true
                };
                if keep {
                    out.push(c.clone());
                }
                proof {
                    let p = present(opt_views(caps@).take(i + 1));
                    assert(p =~= present(before).push(c@));
                    assert(p.drop_last() =~= present(before));
                    assert(p.last() == c@);
                    assert(dotted(p) == (if p.last().contains('.') {
                        dotted(p.drop_last()).push(p.last())
                    } else {
                        dotted(p.drop_last())
                    }));
                    if keep {
                        assert(views(out@) =~= views(out_before).push(c@));
                    } else {
                        assert(out@ == out_before);
                    }
                    assert(views(out@) =~= start + (if dots_only {
                        dotted(p)
                    } else {
                        p
                    }));
                }
            },
            None => {
                proof {
                    assert(present(opt_views(caps@).take(i + 1)) =~= present(before));
                }
            },
        }
        i = i + 1;
    }
    proof {
        assert(opt_views(caps@).take(caps.len() as int) =~= opt_views(caps@));
    }
}

/// Drops repeats from `names`, keeping each where it first occurs.
fn dedup_first_seen(names: &Vec<String>) -> (r: Vec<String>)
    ensures
        views(r@) == first_seen(views(names@)),
{
    let mut out: Vec<String> = Vec::new();
    let mut i: usize = 0;
    while i < names.len()
        invariant
            i <= names.len(),
            views(out@) == first_seen(views(names@).take(i as int)),
        decreases names.len() - i,
    {
        proof {
            assert(views(names@).take(i + 1).drop_last() =~= views(names@).take(i as int));
            assert(views(names@).take(i + 1).last() == names[i as int]@);
        }
        if !holds_name(&out, &names[i]) {
            out.push(names[i].clone());
            proof {
                assert(views(out@) =~= first_seen(views(names@).take(i as int)).push(
                    names[i as int]@,
                ));
            }
        }
        i = i + 1;
    }
    proof {
        assert(views(names@).take(names.len() as int) =~= views(names@));
    }
    out
}

/// Joins the captures of the parenthesised-reference pattern (`paren`) and
/// of the required-phrase pattern (`phrase`): the parenthesised ones that
/// hold a dot first, then the phrase ones, each name once, where it was
/// first seen.
pub fn merge_required_field_names(paren: &Vec<Option<String>>, phrase: &Vec<Option<String>>) -> (r: Vec<String>)
    ensures
        views(r@) == required_field_names(opt_views(paren@), opt_views(phrase@)),
{
    let mut all: Vec<String> = Vec::new();
    append_present(&mut all, paren, true);
    append_present(&mut all, phrase, false);
    proof {
        assert(views(all@) =~= dotted(present(opt_views(paren@))) + present(opt_views(phrase@)));
    }
    dedup_first_seen(&all)
}

/// The names of the fields that an error text says are required.
pub fn parse_required_fields_from_validation_error(error_message: &str) -> (r: Vec<String>)
    ensures
        views(r@) == names_in_message(error_message@),
{
    let paren = match group_one_matches(PAREN_REF_PATTERN, error_message) {
        Some(c) => c,
        None => Vec::new(),
    };
    let phrase = match group_one_matches(FIELD_PHRASE_PATTERN, error_message) {
        Some(c) => c,
        None => Vec::new(),
    };
    proof {
        assert(opt_views(Seq::<Option<String>>::empty()) =~= Seq::empty());
    }
    merge_required_field_names(&paren, &phrase)
}

/// Dropping repeats keeps every name of the input, and each only once.
pub proof fn lemma_first_seen_dedups(xs: Seq<Seq<char>>)
    ensures
        first_seen(xs).no_duplicates(),
        forall|x: Seq<char>| first_seen(xs).contains(x) <==> xs.contains(x),
    decreases xs.len(),
{
    if xs.len() > 0 {
        let init = xs.drop_last();
        lemma_first_seen_dedups(init);
        let p = first_seen(init);
        assert forall|x: Seq<char>| first_seen(xs).contains(x) <==> xs.contains(x) by {
            if init.contains(x) {
                let k = choose|k: int| 0 <= k < init.len() && init[k] == x;
                assert(xs[k] == x);
            }
            if xs.contains(x) && x != xs.last() {
                let k = choose|k: int| 0 <= k < xs.len() && xs[k] == x;
                assert(k < xs.len() - 1);
                assert(init[k] == x);
            }
            if !p.contains(xs.last()) {
                assert(p.push(xs.last()).last() == xs.last());
                if p.contains(x) {
                    let k = choose|k: int| 0 <= k < p.len() && p[k] == x;
                    assert(p.push(xs.last())[k] == x);
                }
                if p.push(xs.last()).contains(x) && x != xs.last() {
                    let k = choose|k: int| 0 <= k < p.len() + 1 && p.push(xs.last())[k] == x;
                    assert(p[k] == x);
                }
            }
            assert(xs.last() == xs[xs.len() - 1]);
        }
        if !p.contains(xs.last()) {
            let q = p.push(xs.last());
            assert forall|i: int, j: int| 0 <= i < q.len() && 0 <= j < q.len() && i != j implies q[i]
                != q[j] by {
                if i < p.len() && j < p.len() {
                    assert(q[i] == p[i] && q[j] == p[j]);
                } else if i < p.len() {
                    assert(q[i] == p[i]);
                } else {
                    assert(q[j] == p[j]);
                }
            }
        }
    }
}

/// The names recovered from an error text are exactly those that either
/// pattern finds (a parenthesised reference holding a dot, or a name in the
/// required phrase), each once.
pub proof fn lemma_names_are_deduplicated_union(
    paren: Seq<Option<Seq<char>>>,
    phrase: Seq<Option<Seq<char>>>,
)
    ensures
        required_field_names(paren, phrase).no_duplicates(),
        forall|x: Seq<char>|
            required_field_names(paren, phrase).contains(x) <==> (dotted(present(paren)).contains(x)
                || present(phrase).contains(x)),
{
    let a = dotted(present(paren));
    let b = present(phrase);
    lemma_first_seen_dedups(a + b);
    assert forall|x: Seq<char>| (a + b).contains(x) <==> (a.contains(x) || b.contains(x)) by {
        if a.contains(x) {
            let k = choose|k: int| 0 <= k < a.len() && a[k] == x;
            assert((a + b)[k] == x);
        }
        if b.contains(x) {
            let k = choose|k: int| 0 <= k < b.len() && b[k] == x;
            assert((a + b)[a.len() + k] == x);
        }
        if (a + b).contains(x) {
            let k = choose|k: int| 0 <= k < (a + b).len() && (a + b)[k] == x;
            if k < a.len() {
                assert(a[k] == x);
            } else {
                assert(b[k - a.len()] == x);
            }
        }
    }
}

} // verus!
