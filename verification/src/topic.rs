//! Hierarchical topic patterns with `.`-separated segments.
//!
//! Wildcards: `+` matches exactly one segment, `#` matches one or more trailing
//! segments and may only stand last, and the legacy `*` behaves like `+`.

use crate::strmap::StrMap;
use crate::text::{lemma_split_nonempty, chars_eq, chars_eq_str, chars_of, split_dot, split_on_dot, str_eq, str_in_list, views};
use vstd::prelude::*;

verus! {

/// The one-segment wildcard.
pub open spec fn is_single_wild(seg: Seq<char>) -> bool {
    seg == seq!['+'] || seg == seq!['*']
}

/// The multi-segment wildcard.
pub open spec fn is_multi_wild(seg: Seq<char>) -> bool {
    seg == seq!['#']
}

/// Whether the topic segments `t` match the pattern segments `p`.
pub open spec fn segs_match(t: Seq<Seq<char>>, p: Seq<Seq<char>>) -> bool
    decreases p.len(),
{
    if p.len() == 0 {
        t.len() == 0
    } else if t.len() == 0 {
        false
    } else if is_multi_wild(p[0]) {
        p.len() == 1
    } else if is_single_wild(p[0]) {
        segs_match(t.drop_first(), p.drop_first())
    } else {
        p[0] == t[0] && segs_match(t.drop_first(), p.drop_first())
    }
}

/// Whether `topic` matches `pattern`; without wildcards only the identical string matches.
pub open spec fn topic_matches(topic: Seq<char>, pattern: Seq<char>, enable_wildcards: bool) -> bool {
    if !enable_wildcards {
        topic == pattern
    } else {
        segs_match(split_dot(topic), split_dot(pattern))
    }
}

/// A segment list with no wildcard segment.
pub open spec fn no_wildcards(p: Seq<Seq<char>>) -> bool {
    forall|i: int| 0 <= i < p.len() ==> !is_single_wild(#[trigger] p[i]) && !is_multi_wild(p[i])
}

fn is_single_char(seg: &Vec<char>, c: char) -> (r: bool)
    ensures
        r == (seg@ == seq![c]),
{
    if seg.len() == 1 && seg[0] == c {
        assert(seg@ =~= seq![c]);
        true
    } else {
        false
    }
}

fn segs_match_from(t: &Vec<Vec<char>>, p: &Vec<Vec<char>>, ti: usize, pi: usize) -> (r: bool)
    requires
        ti <= t@.len(),
        pi <= p@.len(),
    ensures
        r == segs_match(views(t@).skip(ti as int), views(p@).skip(pi as int)),
    decreases p@.len() - pi,
{
    let ghost tv = views(t@).skip(ti as int);
    let ghost pv = views(p@).skip(pi as int);
    if pi == p.len() {
        return ti == t.len();
    }
    if ti == t.len() {
        return false;
    }
    assert(pv[0] == p@[pi as int]@);
    assert(tv[0] == t@[ti as int]@);
    assert(tv.drop_first() =~= views(t@).skip(ti as int + 1));
    assert(pv.drop_first() =~= views(p@).skip(pi as int + 1));
    if is_single_char(&p[pi], '#') {
        return pi + 1 == p.len();
    }
    if is_single_char(&p[pi], '+') || is_single_char(&p[pi], '*') {
        return segs_match_from(t, p, ti + 1, pi + 1);
    }
    if !chars_eq(p[pi].as_slice(), t[ti].as_slice()) {
        return false;
    }
    segs_match_from(t, p, ti + 1, pi + 1)
}

/// Whether `topic` matches `pattern` under the segment wildcard rules (or, with wildcards
/// disabled, whether the two are equal).
pub fn topic_matches_pattern(topic: &str, pattern: &str, enable_wildcards: bool) -> (r: bool)
    ensures
        r == topic_matches(topic@, pattern@, enable_wildcards),
{
    if !enable_wildcards {
        return str_eq(topic, pattern);
    }
    let tc = chars_of(topic);
    let pc = chars_of(pattern);
    let t = split_on_dot(tc.as_slice());
    let p = split_on_dot(pc.as_slice());
    assert(views(t@).skip(0) =~= views(t@));
    assert(views(p@).skip(0) =~= views(p@));
    segs_match_from(&t, &p, 0, 0)
}

/// Why a topic pattern was refused.
#[derive(Debug, Clone, PartialEq, Eq)]
pub enum TopicPatternError {
    /// The pattern is the empty string.
    Empty,
    /// The segment at this position is empty (as in `events..process`).
    EmptySegment { position: usize },
    /// A `#` stands before the last segment.
    MisplacedMultiLevelWildcard,
}

/// The description of a pattern error.
pub open spec fn pattern_error_text(e: TopicPatternError) -> Seq<char> {
    match e {
        TopicPatternError::Empty => "Empty topic pattern"@,
        TopicPatternError::EmptySegment { .. } => "Empty segment in pattern"@,
        TopicPatternError::MisplacedMultiLevelWildcard => "Multi-level wildcard '#' must be at the end of pattern"@,
    }
}

impl TopicPatternError {
    /// A human-readable description.
    pub fn to_string(&self) -> (s: String)
        ensures
            s@ == pattern_error_text(*self),
    {
        let s = match self {
            TopicPatternError::Empty => String::from_str("Empty topic pattern"),
            TopicPatternError::EmptySegment { .. } => String::from_str("Empty segment in pattern"),
            TopicPatternError::MisplacedMultiLevelWildcard => String::from_str(
                "Multi-level wildcard '#' must be at the end of pattern",
            ),
        };
        proof {
            reveal_strlit("Empty topic pattern");
            reveal_strlit("Empty segment in pattern");
            reveal_strlit("Multi-level wildcard '#' must be at the end of pattern");
        }
        s
    }
}

/// Index of the first empty segment, if any.
pub open spec fn first_empty_segment(segs: Seq<Seq<char>>) -> Option<int> {
    if exists|i: int| 0 <= i < segs.len() && #[trigger] segs[i].len() == 0 {
        Some(choose|i: int| 0 <= i < segs.len() && #[trigger] segs[i].len() == 0 && forall|j: int|
            0 <= j < i ==> #[trigger] segs[j].len() != 0)
    } else {
        None
    }
}

/// The position of the first empty segment (meaningful when there is one).
pub open spec fn first_empty(segs: Seq<Seq<char>>) -> int {
    choose|i: int|
        0 <= i < segs.len() && #[trigger] segs[i].len() == 0 && forall|j: int|
            0 <= j < i ==> #[trigger] segs[j].len() != 0
}

/// The outcome of validating a pattern.
pub open spec fn pattern_check(p: Seq<char>) -> Result<(), TopicPatternError> {
    let segs = split_dot(p);
    if p.len() == 0 {
        Err(TopicPatternError::Empty)
    } else if exists|i: int| 0 <= i < segs.len() && #[trigger] segs[i].len() == 0 {
        Err(TopicPatternError::EmptySegment { position: first_empty(segs) as usize })
    } else if exists|i: int| 0 <= i < segs.len() - 1 && is_multi_wild(#[trigger] segs[i]) {
        Err(TopicPatternError::MisplacedMultiLevelWildcard)
    } else {
        Ok(())
    }
}

/// Validates a subscription pattern: it is non-empty, has no empty segment, and `#`
/// stands only last.
pub fn validate_single_pattern(pattern: &str) -> (r: Result<(), TopicPatternError>)
    ensures
        r == pattern_check(pattern@),
{
    let pc = chars_of(pattern);
    if pc.len() == 0 {
        return Err(TopicPatternError::Empty);
    }
    let segs = split_on_dot(pc.as_slice());
    let ghost sv = views(segs@);
    proof { lemma_split_nonempty(pattern@); }
    let mut i: usize = 0;
    while i < segs.len()
        invariant
            i <= segs@.len(),
            sv == views(segs@),
            sv == split_dot(pattern@),
            pattern@.len() > 0,
            forall|j: int| 0 <= j < i ==> #[trigger] sv[j].len() != 0,
        decreases segs@.len() - i,
    {
        if segs[i].len() == 0 {
            proof {
                let ii = i as int;
                assert(sv[ii].len() == 0);
                assert(0 <= ii < sv.len() && #[trigger] sv[ii].len() == 0 && forall|j: int|
                    0 <= j < ii ==> #[trigger] sv[j].len() != 0);
                let w = first_empty(sv);
                assert(0 <= w < sv.len() && sv[w].len() == 0 && forall|j: int|
                    0 <= j < w ==> #[trigger] sv[j].len() != 0);
                if w < ii {
                    assert(sv[w].len() != 0);
                }
                if w > ii {
                    assert(sv[ii].len() != 0);
                }
                assert(w == ii);
            }
            return Err(TopicPatternError::EmptySegment { position: i });
        }
        i = i + 1;
    }
    let last = segs.len() - 1;
    let mut k: usize = 0;
    while k < last
        invariant
            sv == views(segs@),
            sv == split_dot(pattern@),
            last == segs@.len() - 1,
            pattern@.len() > 0,
            k <= last,
            forall|j: int| 0 <= j < sv.len() ==> #[trigger] sv[j].len() != 0,
            forall|j: int| 0 <= j < k ==> !is_multi_wild(#[trigger] sv[j]),
        decreases last - k,
    {
        if is_single_char(&segs[k], '#') {
            assert(is_multi_wild(sv[k as int]));
            assert(0 <= k < sv.len() - 1);
            return Err(TopicPatternError::MisplacedMultiLevelWildcard);
        }
        k = k + 1;
    }
    Ok(())
}

/// Validates every pattern of a subscription, reporting the first refusal.
pub fn validate_topic_patterns(patterns: &Vec<String>) -> (r: Result<(), TopicPatternError>)
    ensures
        r is Ok <==> forall|i: int| 0 <= i < patterns@.len() ==> pattern_check(
            #[trigger] patterns@[i]@,
        ) is Ok,
        r matches Err(e) ==> exists|i: int|
            0 <= i < patterns@.len() && pattern_check(#[trigger] patterns@[i]@) == Err::<(), _>(e)
                && forall|j: int| 0 <= j < i ==> pattern_check(#[trigger] patterns@[j]@) is Ok,
{
    let mut i: usize = 0;
    while i < patterns.len()
        invariant
            i <= patterns@.len(),
            forall|j: int| 0 <= j < i ==> pattern_check(#[trigger] patterns@[j]@) is Ok,
        decreases patterns@.len() - i,
    {
        match validate_single_pattern(patterns[i].as_str()) {
            Ok(()) => {},
            Err(e) => {
                assert(pattern_check(patterns@[i as int]@) == Err::<(), _>(e));
                return Err(e);
            },
        }
        i = i + 1;
    }
    Ok(())
}

/// Whether the segments contain `rpc` immediately followed by `response`.
pub open spec fn has_rpc_response(segs: Seq<Seq<char>>) -> bool {
    exists|i: int|
        0 <= i && i + 1 < segs.len() && #[trigger] segs[i] == seq!['r', 'p', 'c'] && segs[i + 1]
            == seq!['r', 'e', 's', 'p', 'o', 'n', 's', 'e']
}

/// Whether a topic carries RPC responses: two adjacent segments read `rpc`, `response`.
/// Such messages are skipped by the request loop.
pub fn is_rpc_response_topic(topic: &str) -> (r: bool)
    ensures
        r == has_rpc_response(split_dot(topic@)),
{
    let tc = chars_of(topic);
    let segs = split_on_dot(tc.as_slice());
    let ghost sv = views(segs@);
    let mut i: usize = 0;
    while i < segs.len() && i + 1 < segs.len()
        invariant
            sv == views(segs@),
            sv == split_dot(topic@),
            forall|j: int|
                0 <= j < i && j + 1 < sv.len() ==> !(#[trigger] sv[j] == seq!['r', 'p', 'c'] && sv[j
                    + 1] == seq!['r', 'e', 's', 'p', 'o', 'n', 's', 'e']),
        decreases segs@.len() - i,
    {
        proof {
            reveal_strlit("rpc");
            reveal_strlit("response");
        }
        let a = chars_eq_str(segs[i].as_slice(), "rpc");
        let b = chars_eq_str(segs[i + 1].as_slice(), "response");
        assert("rpc"@ =~= seq!['r', 'p', 'c']);
        assert("response"@ =~= seq!['r', 'e', 's', 'p', 'o', 'n', 's', 'e']);
        if a && b {
            assert(sv[i as int] == seq!['r', 'p', 'c']);
            assert(sv[i as int + 1] == seq!['r', 'e', 's', 'p', 'o', 'n', 's', 'e']);
            assert(sv == split_dot(topic@));
            return true;
        }
        i = i + 1;
    }
    false
}

/// Topic filtering configuration: explicit topics and patterns to include or exclude.
#[derive(Debug)]
pub struct TopicFilter {
    /// Specific topics to include (exact match)
    pub include_topics: Vec<String>,
    /// Specific topics to exclude (exact match)
    pub exclude_topics: Vec<String>,
    /// Topic patterns to include (with wildcards)
    pub include_patterns: Vec<String>,
    /// Topic patterns to exclude (with wildcards)
    pub exclude_patterns: Vec<String>,
    /// Priority-based topic filtering
    pub priority_topics: StrMap<u8>,
}

/// Whether `s` is one of `list`.
pub open spec fn listed(list: Seq<String>, s: Seq<char>) -> bool {
    exists|i: int| 0 <= i < list.len() && #[trigger] list[i]@ == s
}

/// Whether some pattern of `list` matches `topic` (wildcards enabled).
pub open spec fn any_pattern_matches(list: Seq<String>, topic: Seq<char>) -> bool {
    exists|i: int| 0 <= i < list.len() && topic_matches(topic, #[trigger] list[i]@, true)
}

/// Whether a topic passes a topic filter: it is neither an excluded topic nor matched by an
/// excluded pattern; and where inclusions are given, it is an included topic or matched by an
/// included pattern.
pub open spec fn topic_filter_passes(topic: Seq<char>, f: TopicFilter) -> bool {
    &&& !listed(f.exclude_topics@, topic)
    &&& !any_pattern_matches(f.exclude_patterns@, topic)
    &&& (f.include_topics@.len() == 0 && f.include_patterns@.len() == 0) || listed(
        f.include_topics@,
        topic,
    ) || any_pattern_matches(f.include_patterns@, topic)
}

/// Whether some pattern of `list` matches `topic` (wildcards enabled).
pub fn any_matches(list: &Vec<String>, topic: &str) -> (r: bool)
    ensures
        r == any_pattern_matches(list@, topic@),
{
    let mut i: usize = 0;
    while i < list.len()
        invariant
            i <= list@.len(),
            forall|j: int| 0 <= j < i ==> !topic_matches(topic@, #[trigger] list@[j]@, true),
        decreases list@.len() - i,
    {
        if topic_matches_pattern(topic, list[i].as_str(), true) {
            return true;
        }
        i = i + 1;
    }
    false
}

/// Applies a topic filter to a topic.
pub fn apply_topic_filter(topic: &str, filter: &TopicFilter) -> (r: bool)
    ensures
        r == topic_filter_passes(topic@, *filter),
{
    if str_in_list(topic, &filter.exclude_topics) {
        return false;
    }
    if any_matches(&filter.exclude_patterns, topic) {
        return false;
    }
    if filter.include_topics.len() == 0 && filter.include_patterns.len() == 0 {
        return true;
    }
    if str_in_list(topic, &filter.include_topics) {
        return true;
    }
    any_matches(&filter.include_patterns, topic)
}

/// A wildcard-free pattern matches exactly the topics with the same segments.
pub proof fn law_literal_pattern_matches_only_itself(t: Seq<Seq<char>>, p: Seq<Seq<char>>)
    requires
        no_wildcards(p),
    ensures
        segs_match(t, p) <==> t == p,
    decreases p.len(),
{
    if p.len() == 0 {
        if t.len() == 0 {
            assert(t =~= p);
        }
    } else if t.len() == 0 {
        assert(t.len() != p.len());
    } else {
        assert(!is_single_wild(p[0]) && !is_multi_wild(p[0]));
        assert(no_wildcards(p.drop_first())) by {
            assert forall|i: int| 0 <= i < p.drop_first().len() implies !is_single_wild(
                #[trigger] p.drop_first()[i],
            ) && !is_multi_wild(p.drop_first()[i]) by {
                assert(p.drop_first()[i] == p[i + 1]);
            }
        }
        law_literal_pattern_matches_only_itself(t.drop_first(), p.drop_first());
        if t == p {
            assert(t.drop_first() == p.drop_first());
        }
        if p[0] == t[0] && t.drop_first() == p.drop_first() {
            assert(t.len() == p.len());
            assert forall|i: int| 0 <= i < t.len() implies t[i] == p[i] by {
                if i > 0 {
                    assert(t[i] == t.drop_first()[i - 1]);
                    assert(p[i] == p.drop_first()[i - 1]);
                }
            }
            assert(t =~= p);
        }
    }
}

proof fn lemma_literal_prefix(t: Seq<Seq<char>>, q: Seq<Seq<char>>, r: Seq<Seq<char>>)
    requires
        no_wildcards(q),
    ensures
        segs_match(t, q + r) <==> (t.len() >= q.len() && t.take(q.len() as int) == q
            && segs_match(t.skip(q.len() as int), r)),
    decreases q.len(),
{
    if q.len() == 0 {
        assert(q + r =~= r);
        assert(t.take(0) =~= q);
        assert(t.skip(0) =~= t);
    } else {
        let p = q + r;
        let rest = q.drop_first();
        assert(p[0] == q[0]);
        assert(!is_single_wild(q[0]) && !is_multi_wild(q[0]));
        assert(no_wildcards(rest)) by {
            assert forall|i: int| 0 <= i < rest.len() implies !is_single_wild(#[trigger] rest[i])
                && !is_multi_wild(rest[i]) by {
                assert(rest[i] == q[i + 1]);
            }
        }
        assert(p.drop_first() =~= rest + r);
        if t.len() > 0 {
            let t1 = t.drop_first();
            lemma_literal_prefix(t1, rest, r);
            let n = q.len() as int;
            if t.len() >= n {
                assert(t1.skip(n - 1) =~= t.skip(n));
                if t.take(n) == q {
                    assert(t1.take(n - 1) =~= rest) by {
                        assert forall|i: int| 0 <= i < n - 1 implies t1.take(n - 1)[i] == rest[i] by {
                            assert(t.take(n)[i + 1] == q[i + 1]);
                        }
                    }
                    assert(t[0] == t.take(n)[0]);
                }
                if t[0] == q[0] && t1.take(n - 1) == rest {
                    assert(t.take(n) =~= q) by {
                        assert forall|i: int| 0 <= i < n implies t.take(n)[i] == q[i] by {
                            if i > 0 {
                                assert(t1.take(n - 1)[i - 1] == rest[i - 1]);
                            }
                        }
                    }
                }
            }
        }
    }
}

/// `+` stands for exactly one segment: a pattern of literal segments around one `+` matches
/// a topic exactly when the topic has the same segments with any single segment in its place.
pub proof fn law_single_wildcard_matches_one_segment(
    t: Seq<Seq<char>>,
    prefix: Seq<Seq<char>>,
    suffix: Seq<Seq<char>>,
)
    requires
        no_wildcards(prefix),
        no_wildcards(suffix),
    ensures
        segs_match(t, prefix + seq![seq!['+']] + suffix) <==> (t.len() == prefix.len() + 1
            + suffix.len() && t.take(prefix.len() as int) == prefix && t.skip(
            prefix.len() as int + 1,
        ) == suffix),
{
    let n = prefix.len() as int;
    let r = seq![seq!['+']] + suffix;
    assert(prefix + seq![seq!['+']] + suffix =~= prefix + r);
    lemma_literal_prefix(t, prefix, r);
    if t.len() >= n {
        let u = t.skip(n);
        assert(r[0] == seq!['+']);
        assert(is_single_wild(r[0]));
        assert(seq!['+'][0] != seq!['#'][0]);
        assert(!is_multi_wild(r[0]));
        assert(r.drop_first() =~= suffix);
        if u.len() > 0 {
            law_literal_pattern_matches_only_itself(u.drop_first(), suffix);
            assert(u.drop_first() =~= t.skip(n + 1));
        }
    }
}

/// `#` at the end stands for one or more trailing segments: literal segments followed by `#`
/// match exactly the topics that start with those segments and have at least one more.
pub proof fn law_multi_wildcard_matches_remaining(t: Seq<Seq<char>>, prefix: Seq<Seq<char>>)
    requires
        no_wildcards(prefix),
    ensures
        segs_match(t, prefix.push(seq!['#'])) <==> (t.len() > prefix.len() && t.take(
            prefix.len() as int,
        ) == prefix),
{
    let n = prefix.len() as int;
    let r = seq![seq!['#']];
    assert(prefix.push(seq!['#']) =~= prefix + r);
    lemma_literal_prefix(t, prefix, r);
    if t.len() >= n {
        assert(is_multi_wild(r[0]));
    }
}

} // verus!
