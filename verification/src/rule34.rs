//! Rule34 searches: when cached posts may be used, how queries and posts are
//! written, and which tags a post carries.
use vstd::prelude::*;
use crate::text::{chars_of, decimal, lemma_split_step, split_on, string_from_chars, str_eq, u64_to_decimal};

verus! {

/// A query statistic as the database keeps it.
#[derive(Debug)]
pub struct Rule34QueryStat {
    pub query: String,
    pub queries_since_last_fetch: u32,
    /// When the query was last sent to the site, in milliseconds since the epoch.
    pub last_fetched_ms: i64,
}

/// The limits of the rule34 client.
#[derive(Debug, Copy, Clone)]
pub struct Rule34Limits {
    /// The most posts one listing returns.
    pub post_list_limit_max: u16,
    /// The requests the client may make in one rate limit window.
    pub ratelimit_budget: u8,
}

/// One day, in nanoseconds.
pub const ONE_DAY_NANOS: i128 = 86_400_000_000_000;

/// Where a random post comes from.
#[derive(Debug, Copy, Clone, PartialEq, Eq, Structural)]
pub enum Rule34Source {
    /// Search the site again.
    FetchNew,
    /// Use the cached post at this position.
    UseCached(usize),
}

/// Whether a query statistic is stale at `now_ns`: last fetched more than a day
/// ago, or queried more often than a quarter of a full listing since.
pub open spec fn stat_is_stale(stat: Rule34QueryStat, now_ns: i128, limits: Rule34Limits) -> bool {
    now_ns - stat.last_fetched_ms * 1_000_000 > ONE_DAY_NANOS || stat.queries_since_last_fetch
        > limits.post_list_limit_max / 4
}

/// Where the post of a simple query comes from: the site, when there is no
/// statistic for the query or it is stale, when less than half of the rate
/// limit budget is left, or when nothing is cached; else the last cached post.
pub open spec fn rule34_source_spec(
    stat: Option<Rule34QueryStat>,
    now_ns: i128,
    budget_remaining: u8,
    cached_posts: nat,
    limits: Rule34Limits,
) -> Rule34Source {
    if (match stat {
        None => true,
        Some(s) => stat_is_stale(s, now_ns, limits),
    }) || budget_remaining < limits.ratelimit_budget / 2 || cached_posts == 0 {
        Rule34Source::FetchNew
    } else {
        Rule34Source::UseCached((cached_posts - 1) as usize)
    }
}

/// Where the post of a simple query comes from (see [`rule34_source_spec`]).
pub fn choose_rule34_source(
    stat: Option<&Rule34QueryStat>,
    now_ns: i128,
    budget_remaining: u8,
    cached_posts: usize,
    limits: Rule34Limits,
) -> (r: Rule34Source)
    requires
        -1_000_000_000_000_000_000_000_000_000_000i128 <= now_ns <= 1_000_000_000_000_000_000_000_000_000_000i128,
    ensures
        r == rule34_source_spec(
            match stat {
                Some(s) => Some(*s),
                None => None,
            },
            now_ns,
            budget_remaining,
            cached_posts as nat,
            limits,
        ),
{
    let high_query_count: u16 = limits.post_list_limit_max / 4;
    let low_budget: u8 = limits.ratelimit_budget / 2;
    let stale = match stat {
        None => true,
        Some(s) => {
            let since = now_ns - (s.last_fetched_ms as i128) * 1_000_000;
            since > ONE_DAY_NANOS || s.queries_since_last_fetch > high_query_count as u32
        },
    };
    if stale || budget_remaining < low_budget || cached_posts == 0 {
        Rule34Source::FetchNew
    } else {
        Rule34Source::UseCached(cached_posts - 1)
    }
}

/// Whether a query may be answered from the cache: no query, or one without a
/// space (a single tag).
pub fn is_simple_query(query: Option<&str>) -> (r: bool)
    ensures
        r == match query {
            None => true,
            Some(q) => !q@.contains(' '),
        },
{
    match query {
        None => true,
        Some(q) => {
            let chars = chars_of(q);
            let mut i: usize = 0;
            while i < chars.len()
                invariant
                    query == Some(q),
                    chars@ == q@,
                    i <= chars@.len(),
                    forall|j: int| 0 <= j < i ==> chars@[j] != ' ',
                decreases chars@.len() - i,
            {
                if chars[i] == ' ' {
                    assert(q@[i as int] == ' ');
                    return false;
                }
                i = i + 1;
            }
            true
        },
    }
}

/// The statistic key of a query: the query, or the empty text for none.
pub fn query_stat_key(query: Option<&str>) -> (r: &str)
    ensures
        r@ == match query {
            Some(q) => q@,
            None => ""@,
        },
{
    match query {
        Some(q) => q,
        None => "",
    }
}

/// The number of cached posts to look at: `limit`, or 10.
pub fn random_post_limit(limit: Option<usize>) -> (r: usize)
    ensures
        r == match limit {
            Some(l) => l,
            None => 10,
        },
{
    match limit {
        Some(l) => l,
        None => 10,
    }
}

/// The statistic recorded when a query has just been sent to the site.
pub fn fresh_query_stat(query: Option<&str>, now_ms: i64) -> (r: Rule34QueryStat)
    ensures
        r.query@ == match query {
            Some(q) => q@,
            None => Seq::<char>::empty(),
        },
        r.queries_since_last_fetch == 1,
        r.last_fetched_ms == now_ms,
{
    let query = match query {
        Some(q) => String::from_str(q),
        None => String::new(),
    };
    Rule34QueryStat { query, queries_since_last_fetch: 1, last_fetched_ms: now_ms }
}

/// The page of a post on the site.
pub fn post_page_url(id: u64) -> (r: String)
    ensures
        r@ == "https://rule34.xxx/index.php?page=post&s=view&id="@ + decimal(id as nat),
{
    let mut url = String::from_str("https://rule34.xxx/index.php?page=post&s=view&id=");
    let digits = u64_to_decimal(id);
    url.append(digits.as_str());
    url
}

/// The reply that presents a post: a link titled with its id, then its file.
pub fn post_reply_content(id: u64, file_url: &str) -> (r: String)
    ensures
        r@ == "[Rule34 "@ + decimal(id as nat) + "]("@ + "https://rule34.xxx/index.php?page=post&s=view&id="@
            + decimal(id as nat) + ")\n"@ + file_url@,
{
    let digits = u64_to_decimal(id);
    let page = post_page_url(id);
    let mut out = String::from_str("[Rule34 ");
    out.append(digits.as_str());
    out.append("](");
    out.append(page.as_str());
    out.append(")\n");
    out.append(file_url);
    out
}

/// Whether `t` is a tag of the tag list `s`: a non-empty piece between spaces.
pub open spec fn is_tag_of(s: Seq<char>, t: Seq<char>) -> bool {
    t.len() > 0 && split_on(s, ' ').contains(t)
}

/// Whether `v` holds no two equal strings.
pub open spec fn distinct_strings(v: Seq<String>) -> bool {
    forall|a: int, b: int| 0 <= a < b < v.len() ==> (#[trigger] v[a])@ != (#[trigger] v[b])@
}

fn contains_string(v: &Vec<String>, t: &str) -> (r: bool)
    ensures
        r == exists|k: int| 0 <= k < v@.len() && (#[trigger] v@[k])@ == t@,
{
    let mut k: usize = 0;
    while k < v.len()
        invariant
            k <= v@.len(),
            forall|j: int| 0 <= j < k ==> (#[trigger] v@[j])@ != t@,
        decreases v@.len() - k,
    {
        if str_eq(v[k].as_str(), t) {
            return true;
        }
        k = k + 1;
    }
    false
}

/// Whether `out` holds a string with the characters `t`.
pub open spec fn has_string(out: Seq<String>, t: Seq<char>) -> bool {
    exists|k: int| 0 <= k < out.len() && (#[trigger] out[k])@ == t
}

/// Whether `out` lists, without repeats, exactly the non-empty pieces of `pieces`.
pub open spec fn lists_pieces(out: Seq<String>, pieces: Seq<Seq<char>>) -> bool {
    &&& distinct_strings(out)
    &&& forall|t: Seq<char>|
        #![trigger has_string(out, t)]
        #![trigger pieces.contains(t)]
        (t.len() > 0 && pieces.contains(t)) <==> has_string(out, t)
}

proof fn lemma_add_piece(old_out: Seq<String>, new_out: Seq<String>, pieces: Seq<Seq<char>>)
    requires
        pieces.len() > 0,
        lists_pieces(old_out, pieces.drop_last()),
        (new_out == old_out && (pieces.last().len() == 0 || has_string(old_out, pieces.last()))) || (
        pieces.last().len() > 0 && new_out.len() == old_out.len() + 1 && new_out.drop_last() == old_out
            && new_out.last()@ == pieces.last() && !has_string(old_out, pieces.last())),
    ensures
        lists_pieces(new_out, pieces),
{
    let piece = pieces.last();
    let grew = new_out.len() == old_out.len() + 1;
    if grew {
        assert forall|a: int, b: int| 0 <= a < b < new_out.len() implies (#[trigger] new_out[a])@ != (#[trigger] new_out[b])@ by {
            assert(new_out[a] == new_out.drop_last()[a]);
            if b < old_out.len() {
                assert(new_out[b] == new_out.drop_last()[b]);
            } else {
                assert(!has_string(old_out, piece));
                assert(old_out[a]@ != piece);
            }
        }
    }
    assert forall|t: Seq<char>| (t.len() > 0 && pieces.contains(t)) implies has_string(new_out, t) by {
        let w = choose|w: int| 0 <= w < pieces.len() && pieces[w] == t;
        if w < pieces.len() - 1 {
            assert(pieces.drop_last()[w] == t);
            assert(pieces.drop_last().contains(t));
            assert(has_string(old_out, t));
            let k = choose|k: int| 0 <= k < old_out.len() && (#[trigger] old_out[k])@ == t;
            if grew {
                assert(new_out[k] == new_out.drop_last()[k]);
            }
            assert(new_out[k]@ == t);
        } else {
            assert(t == piece);
            if grew {
                assert(new_out[new_out.len() - 1]@ == t);
            }
        }
    }
    assert forall|t: Seq<char>| has_string(new_out, t) implies (t.len() > 0 && pieces.contains(t)) by {
        let k = choose|k: int| 0 <= k < new_out.len() && (#[trigger] new_out[k])@ == t;
        if k < old_out.len() {
            if grew {
                assert(new_out[k] == new_out.drop_last()[k]);
            }
            assert(old_out[k]@ == t);
            assert(has_string(old_out, t));
            assert(t.len() > 0 && pieces.drop_last().contains(t));
            let w = choose|w: int| 0 <= w < pieces.drop_last().len() && pieces.drop_last()[w] == t;
            assert(pieces[w] == t);
        } else {
            assert(pieces[pieces.len() - 1] == t);
        }
    }
}

/// Adds `chars[start..end]` to `out` unless it is empty or already there.
fn add_piece(out: &mut Vec<String>, chars: &Vec<char>, start: usize, end: usize)
    requires
        start <= end <= chars@.len(),
    ensures
        ({
            let piece = chars@.subrange(start as int, end as int);
            (final(out)@ == old(out)@ && (piece.len() == 0 || has_string(old(out)@, piece))) || (piece.len() > 0
                && final(out)@.len() == old(out)@.len() + 1 && final(out)@.drop_last() == old(out)@
                && final(out)@.last()@ == piece && !has_string(old(out)@, piece))
        }),
{
    if start < end {
        let tag = string_from_chars(chars.as_slice(), start, end);
        if !contains_string(out, tag.as_str()) {
            let ghost before = out@;
            out.push(tag);
            assert(out@.drop_last() =~= before);
        }
    }
}

/// The distinct tags of a space-separated tag list: each non-empty piece
/// between spaces, once. As with a set, no order is promised.
pub fn post_tags(tags: &str) -> (r: Vec<String>)
    ensures
        distinct_strings(r@),
        forall|t: Seq<char>| is_tag_of(tags@, t) <==> exists|k: int| 0 <= k < r@.len() && (#[trigger] r@[k])@ == t,
{
    let chars = chars_of(tags);
    let mut out: Vec<String> = Vec::new();
    let mut start: usize = 0;
    let mut i: usize = 0;
    proof {
        assert(chars@.take(0) =~= Seq::<char>::empty());
        assert(split_on(chars@.take(0), ' ').drop_last() =~= Seq::<Seq<char>>::empty());
        assert(chars@.subrange(0, 0) =~= Seq::<char>::empty());
    }
    while i < chars.len()
        invariant
            chars@ == tags@,
            start <= i <= chars@.len(),
            split_on(chars@.take(i as int), ' ').len() > 0,
            split_on(chars@.take(i as int), ' ').last() == chars@.subrange(start as int, i as int),
            lists_pieces(out@, split_on(chars@.take(i as int), ' ').drop_last()),
        decreases chars@.len() - i,
    {
        proof {
            lemma_split_step(chars@, ' ', i as int);
        }
        let ghost prev = split_on(chars@.take(i as int), ' ');
        if chars[i] == ' ' {
            let ghost old_out = out@;
            add_piece(&mut out, &chars, start, i);
            proof {
                lemma_add_piece(old_out, out@, prev);
                let next = split_on(chars@.take(i + 1), ' ');
                assert(next.drop_last() =~= prev);
                assert(next.last() =~= chars@.subrange(i + 1, i + 1));
            }
            start = i + 1;
        } else {
            proof {
                let next = split_on(chars@.take(i + 1), ' ');
                assert(next.drop_last() =~= prev.drop_last());
                assert(next.last() =~= chars@.subrange(start as int, i + 1));
            }
        }
        i = i + 1;
    }
    let ghost all = split_on(chars@.take(i as int), ' ');
    let ghost old_out = out@;
    add_piece(&mut out, &chars, start, i);
    proof {
        lemma_add_piece(old_out, out@, all);
        assert(chars@.take(i as int) =~= tags@);
        assert forall|t: Seq<char>| is_tag_of(tags@, t) <==> exists|k: int| 0 <= k < out@.len() && (#[trigger] out@[k])@ == t by {
            assert(has_string(out@, t) == exists|k: int| 0 <= k < out@.len() && (#[trigger] out@[k])@ == t);
        }
    }
    out
}

/// Whether `d` is the position of the last space of `s`.
pub open spec fn is_last_space(s: Seq<char>, d: int) -> bool {
    0 <= d < s.len() && s[d] == ' ' && forall|j: int| d < j < s.len() ==> s[j] != ' '
}

/// Splits what a user has typed so far into the finished part of the query and
/// the tag being typed: at the last space, or, without a space, no finished
/// part and the whole text.
pub fn split_autocomplete_input(partial: &str) -> (r: (Option<String>, String))
    ensures
        match r.0 {
            Some(head) => exists|d: int|
                is_last_space(partial@, d) && head@ == partial@.subrange(0, d) && r.1@ == partial@.subrange(
                    d + 1,
                    partial@.len() as int,
                ),
            None => !partial@.contains(' ') && r.1@ == partial@,
        },
{
    let chars = chars_of(partial);
    let n = chars.len();
    let mut i = n;
    while i > 0
        invariant
            chars@ == partial@,
            n == chars@.len(),
            i <= n,
            forall|j: int| i <= j < n ==> chars@[j] != ' ',
        decreases i,
    {
        if chars[i - 1] == ' ' {
            let d = i - 1;
            let head = string_from_chars(chars.as_slice(), 0, d);
            let tail = string_from_chars(chars.as_slice(), d + 1, n);
            assert(is_last_space(partial@, d as int));
            return (Some(head), tail);
        }
        i = i - 1;
    }
    assert(chars@.subrange(0, n as int) =~= partial@);
    (None, string_from_chars(chars.as_slice(), 0, n))
}

/// The query an autocompletion offers for `tag`: the finished part, a space
/// and the tag; or the tag alone.
pub open spec fn completed_query(head: Option<Seq<char>>, tag: Seq<char>) -> Seq<char> {
    match head {
        Some(h) => h + " "@ + tag,
        None => tag,
    }
}

/// The queries offered for the tags `tags`, one per tag, in order.
pub fn autocomplete_queries(head: Option<&str>, tags: &Vec<String>) -> (r: Vec<String>)
    ensures
        r@.len() == tags@.len(),
        forall|i: int|
            0 <= i < tags@.len() ==> (#[trigger] r@[i])@ == completed_query(
                crate::text::opt_str_view(head),
                tags@[i]@,
            ),
{
    let mut queries: Vec<String> = Vec::new();
    let mut i: usize = 0;
    while i < tags.len()
        invariant
            i <= tags@.len(),
            queries@.len() == i,
            forall|j: int|
                0 <= j < i ==> (#[trigger] queries@[j])@ == completed_query(crate::text::opt_str_view(head), tags@[j]@),
        decreases tags@.len() - i,
    {
        let mut query = String::new();
        if let Some(h) = head {
            query.append(h);
            query.append(" ");
        }
        query.append(tags[i].as_str());
        queries.push(query);
        i = i + 1;
    }
    queries
}

} // verus!
