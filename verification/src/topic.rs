//! Parsing of direct-method invocation topics.
//!
//! A direct-method call arrives on a topic of the form
//! `$iothub/methods/POST/<method name>/?<query>`, where the method name may
//! itself contain separator characters.  The method name is therefore
//! recovered by splitting at the *last* separator before the query, and the
//! query is validated as `&`-separated properties of which exactly one must
//! be `$rid=<correlation id>`.  A topic that does not fit this shape yields
//! no invocation at all: the transport layer drops it without a response.

use vstd::prelude::*;

use crate::dispatch::chars_to_string;

verus! {

/// The topic prefix that direct-method invocations arrive under.
pub open spec fn methods_prefix() -> Seq<char> {
    seq![
        '$', 'i', 'o', 't', 'h', 'u', 'b', '/', 'm', 'e', 't', 'h', 'o', 'd', 's', '/', 'P', 'O',
        'S', 'T', '/',
    ]
}

/// The topic prefix that direct-method invocations arrive under, for the
/// transport layer to subscribe and route by.
pub fn methods_prefix_str() -> (r: &'static str)
    ensures
        r@ == methods_prefix(),
{
    let r = "$iothub/methods/POST/";
    proof {
        reveal_strlit("$iothub/methods/POST/");
        assert(r@ =~= methods_prefix());
    }
    r
}

/// The index of the first occurrence of `c` in `s`, if any.
pub open spec fn find_first(s: Seq<char>, c: char) -> Option<int>
    decreases s.len(),
{
    if s.len() == 0 {
        None
    } else if s[0] == c {
        Some(0int)
    } else {
        match find_first(s.skip(1), c) {
            Some(i) => Some(i + 1),
            None => None,
        }
    }
}

/// The index of the last occurrence of `c` in `s`, if any.
pub open spec fn find_last(s: Seq<char>, c: char) -> Option<int>
    decreases s.len(),
{
    if s.len() == 0 {
        None
    } else if s.last() == c {
        Some(s.len() - 1)
    } else {
        find_last(s.drop_last(), c)
    }
}

pub proof fn lemma_find_first_some(s: Seq<char>, c: char, k: int)
    requires
        0 <= k < s.len(),
        s[k] == c,
        forall|j: int| 0 <= j < k ==> s[j] != c,
    ensures
        find_first(s, c) == Some(k),
    decreases s.len(),
{
    if k == 0 {
    } else {
        assert(s[0] != c);
        lemma_find_first_some(s.skip(1), c, k - 1);
    }
}

pub proof fn lemma_find_first_none(s: Seq<char>, c: char)
    requires
        forall|j: int| 0 <= j < s.len() ==> s[j] != c,
    ensures
        find_first(s, c) is None,
    decreases s.len(),
{
    if s.len() > 0 {
        lemma_find_first_none(s.skip(1), c);
    }
}

pub proof fn lemma_find_last_some(s: Seq<char>, c: char, k: int)
    requires
        0 <= k < s.len(),
        s[k] == c,
        forall|j: int| k < j < s.len() ==> s[j] != c,
    ensures
        find_last(s, c) == Some(k),
    decreases s.len(),
{
    if k == s.len() - 1 {
    } else {
        assert(s.last() != c);
        lemma_find_last_some(s.drop_last(), c, k);
    }
}

pub proof fn lemma_find_last_none(s: Seq<char>, c: char)
    requires
        forall|j: int| 0 <= j < s.len() ==> s[j] != c,
    ensures
        find_last(s, c) is None,
    decreases s.len(),
{
    if s.len() > 0 {
        lemma_find_last_none(s.drop_last(), c);
    }
}

/// The reserved query key that carries the correlation id.
pub open spec fn rid_key() -> Seq<char> {
    seq!['$', 'r', 'i', 'd']
}

/// The key of one `&`-separated query part: everything before the first
/// `=`, or the whole part when there is none.
pub open spec fn part_key(p: Seq<char>) -> Seq<char> {
    match find_first(p, '=') {
        Some(i) => p.take(i),
        None => p,
    }
}

/// The value of one query part: everything after the first `=`, if any.
pub open spec fn part_value(p: Seq<char>) -> Option<Seq<char>> {
    match find_first(p, '=') {
        Some(i) => Some(p.skip(i + 1)),
        None => None,
    }
}

/// What one query part contributes to the scan: whether it is well formed
/// (a non-empty key), how many correlation-id keys it holds, and the
/// correlation id value it carries, if any.
pub open spec fn part_info(p: Seq<char>) -> (bool, int, Option<Seq<char>>) {
    (
        part_key(p).len() > 0,
        if part_key(p) == rid_key() {
            1int
        } else {
            0int
        },
        if part_key(p) == rid_key() {
            part_value(p)
        } else {
            None
        },
    )
}

/// Scans a query left to right, one `&`-separated part at a time; `cur`
/// holds the characters of the part read so far.  Yields whether every part
/// is well formed, how many `$rid` keys appear, and the first `$rid` value.
pub open spec fn query_scan(q: Seq<char>, cur: Seq<char>) -> (bool, int, Option<Seq<char>>)
    decreases q.len(),
{
    if q.len() == 0 {
        part_info(cur)
    } else if q[0] == '&' {
        let a = part_info(cur);
        let b = query_scan(q.skip(1), Seq::empty());
        (a.0 && b.0, a.1 + b.1, if a.2 is Some { a.2 } else { b.2 })
    } else {
        query_scan(q.skip(1), cur.push(q[0]))
    }
}

/// The correlation id of a valid query: every part well formed, exactly one
/// `$rid` key, and that key carrying a value.  Property order is
/// irrelevant, and a duplicated `$rid` makes the query invalid.
pub open spec fn parse_query_rid(q: Seq<char>) -> Option<Seq<char>> {
    let s = query_scan(q, Seq::empty());
    if s.0 && s.1 == 1 && s.2 is Some {
        s.2
    } else {
        None
    }
}

/// The parse of a direct-method topic: the prefix must match, the method
/// name runs up to the last separator, a `?` must follow it, and the query
/// must carry exactly one `$rid` property with a value.
pub open spec fn parse_method_topic_spec(topic: Seq<char>) -> Option<(Seq<char>, Seq<char>)> {
    if topic.len() < methods_prefix().len() {
        None
    } else if topic.take(methods_prefix().len() as int) != methods_prefix() {
        None
    } else {
        let rest = topic.skip(methods_prefix().len() as int);
        match find_last(rest, '/') {
            None => None,
            Some(k) => {
                let after = rest.skip(k + 1);
                if after.len() == 0 || after[0] != '?' {
                    None
                } else {
                    match parse_query_rid(after.skip(1)) {
                        Some(rid) => Some((rest.take(k), rid)),
                        None => None,
                    }
                }
            },
        }
    }
}

/// A successfully parsed invocation topic: the full method name and the
/// correlation id that the response must be addressed with.
#[derive(Debug)]
pub struct ParsedMethodCall {
    pub method_name: String,
    pub request_id: String,
}

/// Turns a string into the vector of its characters.
fn str_to_chars(s: &str) -> (r: Vec<char>)
    ensures
        r@ == s@,
{
    let n = s.unicode_len();
    let mut r: Vec<char> = Vec::new();
    let mut i: usize = 0;
    while i < n
        invariant
            n == s@.len(),
            i <= n,
            r@ == s@.take(i as int),
        decreases n - i,
    {
        r.push(s.get_char(i));
        proof {
            assert(s@.take(i + 1int) =~= s@.take(i as int).push(s@[i as int]));
        }
        i = i + 1;
    }
    proof {
        assert(s@.take(n as int) =~= s@);
    }
    r
}

/// The index of the first occurrence of `c` in `v`, if any.
fn find_char(v: &Vec<char>, c: char) -> (r: Option<usize>)
    ensures
        match r {
            Some(j) => {
                &&& (j as int) < v@.len()
                &&& v@[j as int] == c
                &&& forall|t: int| 0 <= t < j ==> v@[t] != c
            },
            None => forall|t: int| 0 <= t < v@.len() ==> v@[t] != c,
        },
{
    let n = v.len();
    let mut j: usize = 0;
    while j < n
        invariant
            n == v@.len(),
            j <= n,
            forall|t: int| 0 <= t < j ==> v@[t] != c,
        decreases n - j,
    {
        if v[j] == c {
            return Some(j);
        }
        j = j + 1;
    }
    None
}

/// The information one scanned part contributes, in executable form.
fn part_info_exec(cur: Vec<char>) -> (r: (bool, u8, Option<Vec<char>>))
    ensures
        ({
            let s = part_info(cur@);
            &&& r.0 == s.0
            &&& r.1 as int == s.1
            &&& match (r.2, s.2) {
                (Some(v), Some(sv)) => v@ == sv,
                (None, None) => true,
                _ => false,
            }
        }),
{
    let n = cur.len();
    let eq = find_char(&cur, '=');
    proof {
        match eq {
            Some(e) => lemma_find_first_some(cur@, '=', e as int),
            None => lemma_find_first_none(cur@, '='),
        }
    }
    let key_len = match eq {
        Some(e) => e,
        None => n,
    };
    assert(part_key(cur@) =~= cur@.take(key_len as int));
    let is_rid = key_len == 4 && cur[0] == '$' && cur[1] == 'r' && cur[2] == 'i' && cur[3] == 'd';
    proof {
        if is_rid {
            assert(part_key(cur@) =~= rid_key());
        } else {
            assert(part_key(cur@) != rid_key());
        }
    }
    let value: Option<Vec<char>> = if is_rid {
        match eq {
            Some(e) => {
                let mut v: Vec<char> = Vec::new();
                let mut t: usize = e + 1;
                while t < n
                    invariant
                        n == cur@.len(),
                        e + 1 <= t <= n,
                        v@ == cur@.subrange(e + 1, t as int),
                    decreases n - t,
                {
                    v.push(cur[t]);
                    proof {
                        assert(cur@.subrange(e + 1, t + 1int) =~= cur@.subrange(
                            e + 1,
                            t as int,
                        ).push(cur@[t as int]));
                    }
                    t = t + 1;
                }
                assert(v@ =~= cur@.skip(e + 1));
                Some(v)
            },
            None => None,
        }
    } else {
        None
    };
    (key_len > 0, if is_rid { 1 } else { 0 }, value)
}

/// Scans the query characters from position `i` on, with `cur` holding the
/// characters of the part read so far; mirrors [`query_scan`], with the
/// `$rid` count saturated at two (only "none", "one" and "several" matter).
fn scan_query(q: &Vec<char>, i: usize, cur: Vec<char>) -> (r: (bool, u8, Option<Vec<char>>))
    requires
        i <= q@.len(),
    ensures
        ({
            let s = query_scan(q@.skip(i as int), cur@);
            &&& r.0 == s.0
            &&& if s.1 >= 2 {
                r.1 == 2
            } else {
                r.1 as int == s.1
            }
            &&& match (r.2, s.2) {
                (Some(v), Some(sv)) => v@ == sv,
                (None, None) => true,
                _ => false,
            }
        }),
    decreases q@.len() - i,
{
    if i == q.len() {
        assert(q@.skip(i as int) =~= Seq::<char>::empty());
        part_info_exec(cur)
    } else if q[i] == '&' {
        let a = part_info_exec(cur);
        let b = scan_query(q, i + 1, Vec::new());
        proof {
            assert(q@.skip(i as int).skip(1) =~= q@.skip(i + 1int));
            assert(q@.skip(i as int)[0] == q@[i as int]);
        }
        let count: u8 = if a.1 as u32 + b.1 as u32 >= 2 {
            2
        } else {
            a.1 + b.1
        };
        (a.0 && b.0, count, if a.2.is_some() { a.2 } else { b.2 })
    } else {
        let c = q[i];
        let mut cur2 = cur;
        cur2.push(c);
        proof {
            assert(q@.skip(i as int).skip(1) =~= q@.skip(i + 1int));
            assert(q@.skip(i as int)[0] == q@[i as int]);
        }
        scan_query(q, i + 1, cur2)
    }
}

/// Parses a direct-method topic into the method name and correlation id.
///
/// The method name may contain separator characters, so it runs up to the
/// *last* separator before the query; the query must be a well-formed
/// property list holding exactly one `$rid` with a value.  Every malformed
/// topic yields `None`: such a call is dropped and never answered.
pub fn parse_method_topic(topic: &str) -> (r: Option<ParsedMethodCall>)
    ensures
        match r {
            Some(p) => parse_method_topic_spec(topic@) == Some((p.method_name@, p.request_id@)),
            None => parse_method_topic_spec(topic@) is None,
        },
{
    let n = topic.unicode_len();
    let prefix = methods_prefix_str();
    proof {
        reveal_strlit("$iothub/methods/POST/");
    }
    if n < 21 {
        return None;
    }
    let mut i: usize = 0;
    while i < 21
        invariant
            21 <= n == topic@.len(),
            i <= 21,
            prefix@ == methods_prefix(),
            forall|j: int| 0 <= j < i ==> topic@[j] == methods_prefix()[j],
        decreases 21 - i,
    {
        if topic.get_char(i) != prefix.get_char(i) {
            assert(topic@.take(21) != methods_prefix()) by {
                assert(topic@.take(21)[i as int] != methods_prefix()[i as int]);
            }
            return None;
        }
        i = i + 1;
    }
    assert(topic@.take(21) =~= methods_prefix());
    let ghost rest = topic@.skip(21);
    proof {
        assert forall|j: int| 0 <= j < rest.len() implies rest[j] == topic@[21 + j] by {
            assert(rest[j] == topic@.skip(21)[j]);
        }
    }
    // The method name may contain separators: find the last one.
    let slash = rfind_slash_from(topic, 21);
    let s = match slash {
        Some(s) => s,
        None => {
            proof {
                assert forall|j: int| 0 <= j < rest.len() implies rest[j] != '/' by {
                    assert(rest[j] == topic@[21 + j]);
                }
                lemma_find_last_none(rest, '/');
            }
            return None;
        },
    };
    // topic[s] is the last separator.
    let ghost krel = s - 21;
    proof {
        assert(rest[krel as int] == topic@[s as int]);
        assert forall|j: int| krel < j < rest.len() implies rest[j] != '/' by {
            assert(rest[j] == topic@[21 + j]);
        }
        lemma_find_last_some(rest, '/', krel as int);
    }
    let ghost after = rest.skip(krel + 1);
    if s + 1 == n {
        // Nothing follows the separator: no query at all.
        assert(after.len() == 0);
        return None;
    }
    assert(after[0] == topic@[s + 1int]);
    if topic.get_char(s + 1) != '?' {
        return None;
    }
    let query = topic.substring_char(s + 2, n);
    assert(query@ =~= after.skip(1));
    let q_chars = str_to_chars(query);
    let (ok, count, rid) = scan_query(&q_chars, 0, Vec::new());
    proof {
        assert(q_chars@.skip(0) =~= q_chars@);
    }
    if !(ok && count == 1) {
        return None;
    }
    match rid {
        Some(v) => {
            let method_str = topic.substring_char(21, s);
            assert(method_str@ =~= rest.take(krel as int));
            let method_name = String::from_str(method_str);
            let request_id = chars_to_string(&v);
            Some(ParsedMethodCall { method_name, request_id })
        },
        None => None,
    }
}

/// The index of the last `/` at or after position `lo`, if any.
fn rfind_slash_from(s: &str, lo: usize) -> (r: Option<usize>)
    requires
        lo <= s@.len(),
    ensures
        match r {
            Some(j) => {
                &&& lo <= j
                &&& (j as int) < s@.len()
                &&& s@[j as int] == '/'
                &&& forall|t: int| j < t < s@.len() ==> s@[t] != '/'
            },
            None => forall|t: int| lo <= t < s@.len() ==> s@[t] != '/',
        },
{
    let n = s.unicode_len();
    let mut k: usize = n;
    while k > lo
        invariant
            lo <= k <= n,
            n == s@.len(),
            forall|t: int| k <= t < n ==> s@[t] != '/',
        decreases k,
    {
        if s.get_char(k - 1) == '/' {
            return Some(k - 1);
        }
        k = k - 1;
    }
    None
}

/// Law: for every method name, even one containing embedded separator
/// characters, parsing recovers the full method name by splitting at the
/// last separator, and the characters after it are validated as
/// query-style properties holding the correlation id.
///
/// Building the topic `<prefix><method>/?$rid=<id>` and parsing it back
/// yields exactly the original method name and correlation id, for any
/// method name at all and any correlation id free of `/` and `&`.
pub proof fn lemma_topic_round_trip(method: Seq<char>, rid: Seq<char>)
    requires
        forall|j: int| 0 <= j < rid.len() ==> rid[j] != '/' && rid[j] != '&',
    ensures
        parse_method_topic_spec(
            methods_prefix() + method + seq!['/', '?', '$', 'r', 'i', 'd', '='] + rid,
        ) == Some((method, rid)),
{
    let sep = seq!['/', '?', '$', 'r', 'i', 'd', '='];
    let topic = methods_prefix() + method + sep + rid;
    assert(topic.take(methods_prefix().len() as int) =~= methods_prefix());
    let rest = topic.skip(methods_prefix().len() as int);
    assert(rest =~= method + sep + rid);
    let k = method.len() as int;
    assert(rest[k] == '/');
    assert(forall|j: int| k < j < rest.len() ==> rest[j] != '/');
    lemma_find_last_some(rest, '/', k);
    assert(rest.take(k) =~= method);
    let after = rest.skip(k + 1);
    assert(after =~= seq!['?', '$', 'r', 'i', 'd', '='] + rid);
    assert(after[0] == '?');
    let qq = after.skip(1);
    assert(qq =~= seq!['$', 'r', 'i', 'd', '='] + rid);
    assert(forall|j: int| 0 <= j < qq.len() ==> qq[j] != '&');
    lemma_query_scan_single(qq, Seq::empty());
    assert(Seq::empty() + qq =~= qq);
    assert(forall|j: int| 0 <= j < 4 ==> qq[j] != '=');
    assert(qq[4] == '=');
    lemma_find_first_some(qq, '=', 4);
    assert(part_key(qq) =~= rid_key());
    assert(part_value(qq) == Some(qq.skip(5)));
    assert(qq.skip(5) =~= rid);
    assert(parse_query_rid(qq) == Some(rid));
}

/// Scanning a query that starts with the part `p` scans `p` as one part
/// and the remainder on its own.
proof fn lemma_query_scan_head(p: Seq<char>, q: Seq<char>, cur: Seq<char>)
    requires
        forall|j: int| 0 <= j < p.len() ==> p[j] != '&',
    ensures
        query_scan(p + seq!['&'] + q, cur) == ({
            let a = part_info(cur + p);
            let b = query_scan(q, Seq::empty());
            (a.0 && b.0, a.1 + b.1, if a.2 is Some { a.2 } else { b.2 })
        }),
    decreases p.len(),
{
    let whole = p + seq!['&'] + q;
    if p.len() == 0 {
        assert(whole[0] == '&');
        assert(whole.skip(1) =~= q);
        assert(cur + p =~= cur);
    } else {
        assert(whole[0] == p[0]);
        lemma_query_scan_head(p.skip(1), q, cur.push(p[0]));
        assert(whole.skip(1) =~= p.skip(1) + seq!['&'] + q);
        assert(cur.push(p[0]) + p.skip(1) =~= cur + p);
    }
}

/// Law: property order is irrelevant — a query of two properties parses
/// to the same correlation id whichever property comes first (in
/// particular, `$rid` is found wherever it stands, and two `$rid`
/// properties are rejected in either order).
pub proof fn lemma_query_order_irrelevant(p1: Seq<char>, p2: Seq<char>)
    requires
        forall|j: int| 0 <= j < p1.len() ==> p1[j] != '&',
        forall|j: int| 0 <= j < p2.len() ==> p2[j] != '&',
    ensures
        parse_query_rid(p1 + seq!['&'] + p2) == parse_query_rid(p2 + seq!['&'] + p1),
{
    lemma_query_scan_head(p1, p2, Seq::empty());
    lemma_query_scan_head(p2, p1, Seq::empty());
    lemma_query_scan_single(p1, Seq::empty());
    lemma_query_scan_single(p2, Seq::empty());
    assert(Seq::empty() + p1 =~= p1);
    assert(Seq::empty() + p2 =~= p2);
}

/// A query free of `&` is scanned as a single part, appended to whatever
/// was already read.
proof fn lemma_query_scan_single(p: Seq<char>, cur: Seq<char>)
    requires
        forall|j: int| 0 <= j < p.len() ==> p[j] != '&',
    ensures
        query_scan(p, cur) == part_info(cur + p),
    decreases p.len(),
{
    if p.len() == 0 {
        assert(cur + p =~= cur);
    } else {
        lemma_query_scan_single(p.skip(1), cur.push(p[0]));
        assert(cur.push(p[0]) + p.skip(1) =~= cur + p);
    }
}

} // verus!
