//! Reading parameters from the query string of a request.

use vstd::prelude::*;
use crate::error::{AppError, AppErrorView, STATUS_BAD_REQUEST};
use crate::text::{debug_quoted, join_str, str_debug};

verus! {

/// The (name, value) pairs that the `url` crate's `form_urlencoded::parse`
/// reads from a query string, in order: `+` and percent escapes decoded.
pub uninterp spec fn urlencoded_pairs(query: Seq<char>) -> Seq<(Seq<char>, Seq<char>)>;

/// The views of a list of string pairs.
pub open spec fn pair_views(v: Seq<(String, String)>) -> Seq<(Seq<char>, Seq<char>)> {
    v.map_values(|p: (String, String)| (p.0@, p.1@))
}

/// The views of a list of strings.
pub open spec fn string_views(v: Seq<String>) -> Seq<Seq<char>> {
    v.map_values(|s: String| s@)
}

/// `url::form_urlencoded::parse(..).into_owned()`, collected. Claims that the
/// pairs are the crate's reading of the query, and that an empty query has
/// none (the parser stops at once on empty input).
#[verifier::external_body]
fn parse_query(query: &str) -> (r: Vec<(String, String)>)
    ensures
        pair_views(r@) == urlencoded_pairs(query@),
        query@.len() == 0 ==> r@.len() == 0,
{
    url::form_urlencoded::parse(query.as_bytes()).into_owned().collect()
}

/// The value of the last pair named `key`: the one a map built from the
/// pairs in order keeps.
pub open spec fn last_value(pairs: Seq<(Seq<char>, Seq<char>)>, key: Seq<char>) -> Option<
    Seq<char>,
>
    decreases pairs.len(),
{
    if pairs.len() == 0 {
        None
    } else if pairs.last().0 == key {
        Some(pairs.last().1)
    } else {
        last_value(pairs.drop_last(), key)
    }
}

/// The names of the pairs, each once, in the order they first appear.
pub open spec fn distinct_keys(pairs: Seq<(Seq<char>, Seq<char>)>) -> Seq<Seq<char>>
    decreases pairs.len(),
{
    if pairs.len() == 0 {
        Seq::empty()
    } else {
        let d = distinct_keys(pairs.drop_last());
        if d.contains(pairs.last().0) {
            d
        } else {
            d.push(pairs.last().0)
        }
    }
}

/// A name as the error lists it.
pub open spec fn quoted(s: Seq<char>) -> Seq<char> {
    str_debug(s)
}

/// The quoted names, joined by `, `.
pub open spec fn quoted_list(keys: Seq<Seq<char>>) -> Seq<char>
    decreases keys.len(),
{
    if keys.len() == 0 {
        Seq::empty()
    } else if keys.len() == 1 {
        quoted(keys[0])
    } else {
        quoted_list(keys.drop_last()) + ", "@ + quoted(keys.last())
    }
}

/// The error text for a parameter that the query lacks.
pub open spec fn missing_param_text(param: Seq<char>, pairs: Seq<(Seq<char>, Seq<char>)>) -> Seq<
    char,
> {
    "Missing '"@ + param + "' parameter in callback. Available params: ["@ + quoted_list(
        distinct_keys(pairs),
    ) + "]"@
}

/// The outcome of looking `param` up in `query`.
pub open spec fn query_param_outcome(query: Seq<char>, param: Seq<char>) -> Result<
    Seq<char>,
    AppErrorView,
> {
    match last_value(urlencoded_pairs(query), param) {
        Some(v) => Ok(v),
        None => Err(
            AppErrorView {
                message: missing_param_text(param, urlencoded_pairs(query)),
                status: STATUS_BAD_REQUEST,
            },
        ),
    }
}

/// The view of a looked-up parameter.
pub open spec fn param_result_view(r: Result<String, AppError>) -> Result<Seq<char>, AppErrorView> {
    match r {
        Ok(v) => Ok(v@),
        Err(e) => Err(e@),
    }
}

fn contains_string(v: &Vec<String>, s: &String) -> (r: bool)
    ensures
        r == string_views(v@).contains(s@),
{
    let n = v.len();
    let mut i: usize = 0;
    while i < n
        invariant
            n == v@.len(),
            i <= n,
            forall|j: int| 0 <= j < i ==> v@[j]@ != s@,
        decreases n - i,
    {
        if v[i] == *s {
            assert(string_views(v@)[i as int] == s@);
            return true;
        }
        i = i + 1;
    }
    proof {
        if string_views(v@).contains(s@) {
            let j = choose|j: int| 0 <= j < string_views(v@).len() && string_views(v@)[j] == s@;
            assert(v@[j]@ == s@);
        }
    }
    false
}

fn missing_param_error(param: &str, pairs: &Vec<(String, String)>) -> (e: AppError)
    ensures
        e@ == (AppErrorView {
            message: missing_param_text(param@, pair_views(pairs@)),
            status: STATUS_BAD_REQUEST,
        }),
{
    let ghost pv = pair_views(pairs@);
    let mut keys: Vec<String> = Vec::new();
    let n = pairs.len();
    let mut i: usize = 0;
    while i < n
        invariant
            n == pairs@.len(),
            pv == pair_views(pairs@),
            i <= n,
            string_views(keys@) == distinct_keys(pv.take(i as int)),
        decreases n - i,
    {
        let k = &pairs[i].0;
        let seen = contains_string(&keys, k);
        proof {
            let t = pv.take(i + 1);
            assert(t.drop_last() =~= pv.take(i as int));
            assert(t.last().0 == k@);
        }
        if !seen {
            keys.push(k.clone());
            assert(string_views(keys@) =~= distinct_keys(pv.take(i as int)).push(k@));
        }
        i = i + 1;
    }
    assert(pv.take(n as int) =~= pv);
    let ghost dk = distinct_keys(pv);
    let mut out = join_str("Missing '", param);
    out.append("' parameter in callback. Available params: [");
    let ghost head = out@;
    let m = keys.len();
    let mut j: usize = 0;
    while j < m
        invariant
            m == keys@.len(),
            string_views(keys@) == dk,
            j <= m,
            out@ == head + quoted_list(dk.take(j as int)),
        decreases m - j,
    {
        if j > 0 {
            out.append(", ");
        }
        let q = debug_quoted(keys[j].as_str());
        out.append(q.as_str());
        proof {
            let t = dk.take(j + 1);
            assert(t.drop_last() =~= dk.take(j as int));
            assert(t.last() == keys@[j as int]@);
            assert(out@ =~= head + quoted_list(t));
        }
        j = j + 1;
    }
    assert(dk.take(m as int) =~= dk);
    out.append("]");
    assert(out@ =~= missing_param_text(param@, pv));
    AppError { message: out, status: STATUS_BAD_REQUEST }
}

/// The value of `param` in `query`: the last pair of that name wins; a
/// missing name is a `400` error that lists the names present, each once, in
/// the order they first appear, as `Debug` prints texts.
pub fn get_query_param(query: &str, param: &str) -> (r: Result<String, AppError>)
    ensures
        param_result_view(r) == query_param_outcome(query@, param@),
{
    let pairs = parse_query(query);
    let ghost pv = pair_views(pairs@);
    let key = param.to_owned();
    let mut i: usize = pairs.len();
    assert(pv.take(i as int) =~= pv);
    while i > 0
        invariant
            i <= pairs@.len(),
            pv == pair_views(pairs@),
            pv == urlencoded_pairs(query@),
            key@ == param@,
            last_value(pv, param@) == last_value(pv.take(i as int), param@),
        decreases i,
    {
        proof {
            let t = pv.take(i as int);
            assert(t.drop_last() =~= pv.take(i - 1));
            assert(t.last() == pv[i - 1]);
            assert(pv[i - 1] == (pairs@[i - 1].0@, pairs@[i - 1].1@));
        }
        if pairs[i - 1].0 == key {
            let v = pairs[i - 1].1.clone();
            proof {
                let t = pv.take(i as int);
                assert(t.last().0 == param@);
                assert(last_value(t, param@) == Some(v@));
                assert(pv == urlencoded_pairs(query@));
            }
            return Ok(v);
        }
        i = i - 1;
    }
    assert(pv.take(0) =~= Seq::<(Seq<char>, Seq<char>)>::empty());
    Err(missing_param_error(param, &pairs))
}

} // verus!
