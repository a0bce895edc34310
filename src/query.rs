use vstd::prelude::*;

verus! {

/// The character of the decimal digit `d`, for `d < 10`.
pub open spec fn digit_char(d: nat) -> char {
    if d == 0 {
        '0'
    } else if d == 1 {
        '1'
    } else if d == 2 {
        '2'
    } else if d == 3 {
        '3'
    } else if d == 4 {
        '4'
    } else if d == 5 {
        '5'
    } else if d == 6 {
        '6'
    } else if d == 7 {
        '7'
    } else if d == 8 {
        '8'
    } else {
        '9'
    }
}

/// The decimal notation of `n`, without sign or leading zeros.
pub open spec fn decimal(n: nat) -> Seq<char>
    decreases n,
{
    if n < 10 {
        seq![digit_char(n)]
    } else {
        decimal(n / 10).push(digit_char(n % 10))
    }
}

/// The query parameter that carries one filter expression, unescaped.
pub open spec fn filter_param(filter: Seq<char>) -> Seq<char> {
    "q="@ + filter
}

/// The query parameter that caps the number of rows.
pub open spec fn limit_param(n: u32) -> Seq<char> {
    "limit="@ + decimal(n as nat)
}

/// The parameters of a filtered fetch: one `q=` per filter, in order, then
/// the limit when there is one.
pub open spec fn query_params(filters: Seq<Seq<char>>, limit: Option<u32>) -> Seq<Seq<char>> {
    let qs = filters.map_values(|f: Seq<char>| filter_param(f));
    match limit {
        Some(n) => qs.push(limit_param(n)),
        None => qs,
    }
}

/// The parameters separated by `&`.
pub open spec fn join_params(params: Seq<Seq<char>>) -> Seq<char>
    decreases params.len(),
{
    if params.len() == 0 {
        Seq::empty()
    } else if params.len() == 1 {
        params[0]
    } else {
        join_params(params.drop_last()) + "&"@ + params.last()
    }
}

/// `url` followed by `?` and the joined parameters, or `url` alone when
/// there are none.
pub open spec fn with_query(url: Seq<char>, params: Seq<Seq<char>>) -> Seq<char> {
    if params.len() == 0 {
        url
    } else {
        url + "?"@ + join_params(params)
    }
}

/// One more parameter adds `?` or `&` and the parameter at the end.
pub proof fn lemma_with_query_push(url: Seq<char>, params: Seq<Seq<char>>, p: Seq<char>)
    ensures
        with_query(url, params.push(p)) == (if params.len() == 0 {
            url + "?"@ + p
        } else {
            with_query(url, params) + "&"@ + p
        }),
{
    let ps = params.push(p);
    assert(ps.drop_last() =~= params);
    assert(ps.last() == p);
    if params.len() == 0 {
        assert(join_params(ps) == p);
    } else {
        assert(join_params(ps) == join_params(params) + "&"@ + p);
        assert(url + "?"@ + (join_params(params) + "&"@ + p) =~= url + "?"@ + join_params(params)
            + "&"@ + p);
    }
}

/// The text of the digit `d`.
fn digit_text(d: u32) -> (r: &'static str)
    requires
        d < 10,
    ensures
        r@ == seq![digit_char(d as nat)],
{
    proof {
        reveal_strlit("0");
        reveal_strlit("1");
        reveal_strlit("2");
        reveal_strlit("3");
        reveal_strlit("4");
        reveal_strlit("5");
        reveal_strlit("6");
        reveal_strlit("7");
        reveal_strlit("8");
        reveal_strlit("9");
    }
    match d {
        0 => "0",
        1 => "1",
        2 => "2",
        3 => "3",
        4 => "4",
        5 => "5",
        6 => "6",
        7 => "7",
        8 => "8",
        _ => "9",
    }
}

/// The decimal notation of `n`.
pub fn decimal_text(n: u32) -> (r: String)
    ensures
        r@ == decimal(n as nat),
    decreases n,
{
    let last = digit_text(n % 10);
    if n < 10 {
        String::from_str(last)
    } else {
        let mut s = decimal_text(n / 10);
        s.append(last);
        s
    }
}

/// Appends to `url` the query string of a filtered fetch: each filter as its
/// own `q=` parameter in the given order, then `limit=N` when a limit is
/// given. Nothing is appended, not even `?`, when there is no parameter.
/// Filters are copied verbatim, with no escaping.
pub fn append_query(url: &mut String, filters: &[String], limit: Option<u32>)
    ensures
        final(url)@ == with_query(old(url)@, query_params(filters.deep_view(), limit)),
{
    let ghost base = url@;
    let ghost fs = filters.deep_view();
    let mut i: usize = 0;
    while i < filters.len()
        invariant
            0 <= i <= filters.len(),
            fs == filters.deep_view(),
            url@ == with_query(base, query_params(fs.take(i as int), None)),
        decreases filters.len() - i,
    {
        let ghost prev = query_params(fs.take(i as int), None);
        proof {
            reveal_strlit("q=");
            reveal_strlit("?");
            reveal_strlit("&");
            assert(fs.take(i as int + 1) =~= fs.take(i as int).push(fs[i as int]));
            assert(query_params(fs.take(i as int + 1), None) =~= prev.push(
                filter_param(fs[i as int]),
            ));
            lemma_with_query_push(base, prev, filter_param(fs[i as int]));
        }
        if i == 0 {
            url.append("?");
        } else {
            url.append("&");
        }
        url.append("q=");
        url.append(filters[i].as_str());
        proof {
            assert(fs[i as int] == filters[i as int]@);
            if i == 0 {
                assert(url@ =~= base + "?"@ + filter_param(fs[i as int]));
            } else {
                assert(url@ =~= with_query(base, prev) + "&"@ + filter_param(fs[i as int]));
            }
        }
        i = i + 1;
    }
    assert(fs.take(fs.len() as int) =~= fs);
    if let Some(n) = limit {
        let ghost prev = query_params(fs, None);
        proof {
            reveal_strlit("limit=");
            reveal_strlit("?");
            reveal_strlit("&");
            lemma_with_query_push(base, prev, limit_param(n));
        }
        if filters.len() == 0 {
            url.append("?");
        } else {
            url.append("&");
        }
        url.append("limit=");
        let digits = decimal_text(n);
        url.append(digits.as_str());
        proof {
            if filters.len() == 0 {
                assert(url@ =~= base + "?"@ + limit_param(n));
            } else {
                assert(url@ =~= with_query(base, prev) + "&"@ + limit_param(n));
            }
        }
    }
}

} // verus!
