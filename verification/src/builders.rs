//! Builder constructs for request URLs.

use vstd::prelude::*;
use vstd::string::StringExecFns;

verus! {

/// The values joined with a comma, in order.
pub open spec fn spec_csv(values: Seq<Seq<char>>) -> Seq<char>
    decreases values.len(),
{
    if values.len() == 0 {
        Seq::<char>::empty()
    } else if values.len() == 1 {
        values[0]
    } else {
        spec_csv(values.drop_last()) + ","@ + values.last()
    }
}

/// One rendered query parameter: `key=value`.
pub open spec fn spec_param(p: (Seq<char>, Seq<char>)) -> Seq<char> {
    p.0 + "="@ + p.1
}

/// The rendered parameters joined with `&`, in insertion order.
pub open spec fn spec_params(ps: Seq<(Seq<char>, Seq<char>)>) -> Seq<char>
    decreases ps.len(),
{
    if ps.len() == 0 {
        Seq::<char>::empty()
    } else if ps.len() == 1 {
        spec_param(ps[0])
    } else {
        spec_params(ps.drop_last()) + "&"@ + spec_param(ps.last())
    }
}

/// The query string for a parameter list: empty for no parameters, else
/// a `?` followed by the rendered parameters.
pub open spec fn spec_query(ps: Seq<(Seq<char>, Seq<char>)>) -> Seq<char> {
    if ps.len() == 0 {
        Seq::<char>::empty()
    } else {
        "?"@ + spec_params(ps)
    }
}

/// The comma-joined rendering of an optional value list, as
/// [`ParamBuilder::with_comma_separated_values`] takes it.
pub open spec fn spec_csv_arg(values: Option<Vec<String>>) -> Option<Seq<char>> {
    match values {
        Some(vs) => Some(spec_csv(vs@.map_values(|s: String| s@))),
        None => None,
    }
}

/// The characters of an optional single value, as
/// [`ParamBuilder::with_value`] takes it.
pub open spec fn spec_value_arg(value: Option<String>) -> Option<Seq<char>> {
    match value {
        Some(v) => Some(v@),
        None => None,
    }
}

/// The parameter list with every pair named `key` removed, other pairs
/// kept in order.
pub open spec fn spec_remove_key(ps: Seq<(Seq<char>, Seq<char>)>, key: Seq<char>) -> Seq<
    (Seq<char>, Seq<char>),
>
    decreases ps.len(),
{
    if ps.len() == 0 {
        Seq::<(Seq<char>, Seq<char>)>::empty()
    } else {
        let rest = spec_remove_key(ps.drop_last(), key);
        if ps.last().0 == key {
            rest
        } else {
            rest.push(ps.last())
        }
    }
}

/// The parameter list after setting `key` to `value` when one is given:
/// a pair already named `key` is overwritten, so a key reaches the built
/// query at most once; a `None` changes nothing.
pub open spec fn spec_set_param(
    ps: Seq<(Seq<char>, Seq<char>)>,
    key: Seq<char>,
    value: Option<Seq<char>>,
) -> Seq<(Seq<char>, Seq<char>)> {
    match value {
        Some(v) => spec_remove_key(ps, key).push((key, v)),
        None => ps,
    }
}

/// A URL with its query string appended.
pub open spec fn spec_url_with_params(url: Seq<char>, ps: Seq<(Seq<char>, Seq<char>)>) -> Seq<
    char,
> {
    url + spec_query(ps)
}

/// **Param Builder** - Utility to help build the query parameters of GET
/// requests. Each call sets one parameter, overwriting a value the key
/// already had; [`ParamBuilder::build`] then renders the URL with each
/// key at most once, in the order the keys were last set.
pub struct ParamBuilder {
    /// The query parameters set so far, in order.
    pub params: Vec<(String, String)>,
    /// The URL the parameters will be appended to.
    pub url: String,
}

/// The characters of a parameter list.
pub open spec fn params_view(params: Seq<(String, String)>) -> Seq<(Seq<char>, Seq<char>)> {
    params.map_values(|p: (String, String)| (p.0@, p.1@))
}

impl View for ParamBuilder {
    type V = Seq<(Seq<char>, Seq<char>)>;

    open spec fn view(&self) -> Seq<(Seq<char>, Seq<char>)> {
        params_view(self.params@)
    }
}

/// Set `key` to `value` in a parameter list: any pair already named
/// `key` goes, and the new pair is appended.
#[verifier::loop_isolation(false)]
fn set_param(params: &mut Vec<(String, String)>, key: String, value: String)
    ensures
        params_view(final(params)@) == spec_remove_key(params_view(old(params)@), key@).push(
            (key@, value@),
        ),
{
    let ghost full = params_view(params@);
    let mut kept: Vec<(String, String)> = Vec::new();
    let mut i: usize = 0;
    proof {
        assert(full.take(0) =~= Seq::<(Seq<char>, Seq<char>)>::empty());
        assert(params_view(kept@) =~= spec_remove_key(full.take(0), key@));
    }
    while i < params.len()
        invariant
            i <= params@.len(),
            params_view(kept@) == spec_remove_key(full.take(i as int), key@),
        decreases params@.len() - i,
    {
        proof {
            assert(full.take(i as int + 1).drop_last() =~= full.take(i as int));
            assert(full.take(i as int + 1).last() == full[i as int]);
            assert(full[i as int] == (params@[i as int].0@, params@[i as int].1@));
        }
        if !(params[i].0 == key) {
            kept.push((params[i].0.clone(), params[i].1.clone()));
            proof {
                assert(params_view(kept@) =~= spec_remove_key(full.take(i as int + 1), key@));
            }
        }
        i = i + 1;
    }
    proof {
        assert(full.take(full.len() as int) =~= full);
    }
    let ghost removed = params_view(kept@);
    kept.push((key, value));
    proof {
        assert(params_view(kept@) =~= removed.push((key@, value@)));
    }
    *params = kept;
}

impl ParamBuilder {
    /// Create a new `ParamBuilder` object over a base URL.
    pub fn new(url: String) -> (r: Self)
        ensures
            r.url == url,
            r@ == Seq::<(Seq<char>, Seq<char>)>::empty(),
    {
        let r = Self { params: Vec::new(), url };
        proof {
            assert(r@ =~= Seq::<(Seq<char>, Seq<char>)>::empty());
        }
        r
    }

    /// Set the query parameter `key` to the given `values` joined with
    /// commas — or to nothing, when no values are given. A pair already
    /// named `key` is overwritten.
    #[verifier::loop_isolation(false)]
    pub fn with_comma_separated_values(&mut self, key: &str, values: Option<Vec<String>>)
        ensures
            final(self).url == old(self).url,
            final(self)@ == spec_set_param(old(self)@, key@, spec_csv_arg(values)),
    {
        if let Some(values) = values {
            let mut joined: String = String::new();
            let mut i: usize = 0;
            while i < values.len()
                invariant
                    i <= values@.len(),
                    joined@ == spec_csv(values@.map_values(|s: String| s@).take(i as int)),
                decreases values@.len() - i,
            {
                if i > 0 {
                    joined.append(",");
                }
                joined.append(values[i].as_str());
                proof {
                    let all = values@.map_values(|s: String| s@);
                    assert(all.take(i as int + 1).drop_last() =~= all.take(i as int));
                    assert(all.take(i as int + 1).last() == all[i as int]);
                }
                i = i + 1;
            }
            proof {
                let all = values@.map_values(|s: String| s@);
                assert(all.take(all.len() as int) =~= all);
            }
            set_param(&mut self.params, key.to_owned(), joined);
        }
    }

    /// Set the query parameter `key` to a single `value`, when one is
    /// given. A pair already named `key` is overwritten.
    pub fn with_value(&mut self, key: &str, value: Option<String>)
        ensures
            final(self).url == old(self).url,
            final(self)@ == spec_set_param(old(self)@, key@, spec_value_arg(value)),
    {
        if let Some(value) = value {
            set_param(&mut self.params, key.to_owned(), value);
        }
    }

    /// Render the URL with its *query parameters* appended, if any were
    /// set.
    #[verifier::loop_isolation(false)]
    pub fn build(&self) -> (r: String)
        ensures
            r@ == spec_url_with_params(self.url@, self@),
    {
        let mut out: String = self.url.clone();
        if self.params.len() == 0 {
            proof {
                assert(self.url@ + Seq::<char>::empty() =~= self.url@);
            }
            return out;
        }
        out.append("?");
        let mut i: usize = 0;
        while i < self.params.len()
            invariant
                i <= self@.len(),
                out@ == self.url@ + "?"@ + spec_params(self@.take(i as int)),
            decreases self@.len() - i,
        {
            if i > 0 {
                out.append("&");
            }
            out.append(self.params[i].0.as_str());
            out.append("=");
            out.append(self.params[i].1.as_str());
            proof {
                assert(self@.take(i as int + 1).drop_last() =~= self@.take(i as int));
                assert(self@.take(i as int + 1).last() == self@[i as int]);
                assert(self@[i as int] == (self.params@[i as int].0@, self.params@[i as int].1@));
                assert(out@ =~= self.url@ + "?"@ + spec_params(self@.take(i as int + 1)));
            }
            i = i + 1;
        }
        proof {
            assert(self@.take(self@.len() as int) =~= self@);
            assert(out@ =~= spec_url_with_params(self.url@, self@));
        }
        out
    }
}

} // verus!
