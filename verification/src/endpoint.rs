//! Where the prober sends its requests, and which model it names.
use vstd::prelude::*;

verus! {

/// `s` without its trailing `/` characters (all of them).
pub open spec fn spec_trim_trailing_slashes(s: Seq<char>) -> Seq<char>
    decreases s.len(),
{
    if s.len() > 0 && s.last() == '/' {
        spec_trim_trailing_slashes(s.drop_last())
    } else {
        s
    }
}

/// The URL of an API path under `base`: the base without trailing slashes,
/// then the path.
pub open spec fn spec_endpoint(base: Seq<char>, path: Seq<char>) -> Seq<char> {
    spec_trim_trailing_slashes(base) + path
}

/// The model named in requests: the one given, else `default`.
pub open spec fn spec_model_name(model: Option<Seq<char>>) -> Seq<char> {
    match model {
        Some(m) => m,
        None => "default"@,
    }
}

/// Removes every trailing `/` of `s` (as `str::trim_end_matches('/')`).
pub fn trim_trailing_slashes(s: &str) -> (res: &str)
    ensures
        res@ == spec_trim_trailing_slashes(s@),
{
    let mut n: usize = s.unicode_len();
    assert(s@.subrange(0, n as int) =~= s@);
    while n > 0 && s.get_char(n - 1) == '/'
        invariant
            n <= s@.len(),
            spec_trim_trailing_slashes(s@) == spec_trim_trailing_slashes(s@.subrange(0, n as int)),
        decreases n,
    {
        assert(s@.subrange(0, n as int).drop_last() =~= s@.subrange(0, n - 1));
        n = n - 1;
    }
    s.substring_char(0, n)
}

/// The model list endpoint under `base_url`.
pub fn models_url(base_url: &str) -> (url: String)
    ensures
        url@ == spec_endpoint(base_url@, "/models"@),
{
    let mut url = trim_trailing_slashes(base_url).to_owned();
    url.append("/models");
    url
}

/// The chat completion endpoint under `base_url`.
pub fn chat_completions_url(base_url: &str) -> (url: String)
    ensures
        url@ == spec_endpoint(base_url@, "/chat/completions"@),
{
    let mut url = trim_trailing_slashes(base_url).to_owned();
    url.append("/chat/completions");
    url
}

/// The model to probe: the one asked for on the command line wins over the
/// first model that the server lists.
pub fn select_model(model_override: Option<String>, listed: Option<String>) -> (res: Option<String>)
    ensures
        res == (match model_override {
            Some(m) => Some(m),
            None => listed,
        }),
{
    match model_override {
        Some(m) => Some(m),
        None => listed,
    }
}

/// The model name put in request bodies: the model if there is one, else `default`.
pub fn model_name_or_default(model: Option<&str>) -> (res: &str)
    ensures
        res@ == spec_model_name(match model {
            Some(m) => Some(m@),
            None => None,
        }),
        model matches Some(m) ==> res@ == m@,
        model is None ==> res@ == "default"@,
{
    match model {
        Some(m) => m,
        None => "default",
    }
}

/// `k` slash characters.
pub open spec fn slashes(k: nat) -> Seq<char> {
    Seq::new(k, |i: int| '/')
}

/// A base URL stripped of its trailing slashes ends in none.
pub proof fn lemma_trimmed_has_no_trailing_slash(s: Seq<char>)
    ensures
        spec_trim_trailing_slashes(s).len() == 0 || spec_trim_trailing_slashes(s).last() != '/',
    decreases s.len(),
{
    if s.len() > 0 && s.last() == '/' {
        lemma_trimmed_has_no_trailing_slash(s.drop_last());
    }
}

/// Stripping removes only slashes, and only at the end: the base is what is
/// kept followed by some number of `/`.
pub proof fn lemma_trim_keeps_prefix(s: Seq<char>)
    ensures
        exists|k: nat| s =~= spec_trim_trailing_slashes(s) + #[trigger] slashes(k),
    decreases s.len(),
{
    if s.len() > 0 && s.last() == '/' {
        lemma_trim_keeps_prefix(s.drop_last());
        let k: nat = choose|k: nat| s.drop_last() =~= spec_trim_trailing_slashes(s.drop_last()) + #[trigger] slashes(k);
        assert(slashes(k + 1) =~= slashes(k).push('/'));
        assert(s =~= s.drop_last().push('/'));
        assert(s =~= spec_trim_trailing_slashes(s) + slashes(k + 1));
    } else {
        assert(s =~= spec_trim_trailing_slashes(s) + slashes(0));
    }
}

/// Stripping twice strips nothing more.
pub proof fn lemma_trim_idempotent(s: Seq<char>)
    ensures
        spec_trim_trailing_slashes(spec_trim_trailing_slashes(s)) == spec_trim_trailing_slashes(s),
{
    lemma_trimmed_has_no_trailing_slash(s);
}

/// A base URL given with or without a trailing slash leads to the same endpoint.
pub proof fn lemma_endpoint_ignores_trailing_slash(base: Seq<char>, path: Seq<char>)
    ensures
        spec_endpoint(base.push('/'), path) == spec_endpoint(base, path),
{
    assert(base.push('/').drop_last() =~= base);
}

/// A known model is named as it is, whatever its text (a path such as
/// `qwen/qwen3.6-27b` included); only an unknown model is named `default`.
pub proof fn law_model_name(m: Seq<char>)
    ensures
        spec_model_name(Some(m)) == m,
        spec_model_name(None) == "default"@,
{
}

} // verus!
