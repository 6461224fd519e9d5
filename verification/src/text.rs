//! Character-level helpers shared by the configuration and SQL code:
//! the Unicode whitespace model behind `str::trim`, prefix tests, and the
//! endpoint rewriting used for the legacy configuration block.
use vstd::prelude::*;

verus! {

/// The Unicode `White_Space` property, the notion of whitespace that
/// `char::is_whitespace` and `str::trim` use.
pub open spec fn is_white_space(c: char) -> bool {
    let u = c as u32;
    ||| 0x09 <= u <= 0x0D
    ||| u == 0x20
    ||| u == 0x85
    ||| u == 0xA0
    ||| u == 0x1680
    ||| 0x2000 <= u <= 0x200A
    ||| u == 0x2028
    ||| u == 0x2029
    ||| u == 0x202F
    ||| u == 0x205F
    ||| u == 0x3000
}

/// `s` without its leading whitespace.
pub open spec fn trim_start_view(s: Seq<char>) -> Seq<char>
    decreases s.len(),
{
    if s.len() > 0 && is_white_space(s[0]) {
        trim_start_view(s.drop_first())
    } else {
        s
    }
}

/// `s` without its trailing whitespace.
pub open spec fn trim_end_view(s: Seq<char>) -> Seq<char>
    decreases s.len(),
{
    if s.len() > 0 && is_white_space(s.last()) {
        trim_end_view(s.drop_last())
    } else {
        s
    }
}

/// `s` without leading and trailing whitespace.
pub open spec fn trim_view(s: Seq<char>) -> Seq<char> {
    trim_end_view(trim_start_view(s))
}

/// Every character of `s` is whitespace (the empty sequence included).
pub open spec fn is_blank(s: Seq<char>) -> bool {
    forall|i: int| 0 <= i < s.len() ==> is_white_space(#[trigger] s[i])
}

/// `s` begins with `prefix`.
pub open spec fn has_prefix(s: Seq<char>, prefix: Seq<char>) -> bool {
    prefix.len() <= s.len() && s.subrange(0, prefix.len() as int) =~= prefix
}

proof fn lemma_trim_end_empty_iff_blank(s: Seq<char>)
    ensures
        trim_end_view(s).len() == 0 <==> is_blank(s),
    decreases s.len(),
{
    if s.len() > 0 && is_white_space(s.last()) {
        lemma_trim_end_empty_iff_blank(s.drop_last());
        if is_blank(s.drop_last()) {
            assert forall|i: int| 0 <= i < s.len() implies is_white_space(#[trigger] s[i]) by {
                if i < s.len() - 1 {
                    assert(s[i] == s.drop_last()[i]);
                }
            }
        }
        if is_blank(s) {
            assert forall|i: int| 0 <= i < s.drop_last().len() implies is_white_space(
                #[trigger] s.drop_last()[i],
            ) by {
                assert(s.drop_last()[i] == s[i]);
            }
        }
    } else if s.len() > 0 {
        assert(!is_white_space(s[s.len() - 1]));
    }
}

/// Trimming leaves nothing exactly when the text consists of whitespace only.
pub proof fn lemma_trim_empty_iff_blank(s: Seq<char>)
    ensures
        trim_view(s).len() == 0 <==> is_blank(s),
    decreases s.len(),
{
    if s.len() > 0 && is_white_space(s[0]) {
        lemma_trim_empty_iff_blank(s.drop_first());
        assert(trim_view(s) == trim_view(s.drop_first()));
        if is_blank(s.drop_first()) {
            assert forall|i: int| 0 <= i < s.len() implies is_white_space(#[trigger] s[i]) by {
                if i > 0 {
                    assert(s[i] == s.drop_first()[i - 1]);
                }
            }
        }
        if is_blank(s) {
            assert forall|i: int| 0 <= i < s.drop_first().len() implies is_white_space(
                #[trigger] s.drop_first()[i],
            ) by {
                assert(s.drop_first()[i] == s[i + 1]);
            }
        }
    } else {
        assert(trim_start_view(s) == s);
        lemma_trim_end_empty_iff_blank(s);
    }
}

/// Calls `str::trim`, which removes leading and trailing characters that
/// have the Unicode `White_Space` property and returns the rest as a
/// subslice.
#[verifier::external_body]
fn str_trim(s: &str) -> (r: &str)
    ensures
        r@ == trim_view(s@),
{
    s.trim()
}

/// Whether `s` is empty once leading and trailing whitespace are removed.
pub fn is_blank_str(s: &str) -> (b: bool)
    ensures
        b == is_blank(s@),
        b == (trim_view(s@).len() == 0),
{
    let t = str_trim(s);
    proof {
        lemma_trim_empty_iff_blank(s@);
    }
    t.is_empty()
}

/// Whether `s` begins with `prefix`.
pub fn starts_with(s: &str, prefix: &str) -> (b: bool)
    ensures
        b == has_prefix(s@, prefix@),
{
    let n = s.unicode_len();
    let m = prefix.unicode_len();
    if m > n {
        return false;
    }
    let mut i: usize = 0;
    while i < m
        invariant
            m == prefix@.len(),
            n == s@.len(),
            m <= n,
            i <= m,
            forall|j: int| 0 <= j < i ==> s@[j] == prefix@[j],
        decreases m - i,
    {
        if s.get_char(i) != prefix.get_char(i) {
            assert(s@.subrange(0, m as int)[i as int] != prefix@[i as int]);
            return false;
        }
        i = i + 1;
    }
    true
}

/// The endpoint rewriting of the legacy configuration block: a `tcp://`
/// endpoint becomes the same address under `http://`; any other text is
/// kept as it is.
pub open spec fn normalized_url(endpoint: Seq<char>) -> Seq<char> {
    if has_prefix(endpoint, "tcp://"@) {
        "http://"@ + endpoint.subrange("tcp://"@.len() as int, endpoint.len() as int)
    } else {
        endpoint
    }
}

/// Rewrites a ClickHouse endpoint given as `tcp://host:port` into the HTTP
/// form `http://host:port`; other endpoints are returned unchanged.
pub fn normalize_clickhouse_url(endpoint: &str) -> (url: String)
    ensures
        url@ == normalized_url(endpoint@),
{
    if starts_with(endpoint, "tcp://") {
        proof {
            reveal_strlit("tcp://");
        }
        let rest = endpoint.substring_char(6, endpoint.unicode_len());
        String::from_str("http://").concat(rest)
    } else {
        String::from_str(endpoint)
    }
}

/// Only a leading `tcp://` is rewritten: such an endpoint becomes `http://`
/// followed by everything after `tcp://` (one character longer); any other
/// endpoint is left as it is.
pub proof fn lemma_normalize_rewrites_tcp_prefix(endpoint: Seq<char>)
    ensures
        has_prefix(endpoint, "tcp://"@) ==> {
            &&& has_prefix(normalized_url(endpoint), "http://"@)
            &&& normalized_url(endpoint).len() == endpoint.len() + 1
            &&& forall|i: int|
                6 <= i < endpoint.len() ==> #[trigger] normalized_url(endpoint)[i + 1]
                    == endpoint[i]
        },
        !has_prefix(endpoint, "tcp://"@) ==> normalized_url(endpoint) == endpoint,
{
    reveal_strlit("tcp://");
    reveal_strlit("http://");
    if has_prefix(endpoint, "tcp://"@) {
        let out = normalized_url(endpoint);
        assert(out.subrange(0, 7) =~= "http://"@);
    }
}

/// Normalizing an endpoint a second time changes nothing.
pub proof fn lemma_normalize_idempotent(endpoint: Seq<char>)
    ensures
        normalized_url(normalized_url(endpoint)) == normalized_url(endpoint),
{
    reveal_strlit("tcp://");
    reveal_strlit("http://");
    let once = normalized_url(endpoint);
    if has_prefix(endpoint, "tcp://"@) {
        assert(once[0] == 'h');
        assert(once.subrange(0, 6)[0] == 'h');
        assert(!has_prefix(once, "tcp://"@));
    }
}

} // verus!
