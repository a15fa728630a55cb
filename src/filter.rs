//! Resolution of the diagnostic filter from the environment's value.
use tracing_subscriber::EnvFilter;
use vstd::prelude::*;
use vstd::string::StrSliceExecFns;

verus! {

/// The filter used when the environment holds none that parses: verbose
/// diagnostics for this service and for the HTTP transport layer.
pub const DEFAULT_FILTER: &'static str = "api=debug,tower_http=debug";

/// The default filter as a sequence of characters.
pub open spec fn default_filter() -> Seq<char> {
    "api=debug,tower_http=debug"@
}

/// Whether the filter parser accepts a string of directives.
pub uninterp spec fn filter_accepted(s: Seq<char>) -> bool;

/// The filter chosen from the environment's value and whether it parsed.
pub open spec fn chosen_filter(env: Option<Seq<char>>, accepted: bool) -> Seq<char> {
    match env {
        Some(s) => if accepted { s } else { default_filter() },
        None => default_filter(),
    }
}

/// Whether every character of `s` is ASCII.
pub open spec fn all_ascii(s: Seq<char>) -> bool {
    forall|k: int| 0 <= k < s.len() ==> (#[trigger] s[k] as u32) < 128
}

/// Whether position `k` of `s` starts one of its comma-separated pieces.
pub open spec fn piece_start(s: Seq<char>, k: int) -> bool {
    k == 0 || s[k - 1] == ','
}

/// Whether `c` has the Unicode `White_Space` property, the whitespace that
/// `str::trim` removes.
pub open spec fn white_space(c: char) -> bool {
    let u = c as u32;
    (0x9 <= u <= 0xd) || u == 0x20 || u == 0x85 || u == 0xa0 || u == 0x1680 || (0x2000 <= u
        <= 0x200a) || u == 0x2028 || u == 0x2029 || u == 0x202f || u == 0x205f || u == 0x3000
}

/// Whether no comma-separated piece of `s` starts with whitespace.
pub open spec fn pieces_start_bare(s: Seq<char>) -> bool {
    forall|k: int| 0 <= k < s.len() && piece_start(s, k) ==> !white_space(#[trigger] s[k])
}

/// Whether the filter parser can read `s` without slicing inside a
/// character. It finds positions in each piece with leading whitespace
/// trimmed and slices the untrimmed piece with them, which is safe when all
/// of `s` is ASCII or no piece starts with whitespace.
pub open spec fn parse_safe(s: Seq<char>) -> bool {
    all_ascii(s) || pieces_start_bare(s)
}

/// The filter resolved from the environment's value: a value the parser
/// cannot read safely counts as one that does not parse.
pub open spec fn resolved_filter(env: Option<Seq<char>>) -> Seq<char> {
    match env {
        Some(s) => chosen_filter(env, parse_safe(s) && filter_accepted(s)),
        None => default_filter(),
    }
}

/// The view of an optional string.
pub open spec fn opt_view(env: Option<String>) -> Option<Seq<char>> {
    match env {
        Some(s) => Some(s@),
        None => None,
    }
}

/// Relies on `tracing_subscriber::EnvFilter::try_new`: whether the directives
/// parse, which depends on the string alone; an empty string parses to an
/// empty filter. On a string that is not `parse_safe` it may panic.
#[verifier::external_body]
fn parses_as_filter(s: &str) -> (r: bool)
    requires
        parse_safe(s@),
    ensures
        r == filter_accepted(s@),
        s@.len() == 0 ==> r,
{
    EnvFilter::try_new(s).is_ok()
}

/// Tests `white_space` on a character.
fn is_white_space(c: char) -> (r: bool)
    ensures
        r == white_space(c),
{
    let u = c as u32;
    (0x9 <= u && u <= 0xd) || u == 0x20 || u == 0x85 || u == 0xa0 || u == 0x1680 || (0x2000 <= u
        && u <= 0x200a) || u == 0x2028 || u == 0x2029 || u == 0x202f || u == 0x205f || u == 0x3000
}

/// Tests `parse_safe` on a string.
fn is_parse_safe(s: &str) -> (r: bool)
    ensures
        r == parse_safe(s@),
{
    let n = s.unicode_len();
    let mut ascii = true;
    let mut bare = true;
    let mut i: usize = 0;
    while i < n
        invariant
            n == s@.len(),
            i <= n,
            ascii == (forall|k: int| 0 <= k < i ==> (#[trigger] s@[k] as u32) < 128),
            bare == (forall|k: int|
                0 <= k < i && piece_start(s@, k) ==> !white_space(#[trigger] s@[k])),
        decreases n - i,
    {
        let c = s.get_char(i);
        if c as u32 >= 128 {
            ascii = false;
        }
        let starts = i == 0 || s.get_char(i - 1) == ',';
        if starts && is_white_space(c) {
            bare = false;
        }
        i = i + 1;
    }
    ascii || bare
}

/// Picks the environment's value when the parser accepted it, else the
/// default filter.
pub fn select_filter(env: Option<String>, accepted: bool) -> (r: String)
    ensures
        r@ == chosen_filter(opt_view(env), accepted),
{
    match env {
        Some(s) => {
            if accepted {
                s
            } else {
                DEFAULT_FILTER.to_owned()
            }
        },
        None => DEFAULT_FILTER.to_owned(),
    }
}

/// Resolves the filter from the value of the log-filter environment
/// variable (`None` when it is unset): the value itself when it parses,
/// else the default filter. A value the parser cannot read safely is
/// treated as one that does not parse.
pub fn resolve_filter(env: Option<String>) -> (r: String)
    ensures
        r@ == resolved_filter(opt_view(env)),
{
    let accepted = match &env {
        Some(s) => {
            let s = s.as_str();
            if is_parse_safe(s) {
                parses_as_filter(s)
            } else {
                false
            }
        },
        None => false,
    };
    select_filter(env, accepted)
}

/// With the variable unset, the filter is exactly the default one.
pub proof fn lemma_unset_uses_default()
    ensures
        resolved_filter(None) == default_filter(),
        resolved_filter(None) == "api=debug,tower_http=debug"@,
{
}

/// A value that parses is used verbatim, overriding the default.
pub proof fn lemma_valid_used_verbatim(s: Seq<char>)
    requires
        filter_accepted(s),
        parse_safe(s),
    ensures
        resolved_filter(Some(s)) == s,
{
}

} // verus!
