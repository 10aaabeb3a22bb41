//! Checks that the conformance tests apply to decoded broker responses.
//!
//! Each check names the statement id of the specification it serves, so that
//! a failure report points at the statement that was violated.
use crate::packet_parser::ParsedProperties;
use crate::text::str_eq;
use vstd::prelude::*;

verus! {

/// `key` is one of `injected_keys`.
pub open spec fn is_injected(injected_keys: Seq<&str>, key: Seq<char>) -> bool {
    exists|j: int| 0 <= j < injected_keys.len() && #[trigger] injected_keys[j]@ == key
}

/// The user properties of `props`, in their order, without those whose key
/// the broker injects.
pub open spec fn without_injected(
    props: Seq<(Seq<char>, Seq<char>)>,
    injected_keys: Seq<&str>,
) -> Seq<(Seq<char>, Seq<char>)>
    decreases props.len(),
{
    if props.len() == 0 {
        Seq::empty()
    } else {
        let rest = without_injected(props.drop_last(), injected_keys);
        if is_injected(injected_keys, props.last().0) {
            rest
        } else {
            rest.push(props.last())
        }
    }
}

/// The text `{:?}` prints for a string with the characters `s`.
pub uninterp spec fn str_debug(s: Seq<char>) -> Seq<char>;

/// Formats `s` as `{:?}` does: calls `<str as core::fmt::Debug>::fmt`
/// through `format!`. Its output depends on the characters of `s` alone,
/// and the contract names it rather than describing it: how it quotes and
/// escapes is left unstated.
#[verifier::external_body]
fn debug_str(s: &str) -> (r: String)
    ensures
        r@ == str_debug(s@),
{
    format!("{s:?}")
}

/// `key` as `{:?}` prints it.
pub open spec fn quoted(key: Seq<char>) -> Seq<char> {
    str_debug(key)
}

/// The keys as `{:?}` prints them, separated by `", "`.
pub open spec fn quoted_keys(keys: Seq<&str>) -> Seq<char>
    decreases keys.len(),
{
    if keys.len() == 0 {
        Seq::empty()
    } else if keys.len() == 1 {
        quoted(keys[0]@)
    } else {
        quoted_keys(keys.drop_last()) + ", "@ + quoted(keys.last()@)
    }
}

/// The report of a user-property mismatch for statement `statement_id`.
pub open spec fn mismatch_message(statement_id: Seq<char>, injected_keys: Seq<&str>) -> Seq<char> {
    "["@ + statement_id + "] user properties (excluding injected ["@ + quoted_keys(injected_keys)
        + "]) mismatch"@
}

/// Whether `key` is one of `injected_keys`.
fn key_is_injected(injected_keys: &[&str], key: &str) -> (r: bool)
    ensures
        r == is_injected(injected_keys@, key@),
{
    let mut j: usize = 0;
    while j < injected_keys.len()
        invariant
            j <= injected_keys@.len(),
            forall|t: int| 0 <= t < j ==> injected_keys@[t]@ != key@,
        decreases injected_keys@.len() - j,
    {
        if str_eq(injected_keys[j], key) {
            return true;
        }
        j = j + 1;
    }
    false
}

/// Builds the report of a user-property mismatch.
fn build_mismatch_message(injected_keys: &[&str], statement_id: &str) -> (m: String)
    ensures
        m@ == mismatch_message(statement_id@, injected_keys@),
{
    let mut m = String::from_str("[");
    m.append(statement_id);
    m.append("] user properties (excluding injected [");
    let mut j: usize = 0;
    while j < injected_keys.len()
        invariant
            j <= injected_keys@.len(),
            m@ == "["@ + statement_id@ + "] user properties (excluding injected ["@ + quoted_keys(
                injected_keys@.subrange(0, j as int),
            ),
        decreases injected_keys@.len() - j,
    {
        proof {
            let pre = injected_keys@.subrange(0, j as int);
            let next = injected_keys@.subrange(0, j + 1);
            assert(next.drop_last() =~= pre);
            assert(next.last() == injected_keys@[j as int]);
            if j == 0 {
                assert(next.len() == 1);
            }
        }
        if j > 0 {
            m.append(", ");
        }
        let shown = debug_str(injected_keys[j]);
        m.append(shown.as_str());
        j = j + 1;
    }
    assert(injected_keys@.subrange(0, injected_keys@.len() as int) =~= injected_keys@);
    m.append("]) mismatch");
    m
}

/// Checks that the user properties in `actual`, apart from those whose key
/// is in `injected_keys`, are exactly `expected`, in the same order.
///
/// Brokers may add their own user properties (such as the sender's id) to
/// every PUBLISH they forward; the comparison tolerates those. On a mismatch
/// the error is a report that names `statement_id`.
pub fn expect_user_properties_subset(
    actual: &[(String, String)],
    expected: &[(String, String)],
    injected_keys: &[&str],
    statement_id: &str,
) -> (r: Result<(), String>)
    ensures
        r is Ok <==> without_injected(actual.deep_view(), injected_keys@) == expected.deep_view(),
        r matches Err(m) ==> m@ == mismatch_message(statement_id@, injected_keys@),
{
    let ghost av = actual.deep_view();
    let ghost ev = expected.deep_view();
    let mut i: usize = 0;
    let mut k: usize = 0;
    let mut same = true;
    while i < actual.len()
        invariant
            i <= actual@.len(),
            av == actual.deep_view(),
            ev == expected.deep_view(),
            av.len() == actual@.len(),
            ev.len() == expected@.len(),
            same ==> k <= ev.len() && without_injected(av.subrange(0, i as int), injected_keys@)
                == ev.subrange(0, k as int),
            !same ==> forall|n: int|
                n >= i ==> #[trigger] without_injected(av.subrange(0, n), injected_keys@)
                    != ev || n > av.len(),
        decreases actual@.len() - i,
    {
        proof {
            let pre = av.subrange(0, i as int);
            let next = av.subrange(0, i + 1);
            assert(next.drop_last() =~= pre);
            assert(next.last() == av[i as int]);
        }
        if same && !key_is_injected(injected_keys, actual[i].0.as_str()) {
            if k < expected.len() && actual[i].0 == expected[k].0 && actual[i].1 == expected[k].1 {
                proof {
                    assert(ev.subrange(0, k + 1) =~= ev.subrange(0, k as int).push(ev[k as int]));
                }
                k = k + 1;
            } else {
                proof {
                    lemma_prefix_mismatch_persists(av, injected_keys@, ev, i as int, k as int);
                }
                same = false;
            }
        }
        i = i + 1;
    }
    assert(av.subrange(0, av.len() as int) =~= av);
    if same && k == expected.len() {
        assert(ev.subrange(0, k as int) =~= ev);
        Ok(())
    } else {
        if same {
            assert(without_injected(av, injected_keys@).len() == k);
        }
        Err(build_mismatch_message(injected_keys, statement_id))
    }
}

/// Filtering a longer prefix only appends to the filtered shorter prefix.
proof fn lemma_without_injected_extends(
    props: Seq<(Seq<char>, Seq<char>)>,
    injected_keys: Seq<&str>,
    i: int,
    n: int,
)
    requires
        0 <= i <= n <= props.len(),
    ensures
        without_injected(props.subrange(0, i), injected_keys).is_prefix_of(
            without_injected(props.subrange(0, n), injected_keys),
        ),
    decreases n - i,
{
    if i < n {
        lemma_without_injected_extends(props, injected_keys, i, n - 1);
        let longer = props.subrange(0, n);
        assert(longer.drop_last() =~= props.subrange(0, n - 1));
    }
}

/// Once the kept property at `i` differs from the expected one at `k` (or
/// the expected list is used up), no longer prefix filters to `expected`.
proof fn lemma_prefix_mismatch_persists(
    av: Seq<(Seq<char>, Seq<char>)>,
    injected_keys: Seq<&str>,
    ev: Seq<(Seq<char>, Seq<char>)>,
    i: int,
    k: int,
)
    requires
        0 <= i < av.len(),
        0 <= k <= ev.len(),
        without_injected(av.subrange(0, i), injected_keys) == ev.subrange(0, k),
        !is_injected(injected_keys, av[i].0),
        k == ev.len() || av[i] != ev[k],
    ensures
        forall|n: int|
            n >= i + 1 ==> #[trigger] without_injected(av.subrange(0, n), injected_keys) != ev
                || n > av.len(),
{
    let next = av.subrange(0, i + 1);
    assert(next.drop_last() =~= av.subrange(0, i));
    assert(next.last() == av[i]);
    let f = without_injected(next, injected_keys);
    assert(f == ev.subrange(0, k).push(av[i]));
    assert forall|n: int| n >= i + 1 implies #[trigger] without_injected(
        av.subrange(0, n),
        injected_keys,
    ) != ev || n > av.len() by {
        if n <= av.len() && without_injected(av.subrange(0, n), injected_keys) == ev {
            lemma_without_injected_extends(av, injected_keys, i + 1, n);
            assert(f.len() <= ev.len());
            assert(f[k] == ev[k]);
        }
    }
}

/// Whether `props` holds the user property `(expected_key, expected_value)`.
pub fn user_properties_contain(
    props: &ParsedProperties,
    expected_key: &str,
    expected_value: &str,
) -> (r: bool)
    ensures
        r == exists|i: int|
            0 <= i < props@.user_properties.len() && #[trigger] props@.user_properties[i] == (
            expected_key@,
            expected_value@,
        ),
{
    let ghost uv = props@.user_properties;
    let mut i: usize = 0;
    while i < props.user_properties.len()
        invariant
            i <= props.user_properties@.len(),
            uv == props@.user_properties,
            uv.len() == props.user_properties@.len(),
            forall|t: int| 0 <= t < i ==> uv[t] != (expected_key@, expected_value@),
        decreases props.user_properties@.len() - i,
    {
        let (k, v) = &props.user_properties[i];
        if str_eq(k.as_str(), expected_key) && str_eq(v.as_str(), expected_value) {
            assert(uv[i as int] == (expected_key@, expected_value@));
            return true;
        }
        i = i + 1;
    }
    false
}

} // verus!
