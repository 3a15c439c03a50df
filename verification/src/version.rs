//! Version gate: decides whether the host OS build is new enough to expose
//! the capture APIs this library depends on.
//!
//! The comparison is ordinary lexicographic ordering on the raw bytes of the
//! version string, not numeric field-by-field comparison; the minimum
//! constant therefore carries the exact trailing byte the host reports.

use vstd::prelude::*;
use crate::error::EnvError;

verus! {

/// Strict lexicographic order on byte sequences, as std orders `Vec<u8>`:
/// the first differing byte decides, and a proper prefix is smaller.
pub open spec fn lex_lt(a: Seq<u8>, b: Seq<u8>) -> bool
    decreases b.len(),
{
    if b.len() == 0 {
        false
    } else if a.len() == 0 {
        true
    } else if a[0] < b[0] {
        true
    } else if a[0] > b[0] {
        false
    } else {
        lex_lt(a.drop_first(), b.drop_first())
    }
}

/// `a` is at least `b` under raw lexicographic byte order.
pub open spec fn lex_ge(a: Seq<u8>, b: Seq<u8>) -> bool {
    !lex_lt(a, b)
}

/// The lexical order is reflexive in its non-strict form: every version —
/// the exact minimum included — counts as at least itself.
pub proof fn lemma_lex_ge_refl(a: Seq<u8>)
    ensures
        lex_ge(a, a),
    decreases a.len(),
{
    if a.len() > 0 {
        lemma_lex_ge_refl(a.drop_first());
    }
}

/// The minimum supported OS version, as the raw bytes of `"12.3\n"`: the
/// version service reports a trailing newline, and the comparison is over
/// raw bytes, so the constant carries that newline too.
pub open spec fn min_version_spec() -> Seq<u8> {
    seq![49u8, 50u8, 46u8, 51u8, 10u8]
}

/// The minimum supported OS version as a byte vector (the bytes of
/// `"12.3\n"`).
pub fn min_version() -> (v: Vec<u8>)
    ensures
        v@ == min_version_spec(),
{
    let v: Vec<u8> = vec![49u8, 50u8, 46u8, 51u8, 10u8];
    proof {
        assert(v@ =~= min_version_spec());
    }
    v
}

/// Compares two byte strings under raw lexicographic order.
fn bytes_ge(a: &Vec<u8>, b: &Vec<u8>) -> (r: bool)
    ensures
        r == lex_ge(a@, b@),
{
    let mut i: usize = 0;
    proof {
        assert(a@.skip(0) =~= a@);
        assert(b@.skip(0) =~= b@);
    }
    loop
        invariant
            i <= a.len(),
            i <= b.len(),
            lex_lt(a@, b@) == lex_lt(a@.skip(i as int), b@.skip(i as int)),
        decreases a.len() - i,
    {
        if i == b.len() {
            // `b` is exhausted: a suffix of `a` (possibly empty) remains,
            // so `a` is not smaller.
            return true;
        }
        if i == a.len() {
            // `a` is a proper prefix of `b`.
            return false;
        }
        let x = a[i];
        let y = b[i];
        if x < y {
            return false;
        }
        if x > y {
            return true;
        }
        proof {
            assert(a@.skip(i as int).drop_first() =~= a@.skip(i + 1));
            assert(b@.skip(i as int).drop_first() =~= b@.skip(i + 1));
        }
        i = i + 1;
    }
}

/// True iff the given host version bytes are at least the minimum supported
/// version under raw lexicographic byte comparison.
pub fn version_at_least(host: &Vec<u8>) -> (r: bool)
    ensures
        r == lex_ge(host@, min_version_spec()),
{
    let min = min_version();
    bytes_ge(host, &min)
}

/// Relies on sysinfo's `System::os_version`: reads the host OS version
/// string, `None` when it cannot be determined. The result depends on the
/// machine, so nothing is claimed of the value.
#[verifier::external_body]
fn query_os_version() -> (r: Option<String>) {
    sysinfo::System::os_version()
}

/// Whether the host OS build is new enough for capture: reads the host
/// version string and compares its raw bytes against the minimum. An
/// unreadable version is an environment fault, not a "no".
///
/// Whatever string the host reports, the answer is its raw-byte
/// lexicographic comparison against the minimum; that comparison itself is
/// the contract of [`version_at_least`].
pub fn is_supported() -> (r: Result<bool, EnvError>)
    ensures
        r matches Err(e) ==> e == EnvError::VersionUnreadable,
{
    match query_os_version() {
        None => Err(EnvError::VersionUnreadable),
        Some(v) => {
            let host = vstd::slice::slice_to_vec(v.as_str().as_bytes());
            Ok(version_at_least(&host))
        },
    }
}

} // verus!
