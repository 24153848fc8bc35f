//! Laws of the operators, stated over the context's view and proved.
use vstd::prelude::*;
use crate::context::{
    check_effect, eq_verdict, preimage_verdict, signature_inputs_spec, signature_verdict,
    ContextView,
};
use crate::hashing::{multihash_digest, multihash_parse};
use crate::pairs::lookup;
use crate::value::{as_bytes, ValueView};

verus! {

/// A check that succeeds pushes exactly one marker, a `Success` that carries
/// the count at that moment, and consumes exactly one witness.
pub proof fn successful_check(pre: ContextView, post: ContextView, verdict: Result<(), Seq<char>>, r: bool)
    requires
        check_effect(pre, post, verdict, r),
        r,
    ensures
        post.rstack.len() == pre.rstack.len() + 1,
        post.rstack.drop_last() == pre.rstack,
        post.rstack.last() == ValueView::Success(pre.check_count),
        post.check_count == pre.check_count,
        post.pstack.len() == pre.pstack.len() - 1,
{
    assert(post.rstack.drop_last() =~= pre.rstack);
}

/// A check that fails pushes exactly one marker, a `Failure`, counts one more
/// failed check and leaves the parameter stack as it was.
pub proof fn failed_check(pre: ContextView, post: ContextView, verdict: Result<(), Seq<char>>, r: bool)
    requires
        check_effect(pre, post, verdict, r),
        !r,
    ensures
        post.rstack.len() == pre.rstack.len() + 1,
        post.rstack.drop_last() == pre.rstack,
        post.rstack.last() is Failure,
        post.check_count == pre.check_count + 1,
        post.pstack == pre.pstack,
{
    assert(post.rstack.drop_last() =~= pre.rstack);
}

/// A check's outcome is a function of the state it starts from and what it
/// decided: two runs from the same state to the same verdict end in the same
/// state with the same result, so a lock tried twice on copies of one state
/// leaves the same marker on top.
pub proof fn check_is_determined(
    pre: ContextView,
    verdict: Result<(), Seq<char>>,
    post1: ContextView,
    r1: bool,
    post2: ContextView,
    r2: bool,
)
    requires
        check_effect(pre, post1, verdict, r1),
        check_effect(pre, post2, verdict, r2),
    ensures
        post1 == post2,
        r1 == r2,
{
}

/// One check that a lock makes, with its arguments; a signature check
/// carries what the verifier made of its material.
pub enum Check {
    Eq(Seq<char>),
    Preimage(Seq<char>),
    Signature(Seq<char>, Seq<char>, Result<(), Seq<char>>),
}

/// What `call` decides on the state `c`.
pub open spec fn verdict_of(c: ContextView, call: Check) -> Result<(), Seq<char>> {
    match call {
        Check::Eq(key) => eq_verdict(c, key),
        Check::Preimage(key) => preimage_verdict(c, key),
        Check::Signature(key, msg, verified) => signature_verdict(c, key, msg, verified),
    }
}

/// `states` and `results` are a run of the checks `calls`: each state comes
/// from the one before by the check at that position, which returned the
/// result at that position.
pub open spec fn is_run(states: Seq<ContextView>, calls: Seq<Check>, results: Seq<bool>) -> bool {
    &&& states.len() == calls.len() + 1
    &&& results.len() == calls.len()
    &&& forall|i: int|
        0 <= i < calls.len() ==> check_effect(
            #[trigger] states[i],
            states[i + 1],
            verdict_of(states[i], calls[i]),
            results[i],
        )
}

proof fn runs_agree_up_to(
    s1: Seq<ContextView>,
    r1: Seq<bool>,
    s2: Seq<ContextView>,
    r2: Seq<bool>,
    calls: Seq<Check>,
    n: int,
)
    requires
        is_run(s1, calls, r1),
        is_run(s2, calls, r2),
        s1[0] == s2[0],
        0 <= n <= calls.len(),
    ensures
        s1[n] == s2[n],
        forall|j: int| 0 <= j < n ==> r1[j] == r2[j],
    decreases n,
{
    if n > 0 {
        runs_agree_up_to(s1, r1, s2, r2, calls, n - 1);
        let k = n - 1;
        assert(check_effect(s1[k], s1[k + 1], verdict_of(s1[k], calls[k]), r1[k]));
        assert(check_effect(s2[k], s2[k + 1], verdict_of(s2[k], calls[k]), r2[k]));
        check_is_determined(s1[k], verdict_of(s1[k], calls[k]), s1[k + 1], r1[k], s2[k + 1], r2[k]);
    }
}

/// A lock tried twice from the same state, making the same checks, runs
/// through the same states with the same results, and so leaves the same
/// marker on top of the return stack.
pub proof fn lock_attempts_agree(
    s1: Seq<ContextView>,
    r1: Seq<bool>,
    s2: Seq<ContextView>,
    r2: Seq<bool>,
    calls: Seq<Check>,
)
    requires
        is_run(s1, calls, r1),
        is_run(s2, calls, r2),
        s1[0] == s2[0],
    ensures
        s1 == s2,
        r1 == r2,
        s1.last().rstack == s2.last().rstack,
{
    runs_agree_up_to(s1, r1, s2, r2, calls, calls.len() as int);
    assert forall|i: int| 0 <= i < s1.len() implies s1[i] == s2[i] by {
        runs_agree_up_to(s1, r1, s2, r2, calls, i);
    }
    assert(s1 =~= s2);
    assert(r1 =~= r2);
}

/// A witness whose bytes hash, under the code of the multihash stored under
/// `key`, to that multihash passes `check_preimage(key)`.
pub proof fn preimage_of_stored_hash_passes(
    c: ContextView,
    key: Seq<char>,
    hint: Seq<char>,
    stored: Seq<u8>,
    code: u64,
    digest: Seq<u8>,
    preimage: Seq<u8>,
)
    requires
        lookup(c.current, key) == Some(ValueView::Bin { hint, data: stored }),
        multihash_parse(stored) == Ok::<(u64, Seq<u8>), Seq<char>>((code, digest)),
        multihash_digest(code, preimage) == Ok::<Seq<u8>, Seq<char>>(digest),
        c.pstack.len() > 0,
        c.pstack.last() == (ValueView::Bin { hint: Seq::empty(), data: preimage }),
    ensures
        preimage_verdict(c, key) == Ok::<(), Seq<char>>(()),
{
}

/// With a public key under `key`, a message under `msg` in the proposed store
/// and a signature on top of the parameter stack that verifies,
/// `check_signature(key, msg)` passes.
pub proof fn valid_signature_passes(
    c: ContextView,
    key: Seq<char>,
    msg: Seq<char>,
    key_hint: Seq<char>,
    pubkey: Seq<u8>,
    sig_hint: Seq<char>,
    sig: Seq<u8>,
)
    requires
        lookup(c.current, key) == Some(ValueView::Bin { hint: key_hint, data: pubkey }),
        lookup(c.proposed, msg) is Some,
        as_bytes(lookup(c.proposed, msg)->Some_0) is Some,
        c.pstack.len() > 0,
        c.pstack.last() == (ValueView::Bin { hint: sig_hint, data: sig }),
    ensures
        signature_inputs_spec(c, key, msg) == Ok::<(Seq<u8>, Seq<u8>, Seq<u8>), Seq<char>>(
            (pubkey, as_bytes(lookup(c.proposed, msg)->Some_0)->Some_0, sig),
        ),
        signature_verdict(c, key, msg, Ok(())) == Ok::<(), Seq<char>>(()),
{
}

/// In `a || b || c` where `a` and `b` fail and `c` passes, the marker left
/// on top is `Success` with the count raised by two.
pub proof fn third_alternative_passes(
    s0: ContextView,
    s1: ContextView,
    s2: ContextView,
    s3: ContextView,
    va: Result<(), Seq<char>>,
    vb: Result<(), Seq<char>>,
    vc: Result<(), Seq<char>>,
)
    requires
        check_effect(s0, s1, va, false),
        check_effect(s1, s2, vb, false),
        check_effect(s2, s3, vc, true),
    ensures
        s3.rstack.last() == ValueView::Success((s0.check_count + 2) as usize),
        s3.rstack.len() == s0.rstack.len() + 3,
        s3.check_count == s0.check_count + 2,
{
}

} // verus!
