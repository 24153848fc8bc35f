//! The evaluation context and the operators that scripts call on it.
use vstd::prelude::*;
use crate::hashing::{digest_with, multihash_digest, multihash_parse, parse_multihash};
use crate::pairs::{lookup, Pairable, Pairs};
use crate::stack::Stk;
use crate::value::{as_bytes, Value, ValueView};

verus! {

/// The mathematical value of a [`Context`].
pub struct ContextView {
    pub current: Map<Seq<char>, ValueView>,
    pub proposed: Map<Seq<char>, ValueView>,
    pub check_count: usize,
    pub rstack: Seq<ValueView>,
    pub pstack: Seq<ValueView>,
    pub domain: Seq<char>,
}

/// The state that scripts work on: the policy store, the candidate store, the
/// parameter and return stacks, the count of failed checks and the prefix of
/// branch keys.
pub struct Context<P: Pairable> {
    /// The store whose rules a lock enforces.
    pub current: P,
    /// The candidate store whose witnesses and messages an unlock exposes.
    pub proposed: P,
    /// The number of checks that failed so far.
    pub check_count: usize,
    /// The return stack: one marker for each check.
    pub rstack: Stk,
    /// The parameter stack: the witnesses that checks consume.
    pub pstack: Stk,
    /// The prefix that `branch` puts before a key.
    pub domain: String,
}

impl<P: Pairable> View for Context<P> {
    type V = ContextView;

    open spec fn view(&self) -> ContextView {
        ContextView {
            current: self.current.pairs(),
            proposed: self.proposed.pairs(),
            check_count: self.check_count,
            rstack: self.rstack@,
            pstack: self.pstack@,
            domain: self.domain@,
        }
    }
}

/// `post` is `pre` after a check that came to `verdict` and returned `r`: on
/// success the witness on top of the parameter stack is consumed and a
/// `Success` with the count is pushed; on failure the count goes up by one
/// and a `Failure` with the cause is pushed. The stores and the domain stay.
pub open spec fn check_effect(
    pre: ContextView,
    post: ContextView,
    verdict: Result<(), Seq<char>>,
    r: bool,
) -> bool {
    &&& post.current == pre.current
    &&& post.proposed == pre.proposed
    &&& post.domain == pre.domain
    &&& match verdict {
        Ok(_) => {
            &&& r
            &&& pre.pstack.len() > 0
            &&& post.check_count == pre.check_count
            &&& post.pstack == pre.pstack.drop_last()
            &&& post.rstack == pre.rstack.push(ValueView::Success(pre.check_count))
        },
        Err(e) => {
            &&& !r
            &&& post.check_count == pre.check_count + 1
            &&& post.pstack == pre.pstack
            &&& post.rstack == pre.rstack.push(ValueView::Failure(e))
        },
    }
}

/// What `check_eq(key)` decides.
pub open spec fn eq_verdict(c: ContextView, key: Seq<char>) -> Result<(), Seq<char>> {
    match lookup(c.current, key) {
        Some(v) if as_bytes(v) is Some => {
            if c.pstack.len() == 0 {
                Err("not enough parameters on the stack for check_eq: 0"@)
            } else {
                match as_bytes(c.pstack.last()) {
                    Some(b) => if b == as_bytes(v)->Some_0 {
                        Ok(())
                    } else {
                        Err("values don't match"@)
                    },
                    None => Err("no value on the stack"@),
                }
            }
        },
        _ => Err("kvp missing key: "@ + key),
    }
}

/// What a preimage check decides once the witness has been hashed: the
/// hashing's error, or whether the digest is the stored one.
pub open spec fn preimage_settlement(stored: Seq<u8>, computed: Result<Seq<u8>, Seq<char>>) -> Result<
    (),
    Seq<char>,
> {
    match computed {
        Err(e) => Err(e),
        Ok(d) => if d == stored {
            Ok(())
        } else {
            Err("preimage doesn't match"@)
        },
    }
}

/// What `check_preimage(key)` decides.
pub open spec fn preimage_verdict(c: ContextView, key: Seq<char>) -> Result<(), Seq<char>> {
    match lookup(c.current, key) {
        Some(ValueView::Bin { data, .. }) => match multihash_parse(data) {
            Err(e) => Err(e),
            Ok((code, digest)) => if c.pstack.len() == 0 {
                Err("not enough parameters on the stack for check_preimage: 0"@)
            } else {
                match as_bytes(c.pstack.last()) {
                    None => Err("no multihash data on stack"@),
                    Some(pre) => preimage_settlement(digest, multihash_digest(code, pre)),
                }
            },
        },
        Some(_) => Err("unexpected value type associated with "@ + key),
        None => Err("kvp missing key: "@ + key),
    }
}

/// The material of `check_signature(key, msg)`: the encoded public key under
/// `key` in the current store, the message under `msg` in the proposed store
/// and the encoded signature on top of the parameter stack; or why there is
/// none.
pub open spec fn signature_inputs_spec(c: ContextView, key: Seq<char>, msg: Seq<char>) -> Result<
    (Seq<u8>, Seq<u8>, Seq<u8>),
    Seq<char>,
> {
    match lookup(c.current, key) {
        None => Err("no multikey associated with "@ + key),
        Some(ValueView::Bin { data: pk, .. }) => match lookup(c.proposed, msg) {
            None => Err("no message associated with "@ + msg),
            Some(m) => match as_bytes(m) {
                None => Err("unexpected value type associated with "@ + msg),
                Some(mb) => if c.pstack.len() == 0 {
                    Err(
                        "not enough parameters (0) on the stack for check_signature ("@ + key
                            + ", "@ + msg + ")"@,
                    )
                } else {
                    match c.pstack.last() {
                        ValueView::Bin { data: sig, .. } => Ok((pk, mb, sig)),
                        _ => Err("no multisig on stack"@),
                    }
                },
            },
        },
        Some(_) => Err("unexpected value type associated with "@ + key),
    }
}

/// What `check_signature(key, msg, verdict)` decides, where `verdict` is the
/// outcome of decoding and verifying the material.
pub open spec fn signature_verdict(
    c: ContextView,
    key: Seq<char>,
    msg: Seq<char>,
    verdict: Result<(), Seq<char>>,
) -> Result<(), Seq<char>> {
    match signature_inputs_spec(c, key, msg) {
        Err(e) => Err(e),
        Ok(_) => verdict,
    }
}

/// The view of a verification outcome.
pub open spec fn outcome_view(v: Result<(), String>) -> Result<(), Seq<char>> {
    match v {
        Ok(_) => Ok(()),
        Err(e) => Err(e@),
    }
}

/// `prefix` followed by `tail`.
fn joined(prefix: &str, tail: &str) -> (r: String)
    ensures
        r@ == prefix@ + tail@,
{
    let mut s = String::from_str(prefix);
    s.append(tail);
    s
}

/// Whether two byte strings are equal.
fn same_bytes(a: &Vec<u8>, b: &Vec<u8>) -> (r: bool)
    ensures
        r == (a@ == b@),
{
    if a.len() != b.len() {
        return false;
    }
    let mut i: usize = 0;
    while i < a.len()
        invariant
            i <= a@.len(),
            a@.len() == b@.len(),
            forall|j: int| 0 <= j < i ==> a@[j] == b@[j],
        decreases a.len() - i,
    {
        if a[i] != b[i] {
            return false;
        }
        i = i + 1;
    }
    assert(a@ =~= b@);
    true
}

impl<P: Pairable> Clone for Context<P> {
    fn clone(&self) -> (r: Self)
        ensures
            r@ == self@,
    {
        Context {
            current: self.current.duplicate(),
            proposed: self.proposed.duplicate(),
            check_count: self.check_count,
            rstack: self.rstack.clone(),
            pstack: self.pstack.clone(),
            domain: self.domain.clone(),
        }
    }
}

impl<P: Pairable> Context<P> {
    /// A context over the two stores, with empty stacks, a zero count and the
    /// domain `/`.
    pub fn new(current: P, proposed: P) -> (r: Self)
        ensures
            r@ == (ContextView {
                current: current.pairs(),
                proposed: proposed.pairs(),
                check_count: 0,
                rstack: Seq::empty(),
                pstack: Seq::empty(),
                domain: "/"@,
            }),
    {
        Context {
            current,
            proposed,
            check_count: 0,
            rstack: Stk::new(),
            pstack: Stk::new(),
            domain: String::from_str("/"),
        }
    }

    /// Ends a check that succeeded: pops its witness and pushes a `Success`.
    fn pass_check(&mut self) -> (r: bool)
        requires
            old(self)@.pstack.len() > 0,
        ensures
            check_effect(old(self)@, final(self)@, Ok(()), r),
    {
        let _ = self.pstack.pop();
        self.succeed()
    }

    /// Counts a failed check and pushes a `Failure` with `err`.
    pub fn check_fail(&mut self, err: &str) -> (r: bool)
        requires
            old(self).check_count < usize::MAX,
        ensures
            check_effect(old(self)@, final(self)@, Err(err@), r),
    {
        self.check_count = self.check_count + 1;
        self.fail(err)
    }

    /// Pushes a `Failure` with `err`; the count stays.
    pub fn fail(&mut self, err: &str) -> (r: bool)
        ensures
            !r,
            final(self)@ == (ContextView {
                rstack: old(self)@.rstack.push(ValueView::Failure(err@)),
                ..old(self)@
            }),
    {
        self.rstack.push(Value::Failure(String::from_str(err)));
        false
    }

    /// Pushes a `Success` that carries the count.
    pub fn succeed(&mut self) -> (r: bool)
        ensures
            r,
            final(self)@ == (ContextView {
                rstack: old(self)@.rstack.push(ValueView::Success(old(self).check_count)),
                ..old(self)@
            }),
    {
        self.rstack.push(Value::Success(self.check_count));
        true
    }

    /// Pushes the value under `key` in the current store onto the parameter
    /// stack; where there is none, pushes a `Failure` instead, without
    /// counting it.
    pub fn push(&mut self, key: &str) -> (r: bool)
        ensures
            r == lookup(old(self)@.current, key@) is Some,
            match lookup(old(self)@.current, key@) {
                Some(v) => final(self)@ == (ContextView {
                    pstack: old(self)@.pstack.push(v),
                    ..old(self)@
                }),
                None => final(self)@ == (ContextView {
                    rstack: old(self)@.rstack.push(ValueView::Failure("kvp missing key: "@ + key@)),
                    ..old(self)@
                }),
            },
    {
        match self.current.get(key) {
            Some(v) => {
                self.pstack.push(v);
                true
            },
            None => {
                let msg = joined("kvp missing key: ", key);
                self.fail(msg.as_str())
            },
        }
    }

    /// The key `key` under the domain: the two texts one after the other.
    pub fn branch(&self, key: &str) -> (r: String)
        ensures
            r@ == self.domain@ + key@,
    {
        let mut s = self.domain.clone();
        s.append(key);
        s
    }

    /// Checks that the witness on top of the parameter stack has the same
    /// bytes as the value under `key` in the current store.
    pub fn check_eq(&mut self, key: &str) -> (r: bool)
        requires
            old(self).check_count < usize::MAX,
        ensures
            check_effect(old(self)@, final(self)@, eq_verdict(old(self)@, key@), r),
    {
        let value = match self.current.get(key) {
            Some(v) => v.to_bytes(),
            None => None,
        };
        let value = match value {
            Some(b) => b,
            None => {
                let msg = joined("kvp missing key: ", key);
                return self.check_fail(msg.as_str());
            },
        };
        if self.pstack.is_empty() {
            return self.check_fail("not enough parameters on the stack for check_eq: 0");
        }
        let top = self.pstack.top();
        let stack_value = match top {
            Some(v) => v.to_bytes(),
            None => None,
        };
        let stack_value = match stack_value {
            Some(b) => b,
            None => {
                return self.check_fail("no value on the stack");
            },
        };
        if same_bytes(&value, &stack_value) {
            self.pass_check()
        } else {
            self.check_fail("values don't match")
        }
    }

    /// Checks that the witness on top of the parameter stack hashes, under
    /// the code of the multihash stored under `key` in the current store, to
    /// that multihash.
    pub fn check_preimage(&mut self, key: String) -> (r: bool)
        requires
            old(self).check_count < usize::MAX,
        ensures
            check_effect(old(self)@, final(self)@, preimage_verdict(old(self)@, key@), r),
    {
        let key = key.as_str();
        let stored = self.current.get(key);
        let (code, digest) = match stored {
            Some(Value::Bin { data, .. }) => match parse_multihash(data.as_slice()) {
                Ok(h) => h,
                Err(e) => {
                    return self.check_fail(e.as_str());
                },
            },
            Some(_) => {
                let msg = joined("unexpected value type associated with ", key);
                return self.check_fail(msg.as_str());
            },
            None => {
                let msg = joined("kvp missing key: ", key);
                return self.check_fail(msg.as_str());
            },
        };
        if self.pstack.len() < 1 {
            return self.check_fail("not enough parameters on the stack for check_preimage: 0");
        }
        let top = self.pstack.top();
        let preimage = match top {
            Some(v) => v.to_bytes(),
            None => None,
        };
        let preimage = match preimage {
            Some(b) => b,
            None => {
                return self.check_fail("no multihash data on stack");
            },
        };
        let computed = digest_with(code, preimage.as_slice());
        self.settle_preimage(&digest, computed)
    }

    /// Ends a preimage check whose witness, on top of the parameter stack,
    /// hashed to `computed` (or failed to hash), where `stored` is the digest
    /// of the multihash that the check is against.
    pub fn settle_preimage(&mut self, stored: &Vec<u8>, computed: Result<Vec<u8>, String>) -> (r:
        bool)
        requires
            old(self).check_count < usize::MAX,
            old(self)@.pstack.len() > 0,
        ensures
            check_effect(
                old(self)@,
                final(self)@,
                preimage_settlement(
                    stored@,
                    match computed {
                        Ok(d) => Ok::<Seq<u8>, Seq<char>>(d@),
                        Err(e) => Err::<Seq<u8>, Seq<char>>(e@),
                    },
                ),
                r,
            ),
    {
        match computed {
            Err(e) => self.check_fail(e.as_str()),
            Ok(d) => if same_bytes(stored, &d) {
                self.pass_check()
            } else {
                self.check_fail("preimage doesn't match")
            },
        }
    }

    /// The material of a signature check on `key` and `msg` (see
    /// [`signature_inputs_spec`]): the encoded public key, the message bytes
    /// and the encoded signature.
    pub fn signature_inputs(&self, key: &str, msg: &str) -> (r: Result<
        (Vec<u8>, Vec<u8>, Vec<u8>),
        String,
    >)
        ensures
            match r {
                Ok((pk, m, sig)) => signature_inputs_spec(self@, key@, msg@) == Ok::<
                    (Seq<u8>, Seq<u8>, Seq<u8>),
                    Seq<char>,
                >((pk@, m@, sig@)),
                Err(e) => signature_inputs_spec(self@, key@, msg@) == Err::<
                    (Seq<u8>, Seq<u8>, Seq<u8>),
                    Seq<char>,
                >(e@),
            },
    {
        let pubkey = match self.current.get(key) {
            Some(Value::Bin { data, .. }) => data,
            Some(_) => {
                return Err(joined("unexpected value type associated with ", key));
            },
            None => {
                return Err(joined("no multikey associated with ", key));
            },
        };
        let stored = self.proposed.get(msg);
        let message = match stored {
            Some(v) => v.to_bytes(),
            None => {
                return Err(joined("no message associated with ", msg));
            },
        };
        let message = match message {
            Some(b) => b,
            None => {
                return Err(joined("unexpected value type associated with ", msg));
            },
        };
        if self.pstack.len() < 1 {
            let mut s = joined("not enough parameters (0) on the stack for check_signature (", key);
            s.append(", ");
            s.append(msg);
            s.append(")");
            return Err(s);
        }
        match self.pstack.top() {
            Some(Value::Bin { data, .. }) => Ok((pubkey, message, data)),
            _ => Err(String::from_str("no multisig on stack")),
        }
    }

    /// Concludes a signature check on `key` and `msg`, where `verdict` is the
    /// outcome of decoding the material that [`Context::signature_inputs`]
    /// gives as a public key and a signature and verifying the signature on
    /// the message with the key. Where there is no material, the check fails
    /// with its cause, whatever `verdict` holds.
    pub fn check_signature(&mut self, key: &str, msg: &str, verdict: Result<(), String>) -> (r: bool)
        requires
            old(self).check_count < usize::MAX,
        ensures
            check_effect(
                old(self)@,
                final(self)@,
                signature_verdict(old(self)@, key@, msg@, outcome_view(verdict)),
                r,
            ),
    {
        match self.signature_inputs(key, msg) {
            Err(e) => self.check_fail(e.as_str()),
            Ok(_) => match verdict {
                Ok(_) => self.pass_check(),
                Err(e) => self.check_fail(e.as_str()),
            },
        }
    }
}

} // verus!
