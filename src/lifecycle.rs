//! The staged evaluator: an unlock stage that gathers witnesses, then an
//! unlocked stage that checks them, each lock on a copy of the state.
use vstd::prelude::*;
use core::marker::PhantomData;
use crate::context::{
    check_effect, eq_verdict, outcome_view, preimage_verdict, signature_inputs_spec,
    signature_verdict, Context, ContextView,
};
use crate::pairs::{lookup, Pairable, Pairs};
use crate::stack::{peek_spec, Stk};
use crate::value::{Value, ValueView};

verus! {

/// The stage before the unlock script has run: only `push` and `branch`.
#[derive(Debug, Default)]
pub struct Initial;

/// The stage after the unlock script has run: the checks as well.
#[derive(Debug)]
pub struct Unlocked;

/// The store that locks interrogate.
pub struct Current<P>(pub P);

/// The candidate store that an unlock draws witnesses from.
pub struct Proposed<P>(pub P);

impl<P> From<P> for Current<P> {
    fn from(p: P) -> (r: Current<P>) {
        Current(p)
    }
}

impl<P> vstd::std_specs::convert::FromSpecImpl<P> for Current<P> {
    open spec fn obeys_from_spec() -> bool {
        true
    }

    open spec fn from_spec(p: P) -> Current<P> {
        Current(p)
    }
}

impl<P> From<P> for Proposed<P> {
    fn from(p: P) -> (r: Proposed<P>) {
        Proposed(p)
    }
}

impl<P> vstd::std_specs::convert::FromSpecImpl<P> for Proposed<P> {
    open spec fn obeys_from_spec() -> bool {
        true
    }

    open spec fn from_spec(p: P) -> Proposed<P> {
        Proposed(p)
    }
}

/// An evaluator at stage `Stage`: the context and the script loaded to run
/// on it.
pub struct Comrade<Stage, P: Pairable> {
    context: Context<P>,
    script: Option<String>,
    stage: PhantomData<Stage>,
}

impl<Stage, P: Pairable> Comrade<Stage, P> {
    /// The state that scripts work on.
    pub closed spec fn state(&self) -> ContextView {
        self.context@
    }

    /// The script loaded, if any.
    pub closed spec fn loaded(&self) -> Option<Seq<char>> {
        match self.script {
            Some(s) => Some(s@),
            None => None,
        }
    }

    /// The context.
    pub fn context(&self) -> (r: &Context<P>)
        ensures
            r@ == self.state(),
    {
        &self.context
    }

    /// Replaces the current store.
    pub fn current(&mut self, current: P)
        ensures
            final(self).state() == (ContextView { current: current.pairs(), ..old(self).state() }),
            final(self).loaded() == old(self).loaded(),
    {
        self.context.current = current;
    }

    /// Loads `script` as the one to run next.
    pub fn load(&mut self, script: String)
        ensures
            final(self).state() == old(self).state(),
            final(self).loaded() == Some(script@),
    {
        self.script = Some(script);
    }

    /// The script to run next, or why there is none.
    pub fn script(&self) -> (r: Result<String, String>)
        ensures
            match r {
                Ok(s) => self.loaded() == Some(s@),
                Err(e) => self.loaded() is None && e@ == "no script loaded"@,
            },
    {
        match &self.script {
            Some(s) => Ok(s.clone()),
            None => Err(String::from_str("no script loaded")),
        }
    }

    /// A copy of the return stack.
    pub fn return_stack(&self) -> (r: Stk)
        ensures
            r@ == self.state().rstack,
    {
        self.context.rstack.clone()
    }

    /// Pushes the value under `key` in the current store onto the parameter
    /// stack (see [`Context::push`]).
    pub fn push(&mut self, key: &str) -> (r: bool)
        ensures
            r == (lookup_current(old(self).state(), key@) is Some),
            match lookup_current(old(self).state(), key@) {
                Some(v) => final(self).state() == (ContextView {
                    pstack: old(self).state().pstack.push(v),
                    ..old(self).state()
                }),
                None => final(self).state() == (ContextView {
                    rstack: old(self).state().rstack.push(
                        ValueView::Failure("kvp missing key: "@ + key@),
                    ),
                    ..old(self).state()
                }),
            },
            final(self).loaded() == old(self).loaded(),
    {
        self.context.push(key)
    }

    /// The key `key` under the domain.
    pub fn branch(&self, key: &str) -> (r: String)
        ensures
            r@ == self.state().domain + key@,
    {
        self.context.branch(key)
    }

    /// The top of the return stack: the outcome of the last check, if any.
    pub fn outcome(&self) -> (r: Option<Value>)
        ensures
            match r {
                Some(v) => peek_spec(self.state().rstack, 0) == Some(v@),
                None => self.state().rstack.len() == 0,
            },
    {
        self.context.rstack.top()
    }
}

impl<P: Pairable> Comrade<Initial, P> {
    /// An evaluator at the first stage over `ctx`, with no script loaded.
    pub fn new(ctx: Context<P>) -> (r: Self)
        ensures
            r.state() == ctx@,
            r.loaded() is None,
    {
        Comrade { context: ctx, script: None, stage: PhantomData }
    }

    /// The same evaluator at the unlocked stage.
    pub fn into_unlocked(self) -> (r: Comrade<Unlocked, P>)
        ensures
            r.state() == self.state(),
            r.loaded() == self.loaded(),
    {
        Comrade { context: self.context, script: self.script, stage: PhantomData }
    }
}

/// What the current store of `c` holds under `key`.
pub open spec fn lookup_current(c: ContextView, key: Seq<char>) -> Option<ValueView> {
    lookup(c.current, key)
}

impl<P: Pairable> Comrade<Unlocked, P> {
    /// A separate evaluator with a copy of this one's state, for one lock
    /// attempt: what runs on it leaves this one as it is.
    pub fn attempt(&self) -> (r: Comrade<Unlocked, P>)
        ensures
            r.state() == self.state(),
            r.loaded() == self.loaded(),
    {
        let script = match &self.script {
            Some(s) => Some(s.clone()),
            None => None,
        };
        Comrade { context: self.context.clone(), script, stage: PhantomData }
    }

    /// See [`Context::check_signature`].
    pub fn check_signature(&mut self, key: &str, msg: &str, verdict: Result<(), String>) -> (r:
        bool)
        requires
            old(self).state().check_count < usize::MAX,
        ensures
            check_effect(
                old(self).state(),
                final(self).state(),
                signature_verdict(
                    old(self).state(),
                    key@,
                    msg@,
                    outcome_view(verdict),
                ),
                r,
            ),
            final(self).loaded() == old(self).loaded(),
    {
        self.context.check_signature(key, msg, verdict)
    }

    /// See [`Context::signature_inputs`].
    pub fn signature_inputs(&self, key: &str, msg: &str) -> (r: Result<
        (Vec<u8>, Vec<u8>, Vec<u8>),
        String,
    >)
        ensures
            match r {
                Ok((pk, m, sig)) => signature_inputs_spec(
                    self.state(),
                    key@,
                    msg@,
                ) == Ok::<(Seq<u8>, Seq<u8>, Seq<u8>), Seq<char>>((pk@, m@, sig@)),
                Err(e) => signature_inputs_spec(self.state(), key@, msg@) == Err::<
                    (Seq<u8>, Seq<u8>, Seq<u8>),
                    Seq<char>,
                >(e@),
            },
    {
        self.context.signature_inputs(key, msg)
    }

    /// See [`Context::check_preimage`].
    pub fn check_preimage(&mut self, key: String) -> (r: bool)
        requires
            old(self).state().check_count < usize::MAX,
        ensures
            check_effect(
                old(self).state(),
                final(self).state(),
                preimage_verdict(old(self).state(), key@),
                r,
            ),
            final(self).loaded() == old(self).loaded(),
    {
        self.context.check_preimage(key)
    }

    /// See [`Context::check_eq`].
    pub fn check_eq(&mut self, key: &str) -> (r: bool)
        requires
            old(self).state().check_count < usize::MAX,
        ensures
            check_effect(
                old(self).state(),
                final(self).state(),
                eq_verdict(old(self).state(), key@),
                r,
            ),
            final(self).loaded() == old(self).loaded(),
    {
        self.context.check_eq(key)
    }
}

/// Assembles the first evaluator: during the unlock both stores of its
/// context are the proposed one; the current store waits until the unlock
/// has run.
pub struct ComradeBuilder<P: Pairable> {
    context: Context<P>,
    current: P,
    unlock_script: String,
}

impl<P: Pairable> ComradeBuilder<P> {
    /// The context that the unlock runs on.
    pub closed spec fn unlock_state(&self) -> ContextView {
        self.context@
    }

    /// The store that takes the place of the current one after the unlock.
    pub closed spec fn pending_current(&self) -> Map<Seq<char>, ValueView> {
        self.current.pairs()
    }

    /// The unlock script.
    pub closed spec fn unlock_text(&self) -> Seq<char> {
        self.unlock_script@
    }

    /// A builder for the unlock script `unlock` over the two stores.
    pub fn new(unlock: &str, current: Current<P>, proposed: Proposed<P>) -> (r: Self)
        ensures
            r.unlock_state() == (ContextView {
                current: proposed.0.pairs(),
                proposed: proposed.0.pairs(),
                check_count: 0,
                rstack: Seq::empty(),
                pstack: Seq::empty(),
                domain: "/"@,
            }),
            r.pending_current() == current.0.pairs(),
            r.unlock_text() == unlock@,
    {
        let Proposed(proposed) = proposed;
        let Current(current) = current;
        let during_unlock = proposed.duplicate();
        ComradeBuilder {
            context: Context::new(during_unlock, proposed),
            current,
            unlock_script: String::from_str(unlock),
        }
    }

    /// Sets the prefix that `branch` puts before keys.
    pub fn with_domain(&mut self, domain: &str)
        ensures
            final(self).unlock_state() == (ContextView {
                domain: domain@,
                ..old(self).unlock_state()
            }),
            final(self).pending_current() == old(self).pending_current(),
            final(self).unlock_text() == old(self).unlock_text(),
    {
        self.context.domain = String::from_str(domain);
    }

    /// The evaluator that the unlock script runs on: a copy of the context,
    /// with the unlock script loaded.
    pub fn begin_unlock(&self) -> (r: Comrade<Initial, P>)
        ensures
            r.state() == self.unlock_state(),
            r.loaded() == Some(self.unlock_text()),
    {
        let mut c = Comrade::new(self.context.clone());
        c.load(self.unlock_script.clone());
        c
    }

    /// Ends the unlock: `unlocked` (which ran the unlock script) gets the
    /// current store in place of the proposed one and moves to the unlocked
    /// stage. The builder's current store is left empty.
    pub fn finish_unlock(&mut self, unlocked: Comrade<Initial, P>) -> (r: Comrade<Unlocked, P>)
        ensures
            r.state() == (ContextView {
                current: old(self).pending_current(),
                ..unlocked.state()
            }),
            r.loaded() == unlocked.loaded(),
            final(self).pending_current() == Map::<Seq<char>, ValueView>::empty(),
            final(self).unlock_state() == old(self).unlock_state(),
    {
        let mut current = P::empty();
        std::mem::swap(&mut current, &mut self.current);
        let mut c = unlocked;
        c.current(current);
        c.into_unlocked()
    }
}

} // verus!
